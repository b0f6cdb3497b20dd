//! Cadastro publico de usuario: sempre com o papel comum.
use vstd::prelude::*;

use crate::application::dto::{usuario_saida, RegisterUserInput, RegisterUserOutput};
use crate::application::errors::ApplicationError;
use crate::domain::email::{spec_parse_email, Email};
use crate::domain::errors::DomainError;
use crate::domain::password::{senha_forte, PasswordHasher, PlainPassword};
use crate::domain::repository::UserRepository;
use crate::domain::role::Role;
use crate::domain::user::{User, UserView};
use crate::ids::{uuid_to_string, uuid_v4, UserId};

verus! {

/// O email validado, se email e senha passam nas regras (nessa ordem), ou o
/// primeiro erro.
pub open spec fn validar_credenciais(email: Seq<char>, password: Seq<char>) -> Result<Seq<char>, DomainError> {
    match spec_parse_email(email) {
        Err(e) => Err(e),
        Ok(m) => if senha_forte(password) {
            Ok(m)
        } else {
            Err(DomainError::WeakPassword)
        },
    }
}

/// Algum usuario guardado tem este email.
pub open spec fn email_em_uso(m: Map<u128, UserView>, email: Seq<char>) -> bool {
    exists|k: u128| #[trigger] m.contains_key(k) && m[k].email == email
}

/// Nenhum email pertence a dois usuarios.
pub open spec fn emails_unicos(m: Map<u128, UserView>) -> bool {
    forall|a: u128, b: u128|
        #[trigger] m.contains_key(a) && #[trigger] m.contains_key(b) && a != b ==> m[a].email
            != m[b].email
}

/// O que o cadastro de um usuario com a identidade `k` faz: com email ou
/// senha fora das regras, o primeiro erro; com o email ou a identidade ja em
/// uso, `UserAlreadyExists`; senao guarda o usuario, com o papel comum e um
/// hash que o `hasher` gera para a senha, e devolve seus dados publicos. So o
/// sucesso muda os usuarios guardados.
pub open spec fn cadastro_de_usuario<H: PasswordHasher>(
    hasher: H,
    antes: Map<u128, UserView>,
    depois: Map<u128, UserView>,
    email: Seq<char>,
    password: Seq<char>,
    k: u128,
    r: Result<RegisterUserOutput, ApplicationError>,
) -> bool {
    match validar_credenciais(email, password) {
        Err(e) => depois == antes && (r matches Err(ApplicationError::Domain(x)) && x == e),
        Ok(m) => if email_em_uso(antes, m) || antes.contains_key(k) {
            depois == antes && r matches Err(ApplicationError::Domain(DomainError::UserAlreadyExists))
        } else {
            exists|h: Seq<char>|
                #[trigger] hasher.hash_possivel(password, h) && depois == antes.insert(
                    k,
                    UserView { id: k, email: m, password_hash: h, role: Role::User },
                ) && (r matches Ok(out) && usuario_saida(
                    out.user_id,
                    out.email,
                    out.role,
                    UserView { id: k, email: m, password_hash: h, role: Role::User },
                ))
        },
    }
}

pub struct RegisterUser<R: UserRepository, H: PasswordHasher> {
    repository: R,
    hasher: H,
}

impl<R: UserRepository, H: PasswordHasher> RegisterUser<R, H> {
    pub closed spec fn usuarios(&self) -> Map<u128, UserView> {
        self.repository.usuarios()
    }

    /// O hasher que cifra as senhas.
    pub closed spec fn hasher_spec(&self) -> H {
        self.hasher
    }

    pub fn new(repository: R, hasher: H) -> (r: Self)
        ensures
            r.usuarios() == repository.usuarios(),
            r.hasher_spec() == hasher,
    {
        RegisterUser { repository, hasher }
    }

    pub fn into_repository(self) -> (r: R)
        ensures
            r.usuarios() == self.usuarios(),
    {
        self.repository
    }

    /// Cadastra um usuario com o papel comum e uma identidade nova, aleatoria
    /// (UUID v4); o email nao pode estar em uso. So falha por identidade
    /// repetida se o sorteio cair numa ja usada.
    pub fn execute(&mut self, input: RegisterUserInput) -> (r: Result<RegisterUserOutput, ApplicationError>)
        ensures
            final(self).hasher_spec() == old(self).hasher_spec(),
            exists|k: u128|
                uuid_v4(k) && cadastro_de_usuario(
                    old(self).hasher_spec(),
                    old(self).usuarios(),
                    final(self).usuarios(),
                    input.email@,
                    input.password@,
                    k,
                    r,
                ),
            validar_credenciais(input.email@, input.password@) is Ok && old(self).usuarios().is_empty()
                ==> r is Ok,
            emails_unicos(old(self).usuarios()) ==> emails_unicos(final(self).usuarios()),
    {
        let id = UserId::new();
        let r = self.execute_com_id(input, id);
        assert(uuid_v4(id.spec_uuid()));
        r
    }

    /// O cadastro com a identidade `user_id` ja sorteada.
    pub fn execute_com_id(&mut self, input: RegisterUserInput, user_id: UserId) -> (r: Result<
        RegisterUserOutput,
        ApplicationError,
    >)
        ensures
            final(self).hasher_spec() == old(self).hasher_spec(),
            cadastro_de_usuario(
                old(self).hasher_spec(),
                old(self).usuarios(),
                final(self).usuarios(),
                input.email@,
                input.password@,
                user_id.spec_uuid(),
                r,
            ),
            emails_unicos(old(self).usuarios()) ==> emails_unicos(final(self).usuarios()),
    {
        let email = match Email::parse(input.email.as_str()) {
            Ok(e) => e,
            Err(e) => return Err(ApplicationError::Domain(e)),
        };
        let plain_password = match PlainPassword::parse(input.password.as_str()) {
            Ok(p) => p,
            Err(e) => return Err(ApplicationError::Domain(e)),
        };
        match self.ensure_email_is_available(&email) {
            Ok(()) => {},
            Err(e) => return Err(e),
        }
        let user = self.create_user(user_id, email, plain_password);
        match self.repository.save(&user) {
            Ok(()) => {},
            Err(e) => return Err(ApplicationError::Domain(e)),
        }
        let out = Self::to_output(&user);
        proof {
            let k = user@.id;
            let h = user@.password_hash;
            assert(user@ == UserView { id: k, email: user@.email, password_hash: h, role: Role::User });
        }
        Ok(out)
    }

    fn ensure_email_is_available(&self, email: &Email) -> (r: Result<(), ApplicationError>)
        ensures
            match r {
                Ok(()) => !email_em_uso(self.usuarios(), email@),
                Err(e) => email_em_uso(self.usuarios(), email@) && e matches ApplicationError::Domain(
                    DomainError::UserAlreadyExists,
                ),
            },
    {
        match self.repository.find_by_email(email) {
            Ok(Some(u)) => {
                assert(self.usuarios().contains_key(u@.id));
                Err(ApplicationError::Domain(DomainError::UserAlreadyExists))
            },
            Ok(None) => Ok(()),
            Err(e) => Err(ApplicationError::Domain(e)),
        }
    }

    /// Usuario novo, com o papel comum e a senha cifrada pelo `hasher`.
    fn create_user(&self, user_id: UserId, email: Email, plain_password: PlainPassword) -> (u: User)
        ensures
            u@.id == user_id.spec_uuid(),
            u@.email == email@,
            u@.role == Role::User,
            self.hasher_spec().hash_possivel(plain_password@, u@.password_hash),
    {
        let hashed_password = self.hasher.hash(&plain_password);
        User::reconstitute(user_id, email, hashed_password, Role::User)
    }

    /// Os dados publicos do usuario (nunca a senha).
    pub fn to_output(user: &User) -> (o: RegisterUserOutput)
        ensures
            usuario_saida(o.user_id, o.email, o.role, user@),
    {
        RegisterUserOutput {
            user_id: uuid_to_string(user.id().as_uuid()),
            email: user.email().as_str().to_string(),
            role: user.role().as_str().to_string(),
        }
    }
}

} // verus!
