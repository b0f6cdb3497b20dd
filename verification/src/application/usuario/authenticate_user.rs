//! Login. "Email nao cadastrado" e "senha errada" dao o mesmo erro
//! (`InvalidCredentials`), para nao revelar quais emails existem.
use vstd::prelude::*;

use crate::application::dto::{
    usuario_saida, AuthenticateUserInput, AuthenticateUserOutput, RegisterUserOutput,
};
use crate::application::errors::ApplicationError;
use crate::application::token_service::{AccessToken, TokenService};
use crate::application::usuario::register_user::{
    cadastro_de_usuario, email_em_uso, validar_credenciais,
};
use crate::domain::email::Email;
use crate::domain::errors::DomainError;
use crate::domain::password::{hasher_coerente, PasswordHasher, PlainPassword};
use crate::domain::repository::UserRepository;
use crate::domain::role::Role;
use crate::domain::user::{User, UserView};

verus! {

/// A resposta do login para o usuario `k`, dado o que o hasher respondeu
/// (`confere`): senha recusada da `InvalidCredentials` (sem pedir token);
/// aceita, o token que o servico emitiu para `k` e seu papel, ou a falha do
/// servico como erro inesperado.
pub open spec fn resposta_do_login<T: TokenService>(
    tokens: T,
    k: u128,
    role: Role,
    confere: bool,
    r: Result<AuthenticateUserOutput, ApplicationError>,
) -> bool {
    if !confere {
        r matches Err(ApplicationError::Domain(DomainError::InvalidCredentials))
    } else {
        match r {
            Ok(out) => tokens.emissao_possivel(k, role, Ok(out.access_token@)),
            Err(ApplicationError::Unexpected(m)) => tokens.emissao_possivel(k, role, Err(m@)),
            Err(ApplicationError::Domain(_)) => false,
        }
    }
}

/// O que o login faz: com email ou senha fora das regras, o primeiro erro;
/// com email desconhecido, `InvalidCredentials`; senao, para o usuario `k`
/// com aquele email, a resposta que o hasher `b` der para a senha e o hash
/// guardado decide (ver `resposta_do_login`).
pub open spec fn login_de<H: PasswordHasher, T: TokenService>(
    hasher: H,
    tokens: T,
    usuarios: Map<u128, UserView>,
    email: Seq<char>,
    password: Seq<char>,
    r: Result<AuthenticateUserOutput, ApplicationError>,
) -> bool {
    match validar_credenciais(email, password) {
        Err(e) => r matches Err(ApplicationError::Domain(x)) && x == e,
        Ok(m) => if !email_em_uso(usuarios, m) {
            r matches Err(ApplicationError::Domain(DomainError::InvalidCredentials))
        } else {
            exists|k: u128, b: bool|
                #![trigger usuarios.contains_key(k), hasher.conferencia_possivel(password, usuarios[k].password_hash, b)]
                usuarios.contains_key(k) && usuarios[k].email == m && hasher.conferencia_possivel(
                    password,
                    usuarios[k].password_hash,
                    b,
                ) && resposta_do_login(tokens, k, usuarios[k].role, b, r)
        },
    }
}

/// Cadastrar um usuario e depois entrar com o mesmo email e a mesma senha
/// da certo, com um hasher que confere as senhas contra os hashes que gera:
/// o login acha o usuario recem-cadastrado e so o servico de tokens pode
/// ainda falhar (erro inesperado).
pub proof fn lei_login_apos_cadastro<H: PasswordHasher, T: TokenService>(
    hasher: H,
    tokens: T,
    antes: Map<u128, UserView>,
    depois: Map<u128, UserView>,
    email: Seq<char>,
    password: Seq<char>,
    k: u128,
    cadastro: Result<RegisterUserOutput, ApplicationError>,
    login: Result<AuthenticateUserOutput, ApplicationError>,
)
    requires
        hasher_coerente(hasher),
        cadastro_de_usuario(hasher, antes, depois, email, password, k, cadastro),
        cadastro is Ok,
        login_de(hasher, tokens, depois, email, password, login),
    ensures
        match login {
            Ok(out) => tokens.emissao_possivel(k, Role::User, Ok(out.access_token@)),
            Err(ApplicationError::Unexpected(m)) => tokens.emissao_possivel(k, Role::User, Err(m@)),
            Err(ApplicationError::Domain(_)) => false,
        },
{
    let m = validar_credenciais(email, password)->Ok_0;
    let h = choose|h: Seq<char>|
        #[trigger] hasher.hash_possivel(password, h) && depois == antes.insert(
            k,
            UserView { id: k, email: m, password_hash: h, role: Role::User },
        ) && (cadastro matches Ok(out) && usuario_saida(
            out.user_id,
            out.email,
            out.role,
            UserView { id: k, email: m, password_hash: h, role: Role::User },
        ));
    assert(depois.contains_key(k) && depois[k].email == m);
    assert(email_em_uso(depois, m));
    let (j, b) = choose|j: u128, b: bool|
        #![trigger depois.contains_key(j), hasher.conferencia_possivel(password, depois[j].password_hash, b)]
        depois.contains_key(j) && depois[j].email == m && hasher.conferencia_possivel(
            password,
            depois[j].password_hash,
            b,
        ) && resposta_do_login(tokens, j, depois[j].role, b, login);
    if j != k {
        assert(antes.contains_key(j) && antes[j].email == m);
        assert(email_em_uso(antes, m));
    }
    assert(j == k);
    assert(hasher.hash_possivel(password, depois[k].password_hash));
    assert(b);
}

/// Email desconhecido e senha recusada pelo hasher dao o mesmo erro,
/// `InvalidCredentials`: a resposta nao revela se o email esta cadastrado.
pub proof fn lei_credenciais_invalidas<H: PasswordHasher, T: TokenService>(
    hasher: H,
    tokens: T,
    usuarios: Map<u128, UserView>,
    email: Seq<char>,
    password: Seq<char>,
    login: Result<AuthenticateUserOutput, ApplicationError>,
)
    requires
        validar_credenciais(email, password) is Ok,
        login_de(hasher, tokens, usuarios, email, password, login),
        forall|k: u128, b: bool|
            #![trigger usuarios.contains_key(k), hasher.conferencia_possivel(password, usuarios[k].password_hash, b)]
            usuarios.contains_key(k) && usuarios[k].email == validar_credenciais(email, password)->Ok_0
                && hasher.conferencia_possivel(password, usuarios[k].password_hash, b) ==> !b,
    ensures
        login matches Err(ApplicationError::Domain(DomainError::InvalidCredentials)),
{
}

pub struct AuthenticateUser<R: UserRepository, H: PasswordHasher, T: TokenService> {
    repository: R,
    hasher: H,
    tokens: T,
}

impl<R: UserRepository, H: PasswordHasher, T: TokenService> AuthenticateUser<R, H, T> {
    pub closed spec fn usuarios(&self) -> Map<u128, UserView> {
        self.repository.usuarios()
    }

    /// O servico que emite os tokens.
    pub closed spec fn servico_de_tokens(&self) -> T {
        self.tokens
    }

    /// O hasher que confere as senhas.
    pub closed spec fn hasher_spec(&self) -> H {
        self.hasher
    }

    pub fn new(repository: R, hasher: H, tokens: T) -> (r: Self)
        ensures
            r.usuarios() == repository.usuarios(),
            r.hasher_spec() == hasher,
            r.servico_de_tokens() == tokens,
    {
        AuthenticateUser { repository, hasher, tokens }
    }

    pub fn into_repository(self) -> (r: R)
        ensures
            r.usuarios() == self.usuarios(),
    {
        self.repository
    }

    /// Confere email e senha e emite um token. Se a senha confere, e se o
    /// token sai, decidem o `hasher` e o servico de tokens; email
    /// desconhecido e senha recusada dao o mesmo erro.
    pub fn execute(&self, input: AuthenticateUserInput) -> (r: Result<AuthenticateUserOutput, ApplicationError>)
        ensures
            login_de(
                self.hasher_spec(),
                self.servico_de_tokens(),
                self.usuarios(),
                input.email@,
                input.password@,
                r,
            ),
    {
        let email = match Email::parse(input.email.as_str()) {
            Ok(e) => e,
            Err(e) => return Err(ApplicationError::Domain(e)),
        };
        let plain_password = match PlainPassword::parse(input.password.as_str()) {
            Ok(p) => p,
            Err(e) => return Err(ApplicationError::Domain(e)),
        };
        let user = match self.find_registered_user(&email) {
            Ok(u) => u,
            Err(e) => return Err(e),
        };
        let confere = user.matches_password(&plain_password, &self.hasher);
        let ghost k = user@.id;
        match Self::ensure_password_matches(confere) {
            Ok(()) => {},
            Err(e) => {
                assert(resposta_do_login(self.servico_de_tokens(), k, user@.role, confere, Err(e)));
                return Err(e);
            },
        }
        let token = match self.issue_token_for(&user) {
            Ok(t) => t,
            Err(e) => {
                assert(resposta_do_login(self.servico_de_tokens(), k, user@.role, confere, Err(e)));
                return Err(e);
            },
        };
        let out = AuthenticateUserOutput { access_token: token.0 };
        assert(resposta_do_login(self.servico_de_tokens(), k, user@.role, confere, Ok(out)));
        Ok(out)
    }

    fn find_registered_user(&self, email: &Email) -> (r: Result<User, ApplicationError>)
        ensures
            match r {
                Ok(u) => self.usuarios().contains_key(u@.id) && self.usuarios()[u@.id] == u@ && u@.email
                    == email@,
                Err(e) => !email_em_uso(self.usuarios(), email@) && e matches ApplicationError::Domain(
                    DomainError::InvalidCredentials,
                ),
            },
    {
        match self.repository.find_by_email(email) {
            Ok(Some(u)) => {
                assert(self.usuarios().contains_key(u@.id));
                Ok(u)
            },
            Ok(None) => Err(ApplicationError::Domain(DomainError::InvalidCredentials)),
            Err(e) => Err(ApplicationError::Domain(e)),
        }
    }

    /// A senha conferida pelo `hasher` libera o login; a que nao confere e
    /// `InvalidCredentials`.
    pub fn ensure_password_matches(confere: bool) -> (r: Result<(), ApplicationError>)
        ensures
            match r {
                Ok(()) => confere,
                Err(e) => !confere && e matches ApplicationError::Domain(DomainError::InvalidCredentials),
            },
    {
        if !confere {
            return Err(ApplicationError::Domain(DomainError::InvalidCredentials));
        }
        Ok(())
    }

    /// Pede ao servico um token para o usuario (sua identidade e seu papel)
    /// e devolve a resposta: o token, ou a falha como erro inesperado.
    pub fn issue_token_for(&self, user: &User) -> (r: Result<AccessToken, ApplicationError>)
        ensures
            match r {
                Ok(t) => self.servico_de_tokens().emissao_possivel(user@.id, user@.role, Ok(t.0@)),
                Err(ApplicationError::Unexpected(m)) => self.servico_de_tokens().emissao_possivel(
                    user@.id,
                    user@.role,
                    Err(m@),
                ),
                Err(ApplicationError::Domain(_)) => false,
            },
    {
        Self::token_emitido(self.tokens.issue(user.id(), user.role()))
    }

    /// O token que o servico emitiu, ou a falha dele como erro inesperado.
    pub fn token_emitido(emitido: Result<AccessToken, String>) -> (r: Result<AccessToken, ApplicationError>)
        ensures
            match emitido {
                Ok(t) => r matches Ok(x) && x.0@ == t.0@,
                Err(m) => r matches Err(ApplicationError::Unexpected(x)) && x@ == m@,
            },
    {
        match emitido {
            Ok(t) => Ok(t),
            Err(m) => Err(ApplicationError::Unexpected(m)),
        }
    }
}

} // verus!
