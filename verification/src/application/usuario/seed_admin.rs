//! Semeadura do administrador de exemplo no boot.
use vstd::prelude::*;

use crate::application::usuario::register_user::{email_em_uso, emails_unicos};
use crate::domain::email::{spec_parse_email, Email};
use crate::domain::errors::DomainError;
use crate::domain::password::{senha_forte, PasswordHasher, PlainPassword};
use crate::domain::repository::UserRepository;
use crate::domain::role::Role;
use crate::domain::user::{User, UserView};
use crate::ids::{uuid_v4, UserId};

verus! {

/// O que a semeadura com a identidade `k` faz: com email invalido, o erro
/// dele; com o email ja cadastrado, `Ok(false)`; com senha fraca,
/// `WeakPassword`; com a identidade ja em uso, `Ok(false)` (a falha ao salvar
/// e engolida); senao guarda um administrador com aquele email e um hash que
/// o `hasher` gera para a senha, e devolve `Ok(true)`. So `Ok(true)` muda os
/// usuarios guardados.
pub open spec fn semeadura_do_admin<H: PasswordHasher>(
    hasher: H,
    antes: Map<u128, UserView>,
    depois: Map<u128, UserView>,
    email: Seq<char>,
    password: Seq<char>,
    k: u128,
    r: Result<bool, DomainError>,
) -> bool {
    match spec_parse_email(email) {
        Err(e) => depois == antes && r == Err::<bool, DomainError>(e),
        Ok(m) => if email_em_uso(antes, m) {
            depois == antes && r == Ok::<bool, DomainError>(false)
        } else if !senha_forte(password) {
            depois == antes && r == Err::<bool, DomainError>(DomainError::WeakPassword)
        } else if antes.contains_key(k) {
            depois == antes && r == Ok::<bool, DomainError>(false)
        } else {
            r == Ok::<bool, DomainError>(true) && exists|h: Seq<char>|
                #[trigger] hasher.hash_possivel(password, h) && depois == antes.insert(
                    k,
                    UserView { id: k, email: m, password_hash: h, role: Role::Admin },
                )
        },
    }
}

/// Cria um administrador com o email e a senha dados, e uma identidade nova,
/// aleatoria (UUID v4), a menos que o email ja esteja cadastrado (por
/// exemplo, porque o cache foi reidratado do historico). Devolve se criou; um
/// email ou uma senha fora das regras e um erro.
pub fn seed_default_admin<R: UserRepository, H: PasswordHasher>(
    repository: &mut R,
    hasher: &H,
    email: &str,
    password: &str,
) -> (r: Result<bool, DomainError>)
    ensures
        exists|k: u128|
            uuid_v4(k) && semeadura_do_admin(
                *hasher,
                old(repository).usuarios(),
                (*final(repository)).usuarios(),
                email@,
                password@,
                k,
                r,
            ),
        spec_parse_email(email@) is Ok && senha_forte(password@) && old(repository).usuarios().is_empty()
            ==> r == Ok::<bool, DomainError>(true),
        emails_unicos(old(repository).usuarios()) ==> emails_unicos((*final(repository)).usuarios()),
{
    let id = UserId::new();
    let r = seed_default_admin_com_id(repository, hasher, email, password, id);
    assert(uuid_v4(id.spec_uuid()));
    r
}

/// A semeadura com a identidade `user_id` ja sorteada.
pub fn seed_default_admin_com_id<R: UserRepository, H: PasswordHasher>(
    repository: &mut R,
    hasher: &H,
    email: &str,
    password: &str,
    user_id: UserId,
) -> (r: Result<bool, DomainError>)
    ensures
        semeadura_do_admin(
            *hasher,
            old(repository).usuarios(),
            (*final(repository)).usuarios(),
            email@,
            password@,
            user_id.spec_uuid(),
            r,
        ),
        emails_unicos(old(repository).usuarios()) ==> emails_unicos((*final(repository)).usuarios()),
{
    let email = match Email::parse(email) {
        Ok(e) => e,
        Err(e) => return Err(e),
    };
    let already_exists = match repository.find_by_email(&email) {
        Ok(Some(u)) => {
            assert(repository.usuarios().contains_key(u@.id));
            true
        },
        Ok(None) => false,
        Err(_) => false,
    };
    if already_exists {
        return Ok(false);
    }
    let password = match PlainPassword::parse(password) {
        Ok(p) => p,
        Err(e) => return Err(e),
    };
    let hashed = hasher.hash(&password);
    let admin = User::reconstitute(user_id, email, hashed, Role::Admin);
    match repository.save(&admin) {
        Ok(()) => {
            proof {
                assert(admin@ == UserView {
                    id: user_id.spec_uuid(),
                    email: admin@.email,
                    password_hash: admin@.password_hash,
                    role: Role::Admin,
                });
            }
            Ok(true)
        },
        Err(_) => Ok(false),
    }
}

} // verus!
