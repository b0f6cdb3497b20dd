//! Gestao administrativa de usuarios: so o email e editavel.
use vstd::prelude::*;

use crate::application::dto::{usuario_saida, UpdateUserInput, UpdateUserOutput};
use crate::application::errors::ApplicationError;
use crate::application::usuario::register_user::{email_em_uso, emails_unicos};
use crate::domain::email::{spec_parse_email, Email};
use crate::domain::errors::DomainError;
use crate::domain::repository::UserRepository;
use crate::domain::user::{User, UserView};
use crate::ids::{uuid_to_string, UserId};

verus! {

/// Outro usuario (que nao `id`) tem este email.
pub open spec fn email_de_outro(m: Map<u128, UserView>, email: Seq<char>, id: u128) -> bool {
    exists|k: u128| #[trigger] m.contains_key(k) && k != id && m[k].email == email
}

pub struct UpdateUser<R: UserRepository> {
    repository: R,
}

impl<R: UserRepository> UpdateUser<R> {
    pub closed spec fn usuarios(&self) -> Map<u128, UserView> {
        self.repository.usuarios()
    }

    pub fn new(repository: R) -> (r: Self)
        ensures
            r.usuarios() == repository.usuarios(),
    {
        UpdateUser { repository }
    }

    pub fn into_repository(self) -> (r: R)
        ensures
            r.usuarios() == self.usuarios(),
    {
        self.repository
    }

    /// Troca o email de um usuario existente; o email novo nao pode ser de
    /// outro usuario. Senha e papel ficam como estavam.
    pub fn execute(&mut self, user_id: UserId, input: UpdateUserInput) -> (r: Result<
        UpdateUserOutput,
        ApplicationError,
    >)
        ensures
            spec_parse_email(input.email@) matches Err(e) ==> r matches Err(ApplicationError::Domain(x))
                && x == e,
            spec_parse_email(input.email@) is Ok && !old(self).usuarios().contains_key(user_id.spec_uuid())
                ==> r matches Err(ApplicationError::Domain(DomainError::UserNotFound)),
            spec_parse_email(input.email@) matches Ok(m) && old(self).usuarios().contains_key(
                user_id.spec_uuid(),
            ) && !email_de_outro(old(self).usuarios(), m, user_id.spec_uuid()) ==> r is Ok,
            spec_parse_email(input.email@) matches Ok(m) && old(self).usuarios().contains_key(
                user_id.spec_uuid(),
            ) && email_de_outro(old(self).usuarios(), m, user_id.spec_uuid()) && old(self).usuarios()[user_id.spec_uuid()].email
                != m ==> r matches Err(ApplicationError::Domain(DomainError::UserAlreadyExists)),
            match r {
                Ok(out) => spec_parse_email(input.email@) matches Ok(m) && old(self).usuarios().contains_key(
                    user_id.spec_uuid(),
                ) && final(self).usuarios() == old(self).usuarios().insert(
                    user_id.spec_uuid(),
                    UserView { email: m, ..old(self).usuarios()[user_id.spec_uuid()] },
                ) && usuario_saida(
                    out.user_id,
                    out.email,
                    out.role,
                    UserView { email: m, ..old(self).usuarios()[user_id.spec_uuid()] },
                ),
                Err(ApplicationError::Domain(x)) => final(self).usuarios() == old(self).usuarios(),
                Err(ApplicationError::Unexpected(_)) => false,
            },
            emails_unicos(old(self).usuarios()) ==> emails_unicos(final(self).usuarios()),
    {
        let new_email = match Email::parse(input.email.as_str()) {
            Ok(e) => e,
            Err(e) => return Err(ApplicationError::Domain(e)),
        };
        let existing_user = match self.find_existing_user(user_id) {
            Ok(u) => u,
            Err(e) => return Err(e),
        };
        match self.ensure_email_is_available_for(&new_email, user_id) {
            Ok(()) => {},
            Err(e) => return Err(e),
        }
        let updated_user = existing_user.with_email(new_email);
        match self.repository.update(&updated_user) {
            Ok(()) => {},
            Err(e) => return Err(ApplicationError::Domain(e)),
        }
        Ok(Self::to_output(&updated_user))
    }

    fn find_existing_user(&self, user_id: UserId) -> (r: Result<User, ApplicationError>)
        ensures
            match r {
                Ok(u) => self.usuarios().contains_key(user_id.spec_uuid()) && u@ == self.usuarios()[user_id.spec_uuid()]
                    && u@.id == user_id.spec_uuid(),
                Err(e) => !self.usuarios().contains_key(user_id.spec_uuid()) && e matches ApplicationError::Domain(
                    DomainError::UserNotFound,
                ),
            },
    {
        match self.repository.find_by_id(user_id) {
            Ok(Some(u)) => Ok(u),
            Ok(None) => Err(ApplicationError::Domain(DomainError::UserNotFound)),
            Err(e) => Err(ApplicationError::Domain(e)),
        }
    }

    /// Recusa um email que pertence a outro usuario.
    fn ensure_email_is_available_for(&self, email: &Email, user_id: UserId) -> (r: Result<
        (),
        ApplicationError,
    >)
        ensures
            !email_de_outro(self.usuarios(), email@, user_id.spec_uuid()) ==> r is Ok,
            self.usuarios().contains_key(user_id.spec_uuid()) && email_de_outro(
                self.usuarios(),
                email@,
                user_id.spec_uuid(),
            ) && self.usuarios()[user_id.spec_uuid()].email != email@ ==> r is Err,
            r matches Err(e) ==> e matches ApplicationError::Domain(DomainError::UserAlreadyExists),
            r is Ok ==> !email_em_uso(self.usuarios(), email@) || (self.usuarios().contains_key(
                user_id.spec_uuid(),
            ) && self.usuarios()[user_id.spec_uuid()].email == email@),
    {
        match self.repository.find_by_email(email) {
            Ok(Some(u)) => {
                let belongs_to_someone_else = u.id().as_uuid() != user_id.as_uuid();
                if belongs_to_someone_else {
                    assert(self.usuarios().contains_key(u@.id));
                    return Err(ApplicationError::Domain(DomainError::UserAlreadyExists));
                }
                Ok(())
            },
            Ok(None) => Ok(()),
            Err(e) => Err(ApplicationError::Domain(e)),
        }
    }

    pub fn to_output(user: &User) -> (o: UpdateUserOutput)
        ensures
            usuario_saida(o.user_id, o.email, o.role, user@),
    {
        UpdateUserOutput {
            user_id: uuid_to_string(user.id().as_uuid()),
            email: user.email().as_str().to_string(),
            role: user.role().as_str().to_string(),
        }
    }
}

} // verus!
