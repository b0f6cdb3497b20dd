//! `GET /me`: os dados atuais do usuario do token, sempre relidos do
//! repositorio.
use vstd::prelude::*;

use crate::application::dto::{usuario_saida, CurrentUserOutput};
use crate::application::errors::ApplicationError;
use crate::domain::errors::DomainError;
use crate::domain::repository::UserRepository;
use crate::domain::user::UserView;
use crate::ids::{uuid_to_string, UserId};

verus! {

pub struct GetCurrentUser<R: UserRepository> {
    repository: R,
}

impl<R: UserRepository> GetCurrentUser<R> {
    pub closed spec fn usuarios(&self) -> Map<u128, UserView> {
        self.repository.usuarios()
    }

    pub fn new(repository: R) -> (r: Self)
        ensures
            r.usuarios() == repository.usuarios(),
    {
        GetCurrentUser { repository }
    }

    pub fn into_repository(self) -> (r: R)
        ensures
            r.usuarios() == self.usuarios(),
    {
        self.repository
    }

    /// Um token de um usuario que ja nao existe vale como credencial invalida.
    pub fn execute(&self, user_id: UserId) -> (r: Result<CurrentUserOutput, ApplicationError>)
        ensures
            match r {
                Ok(o) => self.usuarios().contains_key(user_id.spec_uuid()) && usuario_saida(
                    o.user_id,
                    o.email,
                    o.role,
                    self.usuarios()[user_id.spec_uuid()],
                ),
                Err(ApplicationError::Domain(e)) => !self.usuarios().contains_key(user_id.spec_uuid())
                    && e == DomainError::InvalidCredentials,
                Err(ApplicationError::Unexpected(_)) => false,
            },
    {
        let user = match self.repository.find_by_id(user_id) {
            Ok(Some(u)) => u,
            Ok(None) => return Err(ApplicationError::Domain(DomainError::InvalidCredentials)),
            Err(e) => return Err(ApplicationError::Domain(e)),
        };
        Ok(
            CurrentUserOutput {
                user_id: uuid_to_string(user.id().as_uuid()),
                email: user.email().as_str().to_string(),
                role: user.role().as_str().to_string(),
            },
        )
    }
}

} // verus!
