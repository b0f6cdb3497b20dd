//! Remocao administrativa de usuario.
use vstd::prelude::*;

use crate::application::errors::ApplicationError;
use crate::domain::errors::DomainError;
use crate::domain::repository::UserRepository;
use crate::domain::user::UserView;
use crate::ids::UserId;

verus! {

pub struct DeleteUser<R: UserRepository> {
    repository: R,
}

impl<R: UserRepository> DeleteUser<R> {
    pub closed spec fn usuarios(&self) -> Map<u128, UserView> {
        self.repository.usuarios()
    }

    pub fn new(repository: R) -> (r: Self)
        ensures
            r.usuarios() == repository.usuarios(),
    {
        DeleteUser { repository }
    }

    pub fn into_repository(self) -> (r: R)
        ensures
            r.usuarios() == self.usuarios(),
    {
        self.repository
    }

    pub fn execute(&mut self, user_id: UserId) -> (r: Result<(), ApplicationError>)
        ensures
            match r {
                Ok(()) => old(self).usuarios().contains_key(user_id.spec_uuid()) && final(self).usuarios()
                    == old(self).usuarios().remove(user_id.spec_uuid()),
                Err(ApplicationError::Domain(e)) => !old(self).usuarios().contains_key(user_id.spec_uuid())
                    && e == DomainError::UserNotFound && final(self).usuarios() == old(self).usuarios(),
                Err(ApplicationError::Unexpected(_)) => false,
            },
    {
        match self.repository.delete(user_id) {
            Ok(()) => Ok(()),
            Err(e) => Err(ApplicationError::Domain(e)),
        }
    }
}

} // verus!
