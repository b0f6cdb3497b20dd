//! Remocao de cliente.
use vstd::prelude::*;

use crate::application::errors::ApplicationError;
use crate::domain::cliente::ClienteView;
use crate::domain::errors::DomainError;
use crate::domain::repository::ClienteRepository;
use crate::ids::ClienteId;

verus! {

pub struct DeleteCliente<R: ClienteRepository> {
    repository: R,
}

impl<R: ClienteRepository> DeleteCliente<R> {
    pub closed spec fn clientes(&self) -> Map<u128, ClienteView> {
        self.repository.clientes()
    }

    pub fn new(repository: R) -> (r: Self)
        ensures
            r.clientes() == repository.clientes(),
    {
        DeleteCliente { repository }
    }

    pub fn into_repository(self) -> (r: R)
        ensures
            r.clientes() == self.clientes(),
    {
        self.repository
    }

    pub fn execute(&mut self, cliente_id: ClienteId) -> (r: Result<(), ApplicationError>)
        ensures
            match r {
                Ok(()) => old(self).clientes().contains_key(cliente_id.spec_uuid()) && final(self).clientes()
                    == old(self).clientes().remove(cliente_id.spec_uuid()),
                Err(ApplicationError::Domain(e)) => !old(self).clientes().contains_key(
                    cliente_id.spec_uuid(),
                ) && e == DomainError::ClienteNotFound && final(self).clientes() == old(self).clientes(),
                Err(ApplicationError::Unexpected(_)) => false,
            },
    {
        match self.ensure_cliente_exists(cliente_id) {
            Ok(()) => {},
            Err(e) => return Err(e),
        }
        match self.repository.delete(cliente_id) {
            Ok(()) => Ok(()),
            Err(e) => Err(ApplicationError::Domain(e)),
        }
    }

    fn ensure_cliente_exists(&self, cliente_id: ClienteId) -> (r: Result<(), ApplicationError>)
        ensures
            match r {
                Ok(()) => self.clientes().contains_key(cliente_id.spec_uuid()),
                Err(e) => !self.clientes().contains_key(cliente_id.spec_uuid()) && e matches ApplicationError::Domain(
                    DomainError::ClienteNotFound,
                ),
            },
    {
        match self.repository.find_by_id(cliente_id) {
            Ok(Some(_)) => Ok(()),
            Ok(None) => Err(ApplicationError::Domain(DomainError::ClienteNotFound)),
            Err(e) => Err(ApplicationError::Domain(e)),
        }
    }
}

} // verus!
