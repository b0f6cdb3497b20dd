//! Consulta de um cliente pelo id.
use vstd::prelude::*;

use crate::application::cliente::register_cliente::RegisterCliente;
use crate::application::dto::{cliente_saida, ClienteOutput};
use crate::application::errors::ApplicationError;
use crate::domain::cliente::ClienteView;
use crate::domain::errors::DomainError;
use crate::domain::repository::ClienteRepository;
use crate::ids::ClienteId;

verus! {

pub struct GetCliente<R: ClienteRepository> {
    repository: R,
}

impl<R: ClienteRepository> GetCliente<R> {
    pub closed spec fn clientes(&self) -> Map<u128, ClienteView> {
        self.repository.clientes()
    }

    pub fn new(repository: R) -> (r: Self)
        ensures
            r.clientes() == repository.clientes(),
    {
        GetCliente { repository }
    }

    pub fn into_repository(self) -> (r: R)
        ensures
            r.clientes() == self.clientes(),
    {
        self.repository
    }

    pub fn execute(&self, cliente_id: ClienteId) -> (r: Result<ClienteOutput, ApplicationError>)
        ensures
            match r {
                Ok(o) => self.clientes().contains_key(cliente_id.spec_uuid()) && cliente_saida(
                    o,
                    self.clientes()[cliente_id.spec_uuid()],
                ),
                Err(ApplicationError::Domain(e)) => !self.clientes().contains_key(cliente_id.spec_uuid())
                    && e == DomainError::ClienteNotFound,
                Err(ApplicationError::Unexpected(_)) => false,
            },
    {
        match self.repository.find_by_id(cliente_id) {
            Ok(Some(c)) => Ok(RegisterCliente::<R>::to_output(&c)),
            Ok(None) => Err(ApplicationError::Domain(DomainError::ClienteNotFound)),
            Err(e) => Err(ApplicationError::Domain(e)),
        }
    }
}

} // verus!
