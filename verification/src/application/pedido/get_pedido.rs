//! Consulta de um pedido pelo id.
use vstd::prelude::*;

use crate::application::dto::{pedido_saida, PedidoOutput};
use crate::application::errors::ApplicationError;
use crate::application::pedido::register_pedido::pedido_output;
use crate::domain::errors::DomainError;
use crate::domain::pedido::PedidoView;
use crate::domain::repository::PedidoRepository;
use crate::ids::PedidoId;

verus! {

pub struct GetPedido<O: PedidoRepository> {
    repository: O,
}

impl<O: PedidoRepository> GetPedido<O> {
    pub closed spec fn pedidos(&self) -> Map<u128, PedidoView> {
        self.repository.pedidos()
    }

    pub fn new(repository: O) -> (r: Self)
        ensures
            r.pedidos() == repository.pedidos(),
    {
        GetPedido { repository }
    }

    pub fn into_repository(self) -> (r: O)
        ensures
            r.pedidos() == self.pedidos(),
    {
        self.repository
    }

    pub fn execute(&self, pedido_id: PedidoId) -> (r: Result<PedidoOutput, ApplicationError>)
        ensures
            match r {
                Ok(o) => self.pedidos().contains_key(pedido_id.spec_uuid()) && pedido_saida(
                    o,
                    self.pedidos()[pedido_id.spec_uuid()],
                ),
                Err(ApplicationError::Domain(e)) => !self.pedidos().contains_key(pedido_id.spec_uuid())
                    && e == DomainError::PedidoNotFound,
                Err(ApplicationError::Unexpected(_)) => false,
            },
    {
        match self.repository.find_by_id(pedido_id) {
            Ok(Some(p)) => Ok(pedido_output(&p)),
            Ok(None) => Err(ApplicationError::Domain(DomainError::PedidoNotFound)),
            Err(e) => Err(ApplicationError::Domain(e)),
        }
    }
}

} // verus!
