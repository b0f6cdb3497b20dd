//! Cancelamento de pedido: um pedido errado e cancelado e refeito, nunca
//! alterado.
use vstd::prelude::*;

use crate::application::errors::ApplicationError;
use crate::domain::errors::DomainError;
use crate::domain::pedido::PedidoView;
use crate::domain::repository::PedidoRepository;
use crate::ids::PedidoId;

verus! {

pub struct DeletePedido<O: PedidoRepository> {
    repository: O,
}

impl<O: PedidoRepository> DeletePedido<O> {
    pub closed spec fn pedidos(&self) -> Map<u128, PedidoView> {
        self.repository.pedidos()
    }

    pub fn new(repository: O) -> (r: Self)
        ensures
            r.pedidos() == repository.pedidos(),
    {
        DeletePedido { repository }
    }

    pub fn into_repository(self) -> (r: O)
        ensures
            r.pedidos() == self.pedidos(),
    {
        self.repository
    }

    pub fn execute(&mut self, pedido_id: PedidoId) -> (r: Result<(), ApplicationError>)
        ensures
            match r {
                Ok(()) => old(self).pedidos().contains_key(pedido_id.spec_uuid()) && final(self).pedidos()
                    == old(self).pedidos().remove(pedido_id.spec_uuid()),
                Err(ApplicationError::Domain(e)) => !old(self).pedidos().contains_key(pedido_id.spec_uuid())
                    && e == DomainError::PedidoNotFound && final(self).pedidos() == old(self).pedidos(),
                Err(ApplicationError::Unexpected(_)) => false,
            },
    {
        match self.ensure_pedido_existe(pedido_id) {
            Ok(()) => {},
            Err(e) => return Err(e),
        }
        match self.repository.delete(pedido_id) {
            Ok(()) => Ok(()),
            Err(e) => Err(ApplicationError::Domain(e)),
        }
    }

    fn ensure_pedido_existe(&self, pedido_id: PedidoId) -> (r: Result<(), ApplicationError>)
        ensures
            match r {
                Ok(()) => self.pedidos().contains_key(pedido_id.spec_uuid()),
                Err(e) => !self.pedidos().contains_key(pedido_id.spec_uuid()) && e matches ApplicationError::Domain(
                    DomainError::PedidoNotFound,
                ),
            },
    {
        match self.repository.find_by_id(pedido_id) {
            Ok(Some(_)) => Ok(()),
            Ok(None) => Err(ApplicationError::Domain(DomainError::PedidoNotFound)),
            Err(e) => Err(ApplicationError::Domain(e)),
        }
    }
}

} // verus!
