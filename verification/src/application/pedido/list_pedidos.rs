//! Listagem de pedidos.
use vstd::prelude::*;

use crate::application::dto::{pedido_saida, ListPedidosOutput, PedidoOutput};
use crate::application::errors::ApplicationError;
use crate::application::pedido::register_pedido::pedido_output;
use crate::domain::pedido::PedidoView;
use crate::domain::repository::{lista_completa, pedido_key, views, PedidoRepository};

verus! {

pub struct ListPedidos<O: PedidoRepository> {
    repository: O,
}

impl<O: PedidoRepository> ListPedidos<O> {
    pub closed spec fn pedidos(&self) -> Map<u128, PedidoView> {
        self.repository.pedidos()
    }

    pub fn new(repository: O) -> (r: Self)
        ensures
            r.pedidos() == repository.pedidos(),
    {
        ListPedidos { repository }
    }

    pub fn into_repository(self) -> (r: O)
        ensures
            r.pedidos() == self.pedidos(),
    {
        self.repository
    }

    /// Cada pedido guardado, uma vez, em alguma ordem.
    pub fn execute(&self) -> (r: Result<ListPedidosOutput, ApplicationError>)
        ensures
            r matches Ok(o) && exists|l: Seq<PedidoView>|
                lista_completa(l, self.pedidos(), pedido_key()) && o.pedidos@.len() == l.len()
                    && forall|i: int| 0 <= i < l.len() ==> pedido_saida(#[trigger] o.pedidos@[i], l[i]),
    {
        let pedidos = match self.repository.list_all() {
            Ok(l) => l,
            Err(e) => return Err(ApplicationError::Domain(e)),
        };
        let ghost l = views(pedidos@);
        assert(lista_completa(l, self.pedidos(), pedido_key()));
        let mut output: Vec<PedidoOutput> = Vec::new();
        let n = pedidos.len();
        let mut i: usize = 0;
        while i < n
            invariant
                n == pedidos@.len(),
                l == views(pedidos@),
                lista_completa(l, self.pedidos(), pedido_key()),
                i <= n,
                output@.len() == i,
                forall|j: int| 0 <= j < i ==> pedido_saida(#[trigger] output@[j], l[j]),
            decreases n - i,
        {
            output.push(pedido_output(&pedidos[i]));
            i = i + 1;
        }
        assert(lista_completa(l, self.pedidos(), pedido_key()) && output@.len() == l.len());
        Ok(ListPedidosOutput { pedidos: output })
    }
}

} // verus!
