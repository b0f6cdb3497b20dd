//! Listagem de clientes.
use vstd::prelude::*;

use crate::application::cliente::register_cliente::RegisterCliente;
use crate::application::dto::{cliente_saida, ClienteOutput, ListClientesOutput};
use crate::application::errors::ApplicationError;
use crate::domain::cliente::ClienteView;
use crate::domain::repository::{cliente_key, lista_completa, views, ClienteRepository};

verus! {

pub struct ListClientes<R: ClienteRepository> {
    repository: R,
}

impl<R: ClienteRepository> ListClientes<R> {
    pub closed spec fn clientes(&self) -> Map<u128, ClienteView> {
        self.repository.clientes()
    }

    pub fn new(repository: R) -> (r: Self)
        ensures
            r.clientes() == repository.clientes(),
    {
        ListClientes { repository }
    }

    pub fn into_repository(self) -> (r: R)
        ensures
            r.clientes() == self.clientes(),
    {
        self.repository
    }

    /// Cada cliente guardado, uma vez, em alguma ordem.
    pub fn execute(&self) -> (r: Result<ListClientesOutput, ApplicationError>)
        ensures
            r matches Ok(o) && exists|l: Seq<ClienteView>|
                lista_completa(l, self.clientes(), cliente_key()) && o.clientes@.len() == l.len()
                    && forall|i: int| 0 <= i < l.len() ==> cliente_saida(#[trigger] o.clientes@[i], l[i]),
    {
        let clientes = match self.repository.list_all() {
            Ok(l) => l,
            Err(e) => return Err(ApplicationError::Domain(e)),
        };
        let ghost l = views(clientes@);
        assert(lista_completa(l, self.clientes(), cliente_key()));
        let mut output: Vec<ClienteOutput> = Vec::new();
        let n = clientes.len();
        let mut i: usize = 0;
        while i < n
            invariant
                n == clientes@.len(),
                l == views(clientes@),
                lista_completa(l, self.clientes(), cliente_key()),
                i <= n,
                output@.len() == i,
                forall|j: int| 0 <= j < i ==> cliente_saida(#[trigger] output@[j], l[j]),
            decreases n - i,
        {
            output.push(RegisterCliente::<R>::to_output(&clientes[i]));
            i = i + 1;
        }
        assert(lista_completa(l, self.clientes(), cliente_key()) && output@.len() == l.len());
        Ok(ListClientesOutput { clientes: output })
    }
}

} // verus!
