//! Portas de persistencia: o dominio e a aplicacao dependem so destes
//! contratos, nunca de uma implementacao concreta.
use vstd::prelude::*;

use crate::domain::cliente::{Cliente, ClienteView};
use crate::domain::cpf::Cpf;
use crate::domain::email::Email;
use crate::domain::errors::DomainError;
use crate::domain::pedido::{Pedido, PedidoView};
use crate::domain::produto::{Produto, ProdutoView};
use crate::domain::user::{User, UserView};
use crate::ids::{ClienteId, PedidoId, ProdutoId, UserId};

verus! {

/// As vistas dos valores, na mesma ordem.
pub open spec fn views<T: View>(s: Seq<T>) -> Seq<T::V> {
    s.map_values(|e: T| e@)
}

/// `l` lista cada valor guardado em `m` exatamente uma vez, em alguma ordem;
/// `key` da a identidade de um valor.
pub open spec fn lista_completa<V>(l: Seq<V>, m: Map<u128, V>, key: spec_fn(V) -> u128) -> bool {
    &&& l.len() == m.dom().len()
    &&& forall|i: int| 0 <= i < l.len() ==> m.contains_key(key(#[trigger] l[i])) && m[key(l[i])] == l[i]
    &&& forall|i: int, j: int|
        0 <= i < l.len() && 0 <= j < l.len() && i != j ==> key(#[trigger] l[i]) != key(#[trigger] l[j])
    &&& forall|k: u128| #[trigger] m.contains_key(k) ==> exists|i: int| 0 <= i < l.len() && key(l[i]) == k
}

pub open spec fn cliente_key() -> spec_fn(ClienteView) -> u128 {
    |v: ClienteView| v.id
}

pub open spec fn produto_key() -> spec_fn(ProdutoView) -> u128 {
    |v: ProdutoView| v.id
}

pub open spec fn pedido_key() -> spec_fn(PedidoView) -> u128 {
    |v: PedidoView| v.id
}

/// Porta de persistencia de usuarios.
pub trait UserRepository {
    /// Os usuarios guardados, por identidade.
    spec fn usuarios(&self) -> Map<u128, UserView>;

    fn save(&mut self, user: &User) -> (r: Result<(), DomainError>)
        ensures
            match r {
                Ok(()) => !old(self).usuarios().contains_key(user@.id) && final(self).usuarios()
                    == old(self).usuarios().insert(user@.id, user@),
                Err(e) => e == DomainError::UserAlreadyExists && old(self).usuarios().contains_key(
                    user@.id,
                ) && final(self).usuarios() == old(self).usuarios(),
            },
    ;

    fn update(&mut self, user: &User) -> (r: Result<(), DomainError>)
        ensures
            match r {
                Ok(()) => old(self).usuarios().contains_key(user@.id) && final(self).usuarios()
                    == old(self).usuarios().insert(user@.id, user@),
                Err(e) => e == DomainError::UserNotFound && !old(self).usuarios().contains_key(
                    user@.id,
                ) && final(self).usuarios() == old(self).usuarios(),
            },
    ;

    fn delete(&mut self, id: UserId) -> (r: Result<(), DomainError>)
        ensures
            match r {
                Ok(()) => old(self).usuarios().contains_key(id.spec_uuid()) && final(self).usuarios()
                    == old(self).usuarios().remove(id.spec_uuid()),
                Err(e) => e == DomainError::UserNotFound && !old(self).usuarios().contains_key(
                    id.spec_uuid(),
                ) && final(self).usuarios() == old(self).usuarios(),
            },
    ;

    /// Algum usuario com este email, se houver.
    fn find_by_email(&self, email: &Email) -> (r: Result<Option<User>, DomainError>)
        ensures
            match r {
                Ok(Some(u)) => self.usuarios().contains_key(u@.id) && self.usuarios()[u@.id] == u@
                    && u@.email == email@,
                Ok(None) => forall|k: u128| #[trigger]
                    self.usuarios().contains_key(k) ==> self.usuarios()[k].email != email@,
                Err(_) => false,
            },
    ;

    fn find_by_id(&self, id: UserId) -> (r: Result<Option<User>, DomainError>)
        ensures
            match r {
                Ok(Some(u)) => self.usuarios().contains_key(id.spec_uuid()) && self.usuarios()[id.spec_uuid()]
                    == u@ && u@.id == id.spec_uuid(),
                Ok(None) => !self.usuarios().contains_key(id.spec_uuid()),
                Err(_) => false,
            },
    ;
}

/// Porta de persistencia de clientes.
pub trait ClienteRepository {
    /// Os clientes guardados, por identidade.
    spec fn clientes(&self) -> Map<u128, ClienteView>;

    fn save(&mut self, cliente: &Cliente) -> (r: Result<(), DomainError>)
        ensures
            match r {
                Ok(()) => !old(self).clientes().contains_key(cliente@.id) && final(self).clientes()
                    == old(self).clientes().insert(cliente@.id, cliente@),
                Err(e) => e == DomainError::ClienteAlreadyExists && old(self).clientes().contains_key(
                    cliente@.id,
                ) && final(self).clientes() == old(self).clientes(),
            },
    ;

    fn update(&mut self, cliente: &Cliente) -> (r: Result<(), DomainError>)
        ensures
            match r {
                Ok(()) => old(self).clientes().contains_key(cliente@.id) && final(self).clientes()
                    == old(self).clientes().insert(cliente@.id, cliente@),
                Err(e) => e == DomainError::ClienteNotFound && !old(self).clientes().contains_key(
                    cliente@.id,
                ) && final(self).clientes() == old(self).clientes(),
            },
    ;

    fn delete(&mut self, id: ClienteId) -> (r: Result<(), DomainError>)
        ensures
            match r {
                Ok(()) => old(self).clientes().contains_key(id.spec_uuid()) && final(self).clientes()
                    == old(self).clientes().remove(id.spec_uuid()),
                Err(e) => e == DomainError::ClienteNotFound && !old(self).clientes().contains_key(
                    id.spec_uuid(),
                ) && final(self).clientes() == old(self).clientes(),
            },
    ;

    fn find_by_id(&self, id: ClienteId) -> (r: Result<Option<Cliente>, DomainError>)
        ensures
            match r {
                Ok(Some(c)) => self.clientes().contains_key(id.spec_uuid()) && self.clientes()[id.spec_uuid()]
                    == c@ && c@.id == id.spec_uuid(),
                Ok(None) => !self.clientes().contains_key(id.spec_uuid()),
                Err(_) => false,
            },
    ;

    /// Algum cliente com este documento, se houver.
    fn find_by_documento(&self, documento: &Cpf) -> (r: Result<Option<Cliente>, DomainError>)
        ensures
            match r {
                Ok(Some(c)) => self.clientes().contains_key(c@.id) && self.clientes()[c@.id] == c@
                    && c@.documento == documento@,
                Ok(None) => forall|k: u128| #[trigger]
                    self.clientes().contains_key(k) ==> self.clientes()[k].documento != documento@,
                Err(_) => false,
            },
    ;

    fn list_all(&self) -> (r: Result<Vec<Cliente>, DomainError>)
        ensures
            r matches Ok(l) && lista_completa(views(l@), self.clientes(), cliente_key()),
    ;
}

/// Porta de persistencia de produtos.
pub trait ProdutoRepository {
    /// Os produtos guardados, por identidade.
    spec fn produtos(&self) -> Map<u128, ProdutoView>;

    fn save(&mut self, produto: &Produto) -> (r: Result<(), DomainError>)
        ensures
            match r {
                Ok(()) => !old(self).produtos().contains_key(produto@.id) && final(self).produtos()
                    == old(self).produtos().insert(produto@.id, produto@),
                Err(e) => e == DomainError::ProdutoAlreadyExists && old(self).produtos().contains_key(
                    produto@.id,
                ) && final(self).produtos() == old(self).produtos(),
            },
    ;

    fn update(&mut self, produto: &Produto) -> (r: Result<(), DomainError>)
        ensures
            match r {
                Ok(()) => old(self).produtos().contains_key(produto@.id) && final(self).produtos()
                    == old(self).produtos().insert(produto@.id, produto@),
                Err(e) => e == DomainError::ProdutoNotFound && !old(self).produtos().contains_key(
                    produto@.id,
                ) && final(self).produtos() == old(self).produtos(),
            },
    ;

    fn delete(&mut self, id: ProdutoId) -> (r: Result<(), DomainError>)
        ensures
            match r {
                Ok(()) => old(self).produtos().contains_key(id.spec_uuid()) && final(self).produtos()
                    == old(self).produtos().remove(id.spec_uuid()),
                Err(e) => e == DomainError::ProdutoNotFound && !old(self).produtos().contains_key(
                    id.spec_uuid(),
                ) && final(self).produtos() == old(self).produtos(),
            },
    ;

    fn find_by_id(&self, id: ProdutoId) -> (r: Result<Option<Produto>, DomainError>)
        ensures
            match r {
                Ok(Some(p)) => self.produtos().contains_key(id.spec_uuid()) && self.produtos()[id.spec_uuid()]
                    == p@ && p@.id == id.spec_uuid(),
                Ok(None) => !self.produtos().contains_key(id.spec_uuid()),
                Err(_) => false,
            },
    ;

    fn list_all(&self) -> (r: Result<Vec<Produto>, DomainError>)
        ensures
            r matches Ok(l) && lista_completa(views(l@), self.produtos(), produto_key()),
    ;
}

/// Porta de persistencia de pedidos. Sem `update`: um pedido registrado
/// nao muda.
pub trait PedidoRepository {
    /// Os pedidos guardados, por identidade.
    spec fn pedidos(&self) -> Map<u128, PedidoView>;

    fn save(&mut self, pedido: &Pedido) -> (r: Result<(), DomainError>)
        ensures
            match r {
                Ok(()) => !old(self).pedidos().contains_key(pedido@.id) && final(self).pedidos()
                    == old(self).pedidos().insert(pedido@.id, pedido@),
                Err(e) => e == DomainError::PedidoAlreadyExists && old(self).pedidos().contains_key(
                    pedido@.id,
                ) && final(self).pedidos() == old(self).pedidos(),
            },
    ;

    fn delete(&mut self, id: PedidoId) -> (r: Result<(), DomainError>)
        ensures
            match r {
                Ok(()) => old(self).pedidos().contains_key(id.spec_uuid()) && final(self).pedidos()
                    == old(self).pedidos().remove(id.spec_uuid()),
                Err(e) => e == DomainError::PedidoNotFound && !old(self).pedidos().contains_key(
                    id.spec_uuid(),
                ) && final(self).pedidos() == old(self).pedidos(),
            },
    ;

    fn find_by_id(&self, id: PedidoId) -> (r: Result<Option<Pedido>, DomainError>)
        ensures
            match r {
                Ok(Some(p)) => self.pedidos().contains_key(id.spec_uuid()) && self.pedidos()[id.spec_uuid()]
                    == p@ && p@.id == id.spec_uuid(),
                Ok(None) => !self.pedidos().contains_key(id.spec_uuid()),
                Err(_) => false,
            },
    ;

    fn list_all(&self) -> (r: Result<Vec<Pedido>, DomainError>)
        ensures
            r matches Ok(l) && lista_completa(views(l@), self.pedidos(), pedido_key()),
    ;
}

/// Um repositorio emprestado serve como o proprio repositorio: os casos de
/// uso podem trabalhar sobre `&mut` de um repositorio compartilhado.
impl<R: UserRepository> UserRepository for &mut R {
    open spec fn usuarios(&self) -> Map<u128, UserView> {
        (**self).usuarios()
    }

    fn save(&mut self, user: &User) -> (r: Result<(), DomainError>) {
        (**self).save(user)
    }

    fn update(&mut self, user: &User) -> (r: Result<(), DomainError>) {
        (**self).update(user)
    }

    fn delete(&mut self, id: UserId) -> (r: Result<(), DomainError>) {
        (**self).delete(id)
    }

    fn find_by_email(&self, email: &Email) -> (r: Result<Option<User>, DomainError>) {
        (**self).find_by_email(email)
    }

    fn find_by_id(&self, id: UserId) -> (r: Result<Option<User>, DomainError>) {
        (**self).find_by_id(id)
    }
}

impl<R: ClienteRepository> ClienteRepository for &mut R {
    open spec fn clientes(&self) -> Map<u128, ClienteView> {
        (**self).clientes()
    }

    fn save(&mut self, cliente: &Cliente) -> (r: Result<(), DomainError>) {
        (**self).save(cliente)
    }

    fn update(&mut self, cliente: &Cliente) -> (r: Result<(), DomainError>) {
        (**self).update(cliente)
    }

    fn delete(&mut self, id: ClienteId) -> (r: Result<(), DomainError>) {
        (**self).delete(id)
    }

    fn find_by_id(&self, id: ClienteId) -> (r: Result<Option<Cliente>, DomainError>) {
        (**self).find_by_id(id)
    }

    fn find_by_documento(&self, documento: &Cpf) -> (r: Result<Option<Cliente>, DomainError>) {
        (**self).find_by_documento(documento)
    }

    fn list_all(&self) -> (r: Result<Vec<Cliente>, DomainError>) {
        (**self).list_all()
    }
}

impl<R: ProdutoRepository> ProdutoRepository for &mut R {
    open spec fn produtos(&self) -> Map<u128, ProdutoView> {
        (**self).produtos()
    }

    fn save(&mut self, produto: &Produto) -> (r: Result<(), DomainError>) {
        (**self).save(produto)
    }

    fn update(&mut self, produto: &Produto) -> (r: Result<(), DomainError>) {
        (**self).update(produto)
    }

    fn delete(&mut self, id: ProdutoId) -> (r: Result<(), DomainError>) {
        (**self).delete(id)
    }

    fn find_by_id(&self, id: ProdutoId) -> (r: Result<Option<Produto>, DomainError>) {
        (**self).find_by_id(id)
    }

    fn list_all(&self) -> (r: Result<Vec<Produto>, DomainError>) {
        (**self).list_all()
    }
}

impl<R: PedidoRepository> PedidoRepository for &mut R {
    open spec fn pedidos(&self) -> Map<u128, PedidoView> {
        (**self).pedidos()
    }

    fn save(&mut self, pedido: &Pedido) -> (r: Result<(), DomainError>) {
        (**self).save(pedido)
    }

    fn delete(&mut self, id: PedidoId) -> (r: Result<(), DomainError>) {
        (**self).delete(id)
    }

    fn find_by_id(&self, id: PedidoId) -> (r: Result<Option<Pedido>, DomainError>) {
        (**self).find_by_id(id)
    }

    fn list_all(&self) -> (r: Result<Vec<Pedido>, DomainError>) {
        (**self).list_all()
    }
}

} // verus!
