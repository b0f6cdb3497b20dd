//! As portas de persistencia implementadas pelo cache e pelo cache auditado,
//! com os nomes de cada agregado.
use vstd::prelude::*;

use crate::domain::cliente::{Cliente, ClienteView};
use crate::domain::cpf::Cpf;
use crate::domain::email::Email;
use crate::domain::errors::DomainError;
use crate::domain::pedido::{Pedido, PedidoView};
use crate::domain::produto::{Produto, ProdutoView};
use crate::domain::repository::{
    cliente_key, pedido_key, produto_key, ClienteRepository, PedidoRepository, ProdutoRepository,
    UserRepository,
};
use crate::domain::user::{User, UserView};
use crate::ids::{ClienteId, PedidoId, ProdutoId, UserId};
use crate::infra::audited::AuditedRepository;
use crate::infra::cache::CacheRepository;
use crate::infra::entity::key_fn;

verus! {

pub type CacheUserRepository = CacheRepository<User>;

pub type CacheClienteRepository = CacheRepository<Cliente>;

pub type CacheProdutoRepository = CacheRepository<Produto>;

pub type CachePedidoRepository = CacheRepository<Pedido>;

pub type AuditedUserRepository = AuditedRepository<User>;

pub type AuditedClienteRepository = AuditedRepository<Cliente>;

pub type AuditedProdutoRepository = AuditedRepository<Produto>;

pub type AuditedPedidoRepository = AuditedRepository<Pedido>;

impl UserRepository for CacheRepository<User> {
    open spec fn usuarios(&self) -> Map<u128, UserView> {
        self@
    }

    fn save(&mut self, x: &User) -> (r: Result<(), DomainError>) {
        CacheRepository::<User>::save(self, x)
    }

    fn update(&mut self, x: &User) -> (r: Result<(), DomainError>) {
        CacheRepository::<User>::update(self, x)
    }

    fn delete(&mut self, id: UserId) -> (r: Result<(), DomainError>) {
        CacheRepository::<User>::delete(self, id.as_uuid())
    }

    fn find_by_id(&self, id: UserId) -> (r: Result<Option<User>, DomainError>) {
        Ok(CacheRepository::<User>::find_by_id(self, id.as_uuid()))
    }

    fn find_by_email(&self, email: &Email) -> (r: Result<Option<User>, DomainError>) {
        Ok(CacheRepository::<User>::find_by_email(self, email))
    }
}

impl ClienteRepository for CacheRepository<Cliente> {
    open spec fn clientes(&self) -> Map<u128, ClienteView> {
        self@
    }

    fn save(&mut self, x: &Cliente) -> (r: Result<(), DomainError>) {
        CacheRepository::<Cliente>::save(self, x)
    }

    fn update(&mut self, x: &Cliente) -> (r: Result<(), DomainError>) {
        CacheRepository::<Cliente>::update(self, x)
    }

    fn delete(&mut self, id: ClienteId) -> (r: Result<(), DomainError>) {
        CacheRepository::<Cliente>::delete(self, id.as_uuid())
    }

    fn find_by_id(&self, id: ClienteId) -> (r: Result<Option<Cliente>, DomainError>) {
        Ok(CacheRepository::<Cliente>::find_by_id(self, id.as_uuid()))
    }

    fn find_by_documento(&self, documento: &Cpf) -> (r: Result<Option<Cliente>, DomainError>) {
        Ok(CacheRepository::<Cliente>::find_by_documento(self, documento))
    }

    fn list_all(&self) -> (r: Result<Vec<Cliente>, DomainError>) {
        let l = CacheRepository::<Cliente>::list_all(self);
        assert(key_fn::<Cliente>() =~= cliente_key());
        Ok(l)
    }
}

impl ProdutoRepository for CacheRepository<Produto> {
    open spec fn produtos(&self) -> Map<u128, ProdutoView> {
        self@
    }

    fn save(&mut self, x: &Produto) -> (r: Result<(), DomainError>) {
        CacheRepository::<Produto>::save(self, x)
    }

    fn update(&mut self, x: &Produto) -> (r: Result<(), DomainError>) {
        CacheRepository::<Produto>::update(self, x)
    }

    fn delete(&mut self, id: ProdutoId) -> (r: Result<(), DomainError>) {
        CacheRepository::<Produto>::delete(self, id.as_uuid())
    }

    fn find_by_id(&self, id: ProdutoId) -> (r: Result<Option<Produto>, DomainError>) {
        Ok(CacheRepository::<Produto>::find_by_id(self, id.as_uuid()))
    }

    fn list_all(&self) -> (r: Result<Vec<Produto>, DomainError>) {
        let l = CacheRepository::<Produto>::list_all(self);
        assert(key_fn::<Produto>() =~= produto_key());
        Ok(l)
    }
}

impl PedidoRepository for CacheRepository<Pedido> {
    open spec fn pedidos(&self) -> Map<u128, PedidoView> {
        self@
    }

    fn save(&mut self, x: &Pedido) -> (r: Result<(), DomainError>) {
        CacheRepository::<Pedido>::save(self, x)
    }

    fn delete(&mut self, id: PedidoId) -> (r: Result<(), DomainError>) {
        CacheRepository::<Pedido>::delete(self, id.as_uuid())
    }

    fn find_by_id(&self, id: PedidoId) -> (r: Result<Option<Pedido>, DomainError>) {
        Ok(CacheRepository::<Pedido>::find_by_id(self, id.as_uuid()))
    }

    fn list_all(&self) -> (r: Result<Vec<Pedido>, DomainError>) {
        let l = CacheRepository::<Pedido>::list_all(self);
        assert(key_fn::<Pedido>() =~= pedido_key());
        Ok(l)
    }
}

impl UserRepository for AuditedRepository<User> {
    open spec fn usuarios(&self) -> Map<u128, UserView> {
        self.conteudo()
    }

    fn save(&mut self, x: &User) -> (r: Result<(), DomainError>) {
        AuditedRepository::<User>::save(self, x)
    }

    fn update(&mut self, x: &User) -> (r: Result<(), DomainError>) {
        AuditedRepository::<User>::update(self, x)
    }

    fn delete(&mut self, id: UserId) -> (r: Result<(), DomainError>) {
        AuditedRepository::<User>::delete(self, id.as_uuid())
    }

    fn find_by_id(&self, id: UserId) -> (r: Result<Option<User>, DomainError>) {
        Ok(AuditedRepository::<User>::find_by_id(self, id.as_uuid()))
    }

    fn find_by_email(&self, email: &Email) -> (r: Result<Option<User>, DomainError>) {
        Ok(AuditedRepository::<User>::find_by_email(self, email))
    }
}

impl ClienteRepository for AuditedRepository<Cliente> {
    open spec fn clientes(&self) -> Map<u128, ClienteView> {
        self.conteudo()
    }

    fn save(&mut self, x: &Cliente) -> (r: Result<(), DomainError>) {
        AuditedRepository::<Cliente>::save(self, x)
    }

    fn update(&mut self, x: &Cliente) -> (r: Result<(), DomainError>) {
        AuditedRepository::<Cliente>::update(self, x)
    }

    fn delete(&mut self, id: ClienteId) -> (r: Result<(), DomainError>) {
        AuditedRepository::<Cliente>::delete(self, id.as_uuid())
    }

    fn find_by_id(&self, id: ClienteId) -> (r: Result<Option<Cliente>, DomainError>) {
        Ok(AuditedRepository::<Cliente>::find_by_id(self, id.as_uuid()))
    }

    fn find_by_documento(&self, documento: &Cpf) -> (r: Result<Option<Cliente>, DomainError>) {
        Ok(AuditedRepository::<Cliente>::find_by_documento(self, documento))
    }

    fn list_all(&self) -> (r: Result<Vec<Cliente>, DomainError>) {
        let l = AuditedRepository::<Cliente>::list_all(self);
        assert(key_fn::<Cliente>() =~= cliente_key());
        Ok(l)
    }
}

impl ProdutoRepository for AuditedRepository<Produto> {
    open spec fn produtos(&self) -> Map<u128, ProdutoView> {
        self.conteudo()
    }

    fn save(&mut self, x: &Produto) -> (r: Result<(), DomainError>) {
        AuditedRepository::<Produto>::save(self, x)
    }

    fn update(&mut self, x: &Produto) -> (r: Result<(), DomainError>) {
        AuditedRepository::<Produto>::update(self, x)
    }

    fn delete(&mut self, id: ProdutoId) -> (r: Result<(), DomainError>) {
        AuditedRepository::<Produto>::delete(self, id.as_uuid())
    }

    fn find_by_id(&self, id: ProdutoId) -> (r: Result<Option<Produto>, DomainError>) {
        Ok(AuditedRepository::<Produto>::find_by_id(self, id.as_uuid()))
    }

    fn list_all(&self) -> (r: Result<Vec<Produto>, DomainError>) {
        let l = AuditedRepository::<Produto>::list_all(self);
        assert(key_fn::<Produto>() =~= produto_key());
        Ok(l)
    }
}

impl PedidoRepository for AuditedRepository<Pedido> {
    open spec fn pedidos(&self) -> Map<u128, PedidoView> {
        self.conteudo()
    }

    fn save(&mut self, x: &Pedido) -> (r: Result<(), DomainError>) {
        AuditedRepository::<Pedido>::save(self, x)
    }

    fn delete(&mut self, id: PedidoId) -> (r: Result<(), DomainError>) {
        AuditedRepository::<Pedido>::delete(self, id.as_uuid())
    }

    fn find_by_id(&self, id: PedidoId) -> (r: Result<Option<Pedido>, DomainError>) {
        Ok(AuditedRepository::<Pedido>::find_by_id(self, id.as_uuid()))
    }

    fn list_all(&self) -> (r: Result<Vec<Pedido>, DomainError>) {
        let l = AuditedRepository::<Pedido>::list_all(self);
        assert(key_fn::<Pedido>() =~= pedido_key());
        Ok(l)
    }
}

} // verus!
