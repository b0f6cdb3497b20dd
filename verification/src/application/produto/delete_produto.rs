//! Remocao de produto. Pedidos ja feitos nao dependem do cadastro: cada item
//! guarda uma copia do nome e do preco.
use vstd::prelude::*;

use crate::application::errors::ApplicationError;
use crate::domain::errors::DomainError;
use crate::domain::produto::ProdutoView;
use crate::domain::repository::ProdutoRepository;
use crate::ids::ProdutoId;

verus! {

pub struct DeleteProduto<R: ProdutoRepository> {
    repository: R,
}

impl<R: ProdutoRepository> DeleteProduto<R> {
    pub closed spec fn produtos(&self) -> Map<u128, ProdutoView> {
        self.repository.produtos()
    }

    pub fn new(repository: R) -> (r: Self)
        ensures
            r.produtos() == repository.produtos(),
    {
        DeleteProduto { repository }
    }

    pub fn into_repository(self) -> (r: R)
        ensures
            r.produtos() == self.produtos(),
    {
        self.repository
    }

    pub fn execute(&mut self, produto_id: ProdutoId) -> (r: Result<(), ApplicationError>)
        ensures
            match r {
                Ok(()) => old(self).produtos().contains_key(produto_id.spec_uuid()) && final(self).produtos()
                    == old(self).produtos().remove(produto_id.spec_uuid()),
                Err(ApplicationError::Domain(e)) => !old(self).produtos().contains_key(
                    produto_id.spec_uuid(),
                ) && e == DomainError::ProdutoNotFound && final(self).produtos() == old(self).produtos(),
                Err(ApplicationError::Unexpected(_)) => false,
            },
    {
        match self.ensure_produto_exists(produto_id) {
            Ok(()) => {},
            Err(e) => return Err(e),
        }
        match self.repository.delete(produto_id) {
            Ok(()) => Ok(()),
            Err(e) => Err(ApplicationError::Domain(e)),
        }
    }

    fn ensure_produto_exists(&self, produto_id: ProdutoId) -> (r: Result<(), ApplicationError>)
        ensures
            match r {
                Ok(()) => self.produtos().contains_key(produto_id.spec_uuid()),
                Err(e) => !self.produtos().contains_key(produto_id.spec_uuid()) && e matches ApplicationError::Domain(
                    DomainError::ProdutoNotFound,
                ),
            },
    {
        match self.repository.find_by_id(produto_id) {
            Ok(Some(_)) => Ok(()),
            Ok(None) => Err(ApplicationError::Domain(DomainError::ProdutoNotFound)),
            Err(e) => Err(ApplicationError::Domain(e)),
        }
    }
}

} // verus!
