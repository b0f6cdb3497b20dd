//! Consulta de um produto pelo id.
use vstd::prelude::*;

use crate::application::dto::{produto_saida, ProdutoOutput};
use crate::application::errors::ApplicationError;
use crate::application::produto::register_produto::RegisterProduto;
use crate::domain::errors::DomainError;
use crate::domain::produto::ProdutoView;
use crate::domain::repository::ProdutoRepository;
use crate::ids::ProdutoId;

verus! {

pub struct GetProduto<R: ProdutoRepository> {
    repository: R,
}

impl<R: ProdutoRepository> GetProduto<R> {
    pub closed spec fn produtos(&self) -> Map<u128, ProdutoView> {
        self.repository.produtos()
    }

    pub fn new(repository: R) -> (r: Self)
        ensures
            r.produtos() == repository.produtos(),
    {
        GetProduto { repository }
    }

    pub fn into_repository(self) -> (r: R)
        ensures
            r.produtos() == self.produtos(),
    {
        self.repository
    }

    pub fn execute(&self, produto_id: ProdutoId) -> (r: Result<ProdutoOutput, ApplicationError>)
        ensures
            match r {
                Ok(o) => self.produtos().contains_key(produto_id.spec_uuid()) && produto_saida(
                    o,
                    self.produtos()[produto_id.spec_uuid()],
                ),
                Err(ApplicationError::Domain(e)) => !self.produtos().contains_key(produto_id.spec_uuid())
                    && e == DomainError::ProdutoNotFound,
                Err(ApplicationError::Unexpected(_)) => false,
            },
    {
        match self.repository.find_by_id(produto_id) {
            Ok(Some(p)) => Ok(RegisterProduto::<R>::to_output(&p)),
            Ok(None) => Err(ApplicationError::Domain(DomainError::ProdutoNotFound)),
            Err(e) => Err(ApplicationError::Domain(e)),
        }
    }
}

} // verus!
