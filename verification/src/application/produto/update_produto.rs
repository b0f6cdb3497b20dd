//! Atualizacao cadastral de produto. Pedidos ja feitos nao mudam: eles
//! guardam o nome e o preco do momento da compra.
use vstd::prelude::*;

use crate::application::dto::{produto_saida, ProdutoOutput, UpdateProdutoInput};
use crate::application::errors::ApplicationError;
use crate::application::produto::register_produto::{validar_produto, RegisterProduto};
use crate::domain::dinheiro::Dinheiro;
use crate::domain::errors::DomainError;
use crate::domain::nome::Nome;
use crate::domain::produto::{Produto, ProdutoView};
use crate::domain::repository::ProdutoRepository;
use crate::ids::ProdutoId;

verus! {

pub struct UpdateProduto<R: ProdutoRepository> {
    repository: R,
}

impl<R: ProdutoRepository> UpdateProduto<R> {
    pub closed spec fn produtos(&self) -> Map<u128, ProdutoView> {
        self.repository.produtos()
    }

    pub fn new(repository: R) -> (r: Self)
        ensures
            r.produtos() == repository.produtos(),
    {
        UpdateProduto { repository }
    }

    pub fn into_repository(self) -> (r: R)
        ensures
            r.produtos() == self.produtos(),
    {
        self.repository
    }

    pub fn execute(&mut self, produto_id: ProdutoId, input: UpdateProdutoInput) -> (r: Result<
        ProdutoOutput,
        ApplicationError,
    >)
        ensures
            validar_produto(input.nome@, input.preco@) matches Err(e) ==> r matches Err(
                ApplicationError::Domain(x),
            ) && x == e,
            validar_produto(input.nome@, input.preco@) is Ok && !old(self).produtos().contains_key(
                produto_id.spec_uuid(),
            ) ==> r matches Err(ApplicationError::Domain(DomainError::ProdutoNotFound)),
            validar_produto(input.nome@, input.preco@) is Ok && old(self).produtos().contains_key(
                produto_id.spec_uuid(),
            ) ==> r is Ok,
            match r {
                Ok(out) => validar_produto(input.nome@, input.preco@) matches Ok((n, c)) && old(
                    self,
                ).produtos().contains_key(produto_id.spec_uuid()) && final(self).produtos() == old(
                    self,
                ).produtos().insert(
                    produto_id.spec_uuid(),
                    ProdutoView { id: produto_id.spec_uuid(), nome: n, preco: c },
                ) && produto_saida(out, ProdutoView { id: produto_id.spec_uuid(), nome: n, preco: c }),
                Err(ApplicationError::Domain(x)) => final(self).produtos() == old(self).produtos(),
                Err(ApplicationError::Unexpected(_)) => false,
            },
    {
        let nome = match Nome::parse(input.nome.as_str()) {
            Ok(n) => n,
            Err(e) => return Err(ApplicationError::Domain(e)),
        };
        let preco = match Dinheiro::parse_reais(input.preco.as_str()) {
            Ok(p) => p,
            Err(e) => return Err(ApplicationError::Domain(e)),
        };
        let existing_produto = match self.find_existing_produto(produto_id) {
            Ok(p) => p,
            Err(e) => return Err(e),
        };
        let updated_produto = existing_produto.with_updated_data(nome, preco);
        match self.repository.update(&updated_produto) {
            Ok(()) => {},
            Err(e) => return Err(ApplicationError::Domain(e)),
        }
        Ok(RegisterProduto::<R>::to_output(&updated_produto))
    }

    fn find_existing_produto(&self, produto_id: ProdutoId) -> (r: Result<Produto, ApplicationError>)
        ensures
            match r {
                Ok(p) => self.produtos().contains_key(produto_id.spec_uuid()) && p@ == self.produtos()[produto_id.spec_uuid()]
                    && p@.id == produto_id.spec_uuid(),
                Err(e) => !self.produtos().contains_key(produto_id.spec_uuid()) && e matches ApplicationError::Domain(
                    DomainError::ProdutoNotFound,
                ),
            },
    {
        match self.repository.find_by_id(produto_id) {
            Ok(Some(p)) => Ok(p),
            Ok(None) => Err(ApplicationError::Domain(DomainError::ProdutoNotFound)),
            Err(e) => Err(ApplicationError::Domain(e)),
        }
    }
}

} // verus!
