//! Listagem de produtos.
use vstd::prelude::*;

use crate::application::dto::{produto_saida, ListProdutosOutput, ProdutoOutput};
use crate::application::errors::ApplicationError;
use crate::application::produto::register_produto::RegisterProduto;
use crate::domain::produto::ProdutoView;
use crate::domain::repository::{lista_completa, produto_key, views, ProdutoRepository};

verus! {

pub struct ListProdutos<R: ProdutoRepository> {
    repository: R,
}

impl<R: ProdutoRepository> ListProdutos<R> {
    pub closed spec fn produtos(&self) -> Map<u128, ProdutoView> {
        self.repository.produtos()
    }

    pub fn new(repository: R) -> (r: Self)
        ensures
            r.produtos() == repository.produtos(),
    {
        ListProdutos { repository }
    }

    pub fn into_repository(self) -> (r: R)
        ensures
            r.produtos() == self.produtos(),
    {
        self.repository
    }

    /// Cada produto guardado, uma vez, em alguma ordem.
    pub fn execute(&self) -> (r: Result<ListProdutosOutput, ApplicationError>)
        ensures
            r matches Ok(o) && exists|l: Seq<ProdutoView>|
                lista_completa(l, self.produtos(), produto_key()) && o.produtos@.len() == l.len()
                    && forall|i: int| 0 <= i < l.len() ==> produto_saida(#[trigger] o.produtos@[i], l[i]),
    {
        let produtos = match self.repository.list_all() {
            Ok(l) => l,
            Err(e) => return Err(ApplicationError::Domain(e)),
        };
        let ghost l = views(produtos@);
        assert(lista_completa(l, self.produtos(), produto_key()));
        let mut output: Vec<ProdutoOutput> = Vec::new();
        let n = produtos.len();
        let mut i: usize = 0;
        while i < n
            invariant
                n == produtos@.len(),
                l == views(produtos@),
                lista_completa(l, self.produtos(), produto_key()),
                i <= n,
                output@.len() == i,
                forall|j: int| 0 <= j < i ==> produto_saida(#[trigger] output@[j], l[j]),
            decreases n - i,
        {
            output.push(RegisterProduto::<R>::to_output(&produtos[i]));
            i = i + 1;
        }
        assert(lista_completa(l, self.produtos(), produto_key()) && output@.len() == l.len());
        Ok(ListProdutosOutput { produtos: output })
    }
}

} // verus!
