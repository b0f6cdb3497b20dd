//! Agregado `Produto`.
use vstd::prelude::*;

use crate::domain::dinheiro::Dinheiro;
use crate::domain::nome::{nome_valido, Nome};
use crate::ids::ProdutoId;

verus! {

pub struct Produto {
    id: ProdutoId,
    nome: Nome,
    preco: Dinheiro,
}

pub struct ProdutoView {
    pub id: u128,
    pub nome: Seq<char>,
    pub preco: int,
}

pub open spec fn produto_wf(v: ProdutoView) -> bool {
    nome_valido(v.nome) && 0 <= v.preco <= i64::MAX
}

impl View for Produto {
    type V = ProdutoView;

    closed spec fn view(&self) -> ProdutoView {
        ProdutoView { id: self.id.spec_uuid(), nome: self.nome@, preco: self.preco.spec_centavos() }
    }
}

impl Produto {
    pub fn register(nome: Nome, preco: Dinheiro) -> (p: Produto)
        ensures
            p@.nome == nome@,
            p@.preco == preco.spec_centavos(),
    {
        Produto { id: ProdutoId::new(), nome, preco }
    }

    pub fn reconstitute(id: ProdutoId, nome: Nome, preco: Dinheiro) -> (p: Produto)
        ensures
            p@ == (ProdutoView { id: id.spec_uuid(), nome: nome@, preco: preco.spec_centavos() }),
    {
        Produto { id, nome, preco }
    }

    pub fn with_updated_data(self, nome: Nome, preco: Dinheiro) -> (p: Produto)
        ensures
            p@ == (ProdutoView { id: self@.id, nome: nome@, preco: preco.spec_centavos() }),
    {
        Produto { id: self.id, nome, preco }
    }

    pub fn id(&self) -> (id: ProdutoId)
        ensures
            id.spec_uuid() == self@.id,
    {
        self.id
    }

    pub fn nome(&self) -> (n: &Nome)
        ensures
            n@ == self@.nome,
    {
        &self.nome
    }

    pub fn preco(&self) -> (d: Dinheiro)
        ensures
            d.spec_centavos() == self@.preco,
    {
        self.preco
    }

    pub fn check_wf(&self)
        ensures
            produto_wf(self@),
    {
        self.nome.as_str();
        self.preco.as_centavos();
    }

    pub fn duplicate(&self) -> (p: Produto)
        ensures
            p@ == self@,
    {
        Produto { id: self.id, nome: self.nome.duplicate(), preco: self.preco }
    }
}

} // verus!
