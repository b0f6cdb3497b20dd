//! Cadastro de produto.
use vstd::prelude::*;

use crate::application::dto::{produto_saida, ProdutoOutput, RegisterProdutoInput};
use crate::application::errors::ApplicationError;
use crate::domain::dinheiro::{spec_parse_reais, Dinheiro};
use crate::domain::errors::DomainError;
use crate::domain::nome::{spec_parse_nome, Nome};
use crate::domain::produto::{Produto, ProdutoView};
use crate::domain::repository::ProdutoRepository;
use crate::ids::{uuid_to_string, uuid_v4, ProdutoId};

verus! {

/// Nome e preco (em centavos) validados, nessa ordem, ou o primeiro erro.
pub open spec fn validar_produto(nome: Seq<char>, preco: Seq<char>) -> Result<(Seq<char>, int), DomainError> {
    match spec_parse_nome(nome) {
        Err(e) => Err(e),
        Ok(n) => match spec_parse_reais(preco) {
            Err(e) => Err(e),
            Ok(c) => Ok((n, c)),
        },
    }
}

/// O que o cadastro de um produto com a identidade `k` faz: com dados
/// invalidos, o primeiro erro; com a identidade ja em uso,
/// `ProdutoAlreadyExists`; senao guarda o produto e devolve seus dados. So o
/// sucesso muda os produtos guardados.
pub open spec fn cadastro_de_produto(
    antes: Map<u128, ProdutoView>,
    depois: Map<u128, ProdutoView>,
    nome: Seq<char>,
    preco: Seq<char>,
    k: u128,
    r: Result<ProdutoOutput, ApplicationError>,
) -> bool {
    match validar_produto(nome, preco) {
        Err(e) => depois == antes && (r matches Err(ApplicationError::Domain(x)) && x == e),
        Ok((n, c)) => if antes.contains_key(k) {
            depois == antes && r matches Err(ApplicationError::Domain(DomainError::ProdutoAlreadyExists))
        } else {
            depois == antes.insert(k, ProdutoView { id: k, nome: n, preco: c }) && (r matches Ok(out)
                && produto_saida(out, ProdutoView { id: k, nome: n, preco: c }))
        },
    }
}

pub struct RegisterProduto<R: ProdutoRepository> {
    repository: R,
}

impl<R: ProdutoRepository> RegisterProduto<R> {
    pub closed spec fn produtos(&self) -> Map<u128, ProdutoView> {
        self.repository.produtos()
    }

    pub fn new(repository: R) -> (r: Self)
        ensures
            r.produtos() == repository.produtos(),
    {
        RegisterProduto { repository }
    }

    pub fn into_repository(self) -> (r: R)
        ensures
            r.produtos() == self.produtos(),
    {
        self.repository
    }

    /// Cadastra um produto com uma identidade nova, aleatoria (UUID v4). So
    /// falha por identidade repetida se o sorteio cair numa ja usada.
    pub fn execute(&mut self, input: RegisterProdutoInput) -> (r: Result<ProdutoOutput, ApplicationError>)
        ensures
            exists|k: u128|
                uuid_v4(k) && cadastro_de_produto(
                    old(self).produtos(),
                    final(self).produtos(),
                    input.nome@,
                    input.preco@,
                    k,
                    r,
                ),
            validar_produto(input.nome@, input.preco@) is Ok && old(self).produtos().is_empty() ==> r is Ok,
    {
        let id = ProdutoId::new();
        let r = self.execute_com_id(input, id);
        assert(uuid_v4(id.spec_uuid()));
        r
    }

    /// O cadastro com a identidade `produto_id` ja sorteada.
    pub fn execute_com_id(&mut self, input: RegisterProdutoInput, produto_id: ProdutoId) -> (r: Result<
        ProdutoOutput,
        ApplicationError,
    >)
        ensures
            cadastro_de_produto(
                old(self).produtos(),
                final(self).produtos(),
                input.nome@,
                input.preco@,
                produto_id.spec_uuid(),
                r,
            ),
    {
        let nome = match Nome::parse(input.nome.as_str()) {
            Ok(n) => n,
            Err(e) => return Err(ApplicationError::Domain(e)),
        };
        let preco = match Dinheiro::parse_reais(input.preco.as_str()) {
            Ok(p) => p,
            Err(e) => return Err(ApplicationError::Domain(e)),
        };
        let produto = Produto::reconstitute(produto_id, nome, preco);
        match self.repository.save(&produto) {
            Ok(()) => {},
            Err(e) => return Err(ApplicationError::Domain(e)),
        }
        Ok(Self::to_output(&produto))
    }

    /// Os dados do produto em campos primitivos, com o preco em reais.
    pub fn to_output(produto: &Produto) -> (o: ProdutoOutput)
        ensures
            produto_saida(o, produto@),
    {
        ProdutoOutput {
            produto_id: uuid_to_string(produto.id().as_uuid()),
            nome: produto.nome().as_str().to_string(),
            preco: produto.preco().as_reais_str(),
        }
    }
}

} // verus!
