//! DTOs de entrada e saida dos casos de uso, em campos primitivos.
use vstd::prelude::*;

use crate::domain::cliente::ClienteView;
use crate::domain::dinheiro::reais_text;
use crate::domain::pedido::{ItemPedidoView, PedidoView};
use crate::domain::produto::ProdutoView;
use crate::domain::user::UserView;
use crate::ids::uuid_text;

verus! {

// ---------------------------------------------------------------------
// Usuario
// ---------------------------------------------------------------------

#[derive(Debug)]
pub struct RegisterUserInput {
    pub email: String,
    pub password: String,
}

#[derive(Debug)]
pub struct RegisterUserOutput {
    pub user_id: String,
    pub email: String,
    pub role: String,
}

#[derive(Debug)]
pub struct AuthenticateUserInput {
    pub email: String,
    pub password: String,
}

#[derive(Debug)]
pub struct AuthenticateUserOutput {
    pub access_token: String,
}

/// Saida de `GET /me`: os dados atuais do usuario do token.
#[derive(Debug)]
pub struct CurrentUserOutput {
    pub user_id: String,
    pub email: String,
    pub role: String,
}

/// So o email e editavel; o id vem da rota.
#[derive(Debug)]
pub struct UpdateUserInput {
    pub email: String,
}

#[derive(Debug)]
pub struct UpdateUserOutput {
    pub user_id: String,
    pub email: String,
    pub role: String,
}

/// Os tres campos de saida de um usuario descrevem `v`.
pub open spec fn usuario_saida(user_id: String, email: String, role: String, v: UserView) -> bool {
    &&& user_id@ == uuid_text(v.id)
    &&& email@ == v.email
    &&& role@ == v.role.spec_as_str()
}

// ---------------------------------------------------------------------
// Cliente
// ---------------------------------------------------------------------

#[derive(Debug)]
pub struct RegisterClienteInput {
    pub nome: String,
    pub documento: String,
    pub email: String,
}

#[derive(Debug)]
pub struct UpdateClienteInput {
    pub nome: String,
    pub documento: String,
    pub email: String,
}

#[derive(Debug)]
pub struct ClienteOutput {
    pub cliente_id: String,
    pub nome: String,
    pub documento: String,
    pub email: String,
}

#[derive(Debug)]
pub struct ListClientesOutput {
    pub clientes: Vec<ClienteOutput>,
}

/// `o` descreve o cliente `v`.
pub open spec fn cliente_saida(o: ClienteOutput, v: ClienteView) -> bool {
    &&& o.cliente_id@ == uuid_text(v.id)
    &&& o.nome@ == v.nome
    &&& o.documento@ == v.documento
    &&& o.email@ == v.email
}

// ---------------------------------------------------------------------
// Produto
// ---------------------------------------------------------------------

/// `preco` chega como texto em reais (ex.: "19.90"), nunca como numero de
/// ponto flutuante.
#[derive(Debug)]
pub struct RegisterProdutoInput {
    pub nome: String,
    pub preco: String,
}

#[derive(Debug)]
pub struct UpdateProdutoInput {
    pub nome: String,
    pub preco: String,
}

#[derive(Debug)]
pub struct ProdutoOutput {
    pub produto_id: String,
    pub nome: String,
    pub preco: String,
}

#[derive(Debug)]
pub struct ListProdutosOutput {
    pub produtos: Vec<ProdutoOutput>,
}

/// `o` descreve o produto `v`, com o preco em reais.
pub open spec fn produto_saida(o: ProdutoOutput, v: ProdutoView) -> bool {
    &&& o.produto_id@ == uuid_text(v.id)
    &&& o.nome@ == v.nome
    &&& o.preco@ == reais_text(v.preco as nat)
}

// ---------------------------------------------------------------------
// Pedido
// ---------------------------------------------------------------------

#[derive(Debug)]
pub struct ItemPedidoInput {
    pub produto_id: String,
    pub quantidade: u32,
}

#[derive(Debug)]
pub struct RegisterPedidoInput {
    pub cliente_id: String,
    pub itens: Vec<ItemPedidoInput>,
}

/// `valor_unitario` e `valor_total` sao os do momento do pedido, nunca o
/// preco atual do produto.
#[derive(Debug)]
pub struct ItemPedidoOutput {
    pub produto_id: String,
    pub nome_produto: String,
    pub quantidade: u32,
    pub valor_unitario: String,
    pub valor_total: String,
}

#[derive(Debug)]
pub struct PedidoOutput {
    pub pedido_id: String,
    pub cliente_id: String,
    pub itens: Vec<ItemPedidoOutput>,
    pub valor_total: String,
}

#[derive(Debug)]
pub struct ListPedidosOutput {
    pub pedidos: Vec<PedidoOutput>,
}

/// `o` descreve o item `v`, com os valores em reais.
pub open spec fn item_saida(o: ItemPedidoOutput, v: ItemPedidoView) -> bool {
    &&& o.produto_id@ == uuid_text(v.produto_id)
    &&& o.nome_produto@ == v.nome_produto
    &&& o.quantidade == v.quantidade
    &&& o.valor_unitario@ == reais_text(v.valor_unitario as nat)
    &&& o.valor_total@ == reais_text(v.valor_total as nat)
}

/// `o` descreve o pedido `v`, item a item e na mesma ordem.
pub open spec fn pedido_saida(o: PedidoOutput, v: PedidoView) -> bool {
    &&& o.pedido_id@ == uuid_text(v.id)
    &&& o.cliente_id@ == uuid_text(v.cliente_id)
    &&& o.valor_total@ == reais_text(v.valor_total as nat)
    &&& o.itens@.len() == v.itens.len()
    &&& forall|i: int| 0 <= i < v.itens.len() ==> item_saida(#[trigger] o.itens@[i], v.itens[i])
}

} // verus!
