//! Casos de uso do agregado Produto.

pub mod delete_produto;
pub mod get_produto;
pub mod list_produtos;
pub mod register_produto;
pub mod update_produto;
