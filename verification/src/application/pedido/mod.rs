//! Casos de uso do agregado Pedido.

pub mod delete_pedido;
pub mod get_pedido;
pub mod list_pedidos;
pub mod register_pedido;
