//! Casos de uso do agregado Cliente.

pub mod delete_cliente;
pub mod get_cliente;
pub mod list_clientes;
pub mod register_cliente;
pub mod update_cliente;
