//! Dominio: value objects, agregados e as portas de persistencia.

pub mod email;
pub mod cliente;
pub mod cpf;
pub mod dinheiro;
pub mod errors;
pub mod nome;
pub mod password;
pub mod pedido;
pub mod produto;
pub mod quantidade;
pub mod repository;
pub mod role;
pub mod user;
