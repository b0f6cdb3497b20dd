//! Cadastro de usuarios, clientes, produtos e pedidos com trilha de auditoria
//! reidratavel: regras de dominio, repositorios em memoria, casos de uso e a
//! reconstrucao do estado a partir do historico de eventos.

pub mod application;
pub mod domain;
pub mod ids;
pub mod infra;
pub mod presentation;
pub mod text;
