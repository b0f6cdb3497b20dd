//! Aplicacao: trilha de auditoria, DTOs, erros e os casos de uso de cada
//! agregado.

pub mod audit_logger;
pub mod cliente;
pub mod dto;
pub mod errors;
pub mod pedido;
pub mod produto;
pub mod token_service;
pub mod usuario;
