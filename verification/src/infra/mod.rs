//! Infraestrutura: repositorios em memoria, o decorador de auditoria e a
//! reidratacao a partir do historico.

pub mod audit_log_replayer;
pub mod audited;
pub mod bcrypt_hasher;
pub mod cache;
pub mod entity;
pub mod repositories;
