//! Erros da camada de aplicacao.
use vstd::prelude::*;

use crate::domain::errors::DomainError;

verus! {

/// O que um caso de uso devolve quando nao conclui: uma regra de negocio
/// violada, ou uma falha fora do dominio (por exemplo, ao emitir um token).
#[derive(Debug)]
pub enum ApplicationError {
    Domain(DomainError),
    Unexpected(String),
}

impl ApplicationError {
    /// A mensagem exibida a quem chamou.
    pub fn message(&self) -> (m: String)
        ensures
            match self {
                ApplicationError::Domain(e) => m@ == e.spec_message(),
                ApplicationError::Unexpected(s) => m@ == s@,
            },
    {
        match self {
            ApplicationError::Domain(e) => e.message().to_string(),
            ApplicationError::Unexpected(s) => s.clone(),
        }
    }
}

} // verus!
