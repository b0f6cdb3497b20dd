//! Leitura do segmento `:id` de uma rota.
use vstd::prelude::*;

use crate::application::errors::ApplicationError;
use crate::domain::errors::DomainError;
use crate::ids::{parse_uuid, uuid_parse};
use crate::presentation::error_response::ApiError;

verus! {

/// O UUID escrito na rota, ou 400 (`InvalidId`) se o formato for invalido.
pub fn parse_uuid_path(raw: &str) -> (r: Result<u128, ApiError>)
    ensures
        match uuid_parse(raw@) {
            Some(u) => r matches Ok(x) && x == u,
            None => r matches Err(ApiError(ApplicationError::Domain(DomainError::InvalidId))),
        },
{
    match parse_uuid(raw) {
        Some(u) => Ok(u),
        None => Err(ApiError::from(ApplicationError::Domain(DomainError::InvalidId))),
    }
}

} // verus!
