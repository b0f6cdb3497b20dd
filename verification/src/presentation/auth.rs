//! Autenticacao e autorizacao das rotas protegidas.
use vstd::prelude::*;

use crate::application::errors::ApplicationError;
use crate::domain::errors::DomainError;
use crate::domain::role::Role;
use crate::presentation::error_response::ApiError;

verus! {

/// O token de um cabecalho `Authorization: Bearer <token>`; sem o prefixo,
/// ou com o token vazio, a credencial e invalida (401).
pub fn bearer_token(header: &str) -> (r: Result<String, ApiError>)
    ensures
        match r {
            Ok(t) => header@.len() > 7 && header@.subrange(0, 7) == "Bearer "@ && t@ == header@.subrange(
                7,
                header@.len() as int,
            ),
            Err(e) => !(header@.len() > 7 && header@.subrange(0, 7) == "Bearer "@) && e == ApiError(
                ApplicationError::Domain(DomainError::InvalidCredentials),
            ),
        },
{
    proof {
        reveal_strlit("Bearer ");
    }
    let n = header.unicode_len();
    let prefixo = "Bearer ";
    if n <= 7 || !crate::text::same_text(header.substring_char(0, 7), prefixo) {
        return Err(ApiError(ApplicationError::Domain(DomainError::InvalidCredentials)));
    }
    let token = header.substring_char(7, n);
    Ok(token.to_string())
}

/// So administradores passam (os demais recebem 403).
pub fn ensure_admin(role: Role) -> (r: Result<(), ApiError>)
    ensures
        match r {
            Ok(()) => role == Role::Admin,
            Err(e) => role != Role::Admin && e == ApiError(
                ApplicationError::Domain(DomainError::PermissionDenied),
            ),
        },
{
    match role {
        Role::Admin => Ok(()),
        Role::User => Err(ApiError(ApplicationError::Domain(DomainError::PermissionDenied))),
    }
}

} // verus!
