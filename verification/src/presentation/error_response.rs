//! Traducao de erros de aplicacao e de dominio para respostas HTTP.
use vstd::prelude::*;

use crate::application::errors::ApplicationError;
use crate::domain::errors::DomainError;

verus! {

/// Corpo de erro devolvido pela API.
#[derive(Debug)]
pub struct ErrorBody {
    pub error: String,
}

/// O status HTTP de cada violacao de regra de negocio: entrada invalida e
/// 400, conflito de cadastro e 409, credencial invalida e 401, falta de
/// permissao e 403, recurso inexistente e 404.
pub open spec fn http_status(e: DomainError) -> u16 {
    match e {
        DomainError::InvalidEmail | DomainError::WeakPassword | DomainError::InvalidNome
        | DomainError::InvalidDocument | DomainError::InvalidId | DomainError::ValorMonetarioInvalido
        | DomainError::InvalidQuantidade | DomainError::PedidoSemItens => 400,
        DomainError::UserAlreadyExists | DomainError::ClienteAlreadyExists
        | DomainError::ProdutoAlreadyExists | DomainError::PedidoAlreadyExists => 409,
        DomainError::InvalidCredentials => 401,
        DomainError::PermissionDenied => 403,
        DomainError::UserNotFound | DomainError::ClienteNotFound | DomainError::ProdutoNotFound
        | DomainError::PedidoNotFound => 404,
    }
}

/// Um erro de aplicacao a caminho de virar resposta HTTP.
#[derive(Debug)]
pub struct ApiError(pub ApplicationError);

impl From<ApplicationError> for ApiError {
    fn from(error: ApplicationError) -> (r: ApiError) {
        ApiError(error)
    }
}

impl vstd::std_specs::convert::FromSpecImpl<ApplicationError> for ApiError {
    open spec fn obeys_from_spec() -> bool {
        true
    }

    open spec fn from_spec(error: ApplicationError) -> ApiError {
        ApiError(error)
    }
}

impl ApiError {
    /// Status e mensagem da resposta; uma falha fora do dominio e 500.
    pub fn status_and_message(&self) -> (r: (u16, String))
        ensures
            match self.0 {
                ApplicationError::Domain(e) => r.0 == http_status(e) && r.1@ == e.spec_message(),
                ApplicationError::Unexpected(m) => r.0 == 500 && r.1@ == m@,
            },
    {
        match &self.0 {
            ApplicationError::Domain(domain_error) => Self::status_for_domain_error(domain_error),
            ApplicationError::Unexpected(message) => (500, message.clone()),
        }
    }

    pub fn status_for_domain_error(domain_error: &DomainError) -> (r: (u16, String))
        ensures
            r.0 == http_status(*domain_error),
            r.1@ == domain_error.spec_message(),
    {
        let status: u16 = match domain_error {
            DomainError::InvalidEmail | DomainError::WeakPassword | DomainError::InvalidNome
            | DomainError::InvalidDocument | DomainError::InvalidId
            | DomainError::ValorMonetarioInvalido | DomainError::InvalidQuantidade
            | DomainError::PedidoSemItens => 400,
            DomainError::UserAlreadyExists | DomainError::ClienteAlreadyExists
            | DomainError::ProdutoAlreadyExists | DomainError::PedidoAlreadyExists => 409,
            DomainError::InvalidCredentials => 401,
            DomainError::PermissionDenied => 403,
            DomainError::UserNotFound | DomainError::ClienteNotFound | DomainError::ProdutoNotFound
            | DomainError::PedidoNotFound => 404,
        };
        (status, domain_error.message().to_string())
    }

    /// O corpo `{"error": mensagem}` da resposta.
    pub fn body(&self) -> (b: ErrorBody)
        ensures
            match self.0 {
                ApplicationError::Domain(e) => b.error@ == e.spec_message(),
                ApplicationError::Unexpected(m) => b.error@ == m@,
            },
    {
        let (_, message) = self.status_and_message();
        ErrorBody { error: message }
    }
}

} // verus!
