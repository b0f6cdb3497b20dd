//! Erros que representam violacoes das regras de negocio.
use vstd::prelude::*;

verus! {

/// Violacoes das regras de negocio. Nenhuma camada externa inventa seus
/// proprios codigos de erro de negocio: eles nascem aqui.
#[derive(Debug, Clone, Copy, PartialEq, Eq, Structural)]
pub enum DomainError {
    InvalidEmail,
    WeakPassword,
    UserAlreadyExists,
    InvalidCredentials,
    PermissionDenied,
    UserNotFound,
    InvalidNome,
    InvalidDocument,
    ClienteAlreadyExists,
    ClienteNotFound,
    InvalidId,
    ValorMonetarioInvalido,
    InvalidQuantidade,
    ProdutoNotFound,
    ProdutoAlreadyExists,
    PedidoNotFound,
    PedidoAlreadyExists,
    PedidoSemItens,
}

impl DomainError {
    /// Mensagem exibida ao usuario para cada erro.
    pub open spec fn spec_message(self) -> Seq<char> {
        match self {
            DomainError::InvalidEmail => "email invalido"@,
            DomainError::WeakPassword =>
                "senha fraca: use ao menos 8 caracteres, com maiuscula, minuscula e numero"@,
            DomainError::UserAlreadyExists => "ja existe um usuario cadastrado com este email"@,
            DomainError::InvalidCredentials => "credenciais invalidas"@,
            DomainError::PermissionDenied => "voce nao tem permissao para acessar este recurso"@,
            DomainError::UserNotFound => "usuario nao encontrado"@,
            DomainError::InvalidNome => "nome invalido: informe ao menos 2 caracteres"@,
            DomainError::InvalidDocument => "documento (CPF) invalido"@,
            DomainError::ClienteAlreadyExists =>
                "ja existe um cliente cadastrado com este documento"@,
            DomainError::ClienteNotFound => "cliente nao encontrado"@,
            DomainError::InvalidId => "identificador invalido: deve ser um UUID"@,
            DomainError::ValorMonetarioInvalido =>
                "valor monetario invalido: deve ser um numero decimal maior ou igual a zero"@,
            DomainError::InvalidQuantidade => "quantidade invalida: deve ser maior que zero"@,
            DomainError::ProdutoNotFound => "produto nao encontrado"@,
            DomainError::ProdutoAlreadyExists =>
                "ja existe um produto cadastrado com este identificador"@,
            DomainError::PedidoNotFound => "pedido nao encontrado"@,
            DomainError::PedidoAlreadyExists =>
                "ja existe um pedido cadastrado com este identificador"@,
            DomainError::PedidoSemItens => "pedido precisa ter pelo menos um item"@,
        }
    }

    pub fn message(&self) -> (m: &'static str)
        ensures
            m@ == self.spec_message(),
    {
        match self {
            DomainError::InvalidEmail => "email invalido",
            DomainError::WeakPassword =>
                "senha fraca: use ao menos 8 caracteres, com maiuscula, minuscula e numero",
            DomainError::UserAlreadyExists => "ja existe um usuario cadastrado com este email",
            DomainError::InvalidCredentials => "credenciais invalidas",
            DomainError::PermissionDenied => "voce nao tem permissao para acessar este recurso",
            DomainError::UserNotFound => "usuario nao encontrado",
            DomainError::InvalidNome => "nome invalido: informe ao menos 2 caracteres",
            DomainError::InvalidDocument => "documento (CPF) invalido",
            DomainError::ClienteAlreadyExists =>
                "ja existe um cliente cadastrado com este documento",
            DomainError::ClienteNotFound => "cliente nao encontrado",
            DomainError::InvalidId => "identificador invalido: deve ser um UUID",
            DomainError::ValorMonetarioInvalido =>
                "valor monetario invalido: deve ser um numero decimal maior ou igual a zero",
            DomainError::InvalidQuantidade => "quantidade invalida: deve ser maior que zero",
            DomainError::ProdutoNotFound => "produto nao encontrado",
            DomainError::ProdutoAlreadyExists =>
                "ja existe um produto cadastrado com este identificador",
            DomainError::PedidoNotFound => "pedido nao encontrado",
            DomainError::PedidoAlreadyExists =>
                "ja existe um pedido cadastrado com este identificador",
            DomainError::PedidoSemItens => "pedido precisa ter pelo menos um item",
        }
    }
}

} // verus!
