//! Atualizacao cadastral de cliente.
use vstd::prelude::*;

use crate::application::cliente::register_cliente::{
    documento_em_uso, documentos_unicos, validar_cliente, RegisterCliente,
};
use crate::application::dto::{cliente_saida, ClienteOutput, UpdateClienteInput};
use crate::application::errors::ApplicationError;
use crate::domain::cliente::{Cliente, ClienteView};
use crate::domain::cpf::Cpf;
use crate::domain::email::Email;
use crate::domain::errors::DomainError;
use crate::domain::nome::Nome;
use crate::domain::repository::ClienteRepository;
use crate::ids::ClienteId;

verus! {

/// Outro cliente (que nao `id`) tem este documento.
pub open spec fn documento_de_outro(m: Map<u128, ClienteView>, d: Seq<char>, id: u128) -> bool {
    exists|k: u128| #[trigger] m.contains_key(k) && k != id && m[k].documento == d
}

pub struct UpdateCliente<R: ClienteRepository> {
    repository: R,
}

impl<R: ClienteRepository> UpdateCliente<R> {
    pub closed spec fn clientes(&self) -> Map<u128, ClienteView> {
        self.repository.clientes()
    }

    pub fn new(repository: R) -> (r: Self)
        ensures
            r.clientes() == repository.clientes(),
    {
        UpdateCliente { repository }
    }

    pub fn into_repository(self) -> (r: R)
        ensures
            r.clientes() == self.clientes(),
    {
        self.repository
    }

    /// Troca nome, documento e email de um cliente existente; o documento
    /// novo nao pode ser de outro cliente.
    pub fn execute(&mut self, cliente_id: ClienteId, input: UpdateClienteInput) -> (r: Result<
        ClienteOutput,
        ApplicationError,
    >)
        ensures
            validar_cliente(input.nome@, input.documento@, input.email@) matches Err(e) ==> r matches Err(
                ApplicationError::Domain(x),
            ) && x == e,
            validar_cliente(input.nome@, input.documento@, input.email@) is Ok && !old(self).clientes().contains_key(
                cliente_id.spec_uuid(),
            ) ==> r matches Err(ApplicationError::Domain(DomainError::ClienteNotFound)),
            validar_cliente(input.nome@, input.documento@, input.email@) matches Ok((n, d, m)) && old(
                self,
            ).clientes().contains_key(cliente_id.spec_uuid()) && !documento_de_outro(
                old(self).clientes(),
                d,
                cliente_id.spec_uuid(),
            ) ==> r is Ok,
            validar_cliente(input.nome@, input.documento@, input.email@) matches Ok((n, d, m)) && old(
                self,
            ).clientes().contains_key(cliente_id.spec_uuid()) && documento_de_outro(
                old(self).clientes(),
                d,
                cliente_id.spec_uuid(),
            ) && old(self).clientes()[cliente_id.spec_uuid()].documento != d ==> r matches Err(
                ApplicationError::Domain(DomainError::ClienteAlreadyExists),
            ),
            match r {
                Ok(out) => validar_cliente(input.nome@, input.documento@, input.email@) matches Ok(
                    (n, d, m),
                ) && old(self).clientes().contains_key(cliente_id.spec_uuid()) && final(self).clientes()
                    == old(self).clientes().insert(
                    cliente_id.spec_uuid(),
                    ClienteView { id: cliente_id.spec_uuid(), nome: n, documento: d, email: m },
                ) && cliente_saida(
                    out,
                    ClienteView { id: cliente_id.spec_uuid(), nome: n, documento: d, email: m },
                ),
                Err(ApplicationError::Domain(x)) => final(self).clientes() == old(self).clientes(),
                Err(ApplicationError::Unexpected(_)) => false,
            },
            documentos_unicos(old(self).clientes()) ==> documentos_unicos(final(self).clientes()),
    {
        let nome = match Nome::parse(input.nome.as_str()) {
            Ok(n) => n,
            Err(e) => return Err(ApplicationError::Domain(e)),
        };
        let documento = match Cpf::parse(input.documento.as_str()) {
            Ok(d) => d,
            Err(e) => return Err(ApplicationError::Domain(e)),
        };
        let email = match Email::parse(input.email.as_str()) {
            Ok(m) => m,
            Err(e) => return Err(ApplicationError::Domain(e)),
        };
        let existing_cliente = match self.find_existing_cliente(cliente_id) {
            Ok(c) => c,
            Err(e) => return Err(e),
        };
        match self.ensure_documento_is_available_for(&documento, cliente_id) {
            Ok(()) => {},
            Err(e) => return Err(e),
        }
        let updated_cliente = existing_cliente.with_updated_data(nome, documento, email);
        match self.repository.update(&updated_cliente) {
            Ok(()) => {},
            Err(e) => return Err(ApplicationError::Domain(e)),
        }
        Ok(RegisterCliente::<R>::to_output(&updated_cliente))
    }

    fn find_existing_cliente(&self, cliente_id: ClienteId) -> (r: Result<Cliente, ApplicationError>)
        ensures
            match r {
                Ok(c) => self.clientes().contains_key(cliente_id.spec_uuid()) && c@ == self.clientes()[cliente_id.spec_uuid()]
                    && c@.id == cliente_id.spec_uuid(),
                Err(e) => !self.clientes().contains_key(cliente_id.spec_uuid()) && e matches ApplicationError::Domain(
                    DomainError::ClienteNotFound,
                ),
            },
    {
        match self.repository.find_by_id(cliente_id) {
            Ok(Some(c)) => Ok(c),
            Ok(None) => Err(ApplicationError::Domain(DomainError::ClienteNotFound)),
            Err(e) => Err(ApplicationError::Domain(e)),
        }
    }

    /// Recusa um documento que pertence a outro cliente.
    fn ensure_documento_is_available_for(&self, documento: &Cpf, cliente_id: ClienteId) -> (r: Result<
        (),
        ApplicationError,
    >)
        ensures
            !documento_de_outro(self.clientes(), documento@, cliente_id.spec_uuid()) ==> r is Ok,
            self.clientes().contains_key(cliente_id.spec_uuid()) && documento_de_outro(
                self.clientes(),
                documento@,
                cliente_id.spec_uuid(),
            ) && self.clientes()[cliente_id.spec_uuid()].documento != documento@ ==> r is Err,
            r matches Err(e) ==> e matches ApplicationError::Domain(DomainError::ClienteAlreadyExists),
            r is Ok ==> !documento_em_uso(self.clientes(), documento@) || (self.clientes().contains_key(
                cliente_id.spec_uuid(),
            ) && self.clientes()[cliente_id.spec_uuid()].documento == documento@),
    {
        match self.repository.find_by_documento(documento) {
            Ok(Some(c)) => {
                let belongs_to_someone_else = c.id().as_uuid() != cliente_id.as_uuid();
                if belongs_to_someone_else {
                    assert(self.clientes().contains_key(c@.id));
                    return Err(ApplicationError::Domain(DomainError::ClienteAlreadyExists));
                }
                Ok(())
            },
            Ok(None) => Ok(()),
            Err(e) => Err(ApplicationError::Domain(e)),
        }
    }
}

} // verus!
