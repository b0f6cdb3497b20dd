//! Cadastro de cliente.
use vstd::prelude::*;

use crate::application::dto::{cliente_saida, ClienteOutput, RegisterClienteInput};
use crate::application::errors::ApplicationError;
use crate::domain::cliente::{Cliente, ClienteView};
use crate::domain::cpf::{spec_parse_cpf, Cpf};
use crate::domain::email::{spec_parse_email, Email};
use crate::domain::errors::DomainError;
use crate::domain::nome::{spec_parse_nome, Nome};
use crate::domain::repository::ClienteRepository;
use crate::ids::{uuid_to_string, uuid_v4, ClienteId};

verus! {

/// Os dados de um cliente validados na ordem nome, documento, email, ou o
/// primeiro erro.
pub open spec fn validar_cliente(nome: Seq<char>, documento: Seq<char>, email: Seq<char>) -> Result<
    (Seq<char>, Seq<char>, Seq<char>),
    DomainError,
> {
    match spec_parse_nome(nome) {
        Err(e) => Err(e),
        Ok(n) => match spec_parse_cpf(documento) {
            Err(e) => Err(e),
            Ok(d) => match spec_parse_email(email) {
                Err(e) => Err(e),
                Ok(m) => Ok((n, d, m)),
            },
        },
    }
}

/// Algum cliente guardado tem este documento.
pub open spec fn documento_em_uso(m: Map<u128, ClienteView>, d: Seq<char>) -> bool {
    exists|k: u128| #[trigger] m.contains_key(k) && m[k].documento == d
}

/// Nenhum documento pertence a dois clientes.
pub open spec fn documentos_unicos(m: Map<u128, ClienteView>) -> bool {
    forall|a: u128, b: u128|
        #[trigger] m.contains_key(a) && #[trigger] m.contains_key(b) && a != b ==> m[a].documento
            != m[b].documento
}

/// O que o cadastro de um cliente com a identidade `k` faz: com dados
/// invalidos, o primeiro erro; com o documento ou a identidade ja em uso,
/// `ClienteAlreadyExists`; senao guarda o cliente e devolve seus dados. So o
/// sucesso muda os clientes guardados.
pub open spec fn cadastro_de_cliente(
    antes: Map<u128, ClienteView>,
    depois: Map<u128, ClienteView>,
    nome: Seq<char>,
    documento: Seq<char>,
    email: Seq<char>,
    k: u128,
    r: Result<ClienteOutput, ApplicationError>,
) -> bool {
    match validar_cliente(nome, documento, email) {
        Err(e) => depois == antes && (r matches Err(ApplicationError::Domain(x)) && x == e),
        Ok((n, d, m)) => if documento_em_uso(antes, d) || antes.contains_key(k) {
            depois == antes && r matches Err(ApplicationError::Domain(DomainError::ClienteAlreadyExists))
        } else {
            depois == antes.insert(k, ClienteView { id: k, nome: n, documento: d, email: m }) && (
            r matches Ok(out) && cliente_saida(out, ClienteView { id: k, nome: n, documento: d, email: m }))
        },
    }
}

/// Cadastro de cliente: o documento (CPF) nao pode estar em uso.
pub struct RegisterCliente<R: ClienteRepository> {
    repository: R,
}

impl<R: ClienteRepository> RegisterCliente<R> {
    pub closed spec fn clientes(&self) -> Map<u128, ClienteView> {
        self.repository.clientes()
    }

    pub fn new(repository: R) -> (r: Self)
        ensures
            r.clientes() == repository.clientes(),
    {
        RegisterCliente { repository }
    }

    /// Devolve o repositorio, com o que o caso de uso escreveu nele.
    pub fn into_repository(self) -> (r: R)
        ensures
            r.clientes() == self.clientes(),
    {
        self.repository
    }

    /// Cadastra um cliente com uma identidade nova, aleatoria (UUID v4). So
    /// falha por identidade repetida se o sorteio cair numa ja usada.
    pub fn execute(&mut self, input: RegisterClienteInput) -> (r: Result<ClienteOutput, ApplicationError>)
        ensures
            exists|k: u128|
                uuid_v4(k) && cadastro_de_cliente(
                    old(self).clientes(),
                    final(self).clientes(),
                    input.nome@,
                    input.documento@,
                    input.email@,
                    k,
                    r,
                ),
            validar_cliente(input.nome@, input.documento@, input.email@) is Ok && old(
                self,
            ).clientes().is_empty() ==> r is Ok,
            documentos_unicos(old(self).clientes()) ==> documentos_unicos(final(self).clientes()),
    {
        let id = ClienteId::new();
        let r = self.execute_com_id(input, id);
        assert(uuid_v4(id.spec_uuid()));
        r
    }

    /// O cadastro com a identidade `cliente_id` ja sorteada.
    pub fn execute_com_id(&mut self, input: RegisterClienteInput, cliente_id: ClienteId) -> (r: Result<
        ClienteOutput,
        ApplicationError,
    >)
        ensures
            cadastro_de_cliente(
                old(self).clientes(),
                final(self).clientes(),
                input.nome@,
                input.documento@,
                input.email@,
                cliente_id.spec_uuid(),
                r,
            ),
            documentos_unicos(old(self).clientes()) ==> documentos_unicos(final(self).clientes()),
    {
        let nome = match Nome::parse(input.nome.as_str()) {
            Ok(n) => n,
            Err(e) => return Err(ApplicationError::Domain(e)),
        };
        let documento = match Cpf::parse(input.documento.as_str()) {
            Ok(d) => d,
            Err(e) => return Err(ApplicationError::Domain(e)),
        };
        let email = match Email::parse(input.email.as_str()) {
            Ok(m) => m,
            Err(e) => return Err(ApplicationError::Domain(e)),
        };
        match self.ensure_documento_is_available(&documento) {
            Ok(()) => {},
            Err(e) => return Err(e),
        }
        let cliente = Cliente::reconstitute(cliente_id, nome, documento, email);
        match self.repository.save(&cliente) {
            Ok(()) => {},
            Err(e) => return Err(ApplicationError::Domain(e)),
        }
        Ok(Self::to_output(&cliente))
    }

    fn ensure_documento_is_available(&self, documento: &Cpf) -> (r: Result<(), ApplicationError>)
        ensures
            match r {
                Ok(()) => !documento_em_uso(self.clientes(), documento@),
                Err(e) => documento_em_uso(self.clientes(), documento@) && e matches ApplicationError::Domain(
                    DomainError::ClienteAlreadyExists,
                ),
            },
    {
        match self.repository.find_by_documento(documento) {
            Ok(Some(c)) => {
                assert(self.clientes().contains_key(c@.id));
                Err(ApplicationError::Domain(DomainError::ClienteAlreadyExists))
            },
            Ok(None) => Ok(()),
            Err(e) => Err(ApplicationError::Domain(e)),
        }
    }

    /// Os dados do cliente em campos primitivos.
    pub fn to_output(cliente: &Cliente) -> (o: ClienteOutput)
        ensures
            cliente_saida(o, cliente@),
    {
        ClienteOutput {
            cliente_id: uuid_to_string(cliente.id().as_uuid()),
            nome: cliente.nome().as_str().to_string(),
            documento: cliente.documento().as_str().to_string(),
            email: cliente.email().as_str().to_string(),
        }
    }
}

} // verus!
