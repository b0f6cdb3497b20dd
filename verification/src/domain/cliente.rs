//! Agregado `Cliente`.
use vstd::prelude::*;

use crate::domain::cpf::{cpf_valido, Cpf};
use crate::domain::email::{email_valido, Email};
use crate::domain::nome::{nome_valido, Nome};
use crate::ids::ClienteId;

verus! {

pub struct Cliente {
    id: ClienteId,
    nome: Nome,
    documento: Cpf,
    email: Email,
}

/// Estado de um cliente: identidade e os textos dos seus value objects.
pub struct ClienteView {
    pub id: u128,
    pub nome: Seq<char>,
    pub documento: Seq<char>,
    pub email: Seq<char>,
}

/// Todos os value objects do cliente sao validos.
pub open spec fn cliente_wf(v: ClienteView) -> bool {
    nome_valido(v.nome) && cpf_valido(v.documento) && email_valido(v.email)
}

impl View for Cliente {
    type V = ClienteView;

    closed spec fn view(&self) -> ClienteView {
        ClienteView {
            id: self.id.spec_uuid(),
            nome: self.nome@,
            documento: self.documento@,
            email: self.email@,
        }
    }
}

impl Cliente {
    /// Cadastro novo, com identidade aleatoria.
    pub fn register(nome: Nome, documento: Cpf, email: Email) -> (c: Cliente)
        ensures
            c@.nome == nome@,
            c@.documento == documento@,
            c@.email == email@,
    {
        Cliente { id: ClienteId::new(), nome, documento, email }
    }

    /// Recria um cliente ja existente (por exemplo, a partir do historico).
    pub fn reconstitute(id: ClienteId, nome: Nome, documento: Cpf, email: Email) -> (c: Cliente)
        ensures
            c@ == (ClienteView {
                id: id.spec_uuid(),
                nome: nome@,
                documento: documento@,
                email: email@,
            }),
    {
        Cliente { id, nome, documento, email }
    }

    /// O mesmo cliente, com novos dados cadastrais.
    pub fn with_updated_data(self, nome: Nome, documento: Cpf, email: Email) -> (c: Cliente)
        ensures
            c@ == (ClienteView {
                id: self@.id,
                nome: nome@,
                documento: documento@,
                email: email@,
            }),
    {
        Cliente { id: self.id, nome, documento, email }
    }

    pub fn id(&self) -> (id: ClienteId)
        ensures
            id.spec_uuid() == self@.id,
    {
        self.id
    }

    pub fn nome(&self) -> (n: &Nome)
        ensures
            n@ == self@.nome,
    {
        &self.nome
    }

    pub fn documento(&self) -> (d: &Cpf)
        ensures
            d@ == self@.documento,
    {
        &self.documento
    }

    pub fn email(&self) -> (e: &Email)
        ensures
            e@ == self@.email,
    {
        &self.email
    }

    /// Os value objects de um cliente sao sempre validos.
    pub fn check_wf(&self)
        ensures
            cliente_wf(self@),
    {
        self.nome.as_str();
        self.documento.as_str();
        self.email.as_str();
    }

    pub fn duplicate(&self) -> (c: Cliente)
        ensures
            c@ == self@,
    {
        Cliente {
            id: self.id,
            nome: self.nome.duplicate(),
            documento: self.documento.duplicate(),
            email: self.email.duplicate(),
        }
    }
}

} // verus!
