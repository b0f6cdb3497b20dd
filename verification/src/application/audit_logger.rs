//! Vocabulario da trilha de auditoria: qual agregado mudou, o que aconteceu e
//! o estado completo dele depois do evento.
use vstd::prelude::*;

use crate::text::{trim, trim_str};

verus! {

/// Qual agregado sofreu a mudanca.
#[derive(Debug, Clone, Copy, PartialEq, Eq, Structural)]
pub enum AuditEntity {
    Usuario,
    Cliente,
    Produto,
    Pedido,
}

impl AuditEntity {
    pub open spec fn spec_as_str(self) -> Seq<char> {
        match self {
            AuditEntity::Usuario => "USUARIO"@,
            AuditEntity::Cliente => "CLIENTE"@,
            AuditEntity::Produto => "PRODUTO"@,
            AuditEntity::Pedido => "PEDIDO"@,
        }
    }

    pub fn as_str(&self) -> (s: &'static str)
        ensures
            s@ == self.spec_as_str(),
    {
        match self {
            AuditEntity::Usuario => "USUARIO",
            AuditEntity::Cliente => "CLIENTE",
            AuditEntity::Produto => "PRODUTO",
            AuditEntity::Pedido => "PEDIDO",
        }
    }
}

/// O que aconteceu com o agregado.
#[derive(Debug, Clone, Copy, PartialEq, Eq, Structural)]
pub enum AuditAction {
    Insert,
    Update,
    Delete,
}

impl AuditAction {
    pub open spec fn spec_as_str(self) -> Seq<char> {
        match self {
            AuditAction::Insert => "INSERT"@,
            AuditAction::Update => "UPDATE"@,
            AuditAction::Delete => "DELETE"@,
        }
    }

    pub fn as_str(&self) -> (s: &'static str)
        ensures
            s@ == self.spec_as_str(),
    {
        match self {
            AuditAction::Insert => "INSERT",
            AuditAction::Update => "UPDATE",
            AuditAction::Delete => "DELETE",
        }
    }
}

/// Item de pedido em campos primitivos, dentro do payload de auditoria.
#[derive(Debug)]
pub struct ItemPedidoSnapshot {
    pub produto_id: String,
    pub nome_produto: String,
    pub quantidade: u32,
    pub valor_unitario_centavos: i64,
    pub valor_total_centavos: i64,
}

pub struct ItemPedidoSnapshotView {
    pub produto_id: Seq<char>,
    pub nome_produto: Seq<char>,
    pub quantidade: u32,
    pub valor_unitario_centavos: i64,
    pub valor_total_centavos: i64,
}

impl View for ItemPedidoSnapshot {
    type V = ItemPedidoSnapshotView;

    open spec fn view(&self) -> ItemPedidoSnapshotView {
        ItemPedidoSnapshotView {
            produto_id: self.produto_id@,
            nome_produto: self.nome_produto@,
            quantidade: self.quantidade,
            valor_unitario_centavos: self.valor_unitario_centavos,
            valor_total_centavos: self.valor_total_centavos,
        }
    }
}

/// O estado completo do agregado no momento do evento (nao um diff).
#[derive(Debug)]
pub enum AuditPayload {
    Usuario { email: String, password_hash: String, role: String },
    Cliente { nome: String, documento: String, email: String },
    Produto { nome: String, preco_centavos: i64 },
    Pedido { cliente_id: String, itens: Vec<ItemPedidoSnapshot>, valor_total_centavos: i64 },
    /// Eventos `Delete`: so o fato de que o agregado deixou de existir.
    Removido,
}

pub enum AuditPayloadView {
    Usuario { email: Seq<char>, password_hash: Seq<char>, role: Seq<char> },
    Cliente { nome: Seq<char>, documento: Seq<char>, email: Seq<char> },
    Produto { nome: Seq<char>, preco_centavos: i64 },
    Pedido { cliente_id: Seq<char>, itens: Seq<ItemPedidoSnapshotView>, valor_total_centavos: i64 },
    Removido,
}

pub open spec fn snapshot_views(itens: Seq<ItemPedidoSnapshot>) -> Seq<ItemPedidoSnapshotView> {
    itens.map_values(|i: ItemPedidoSnapshot| i@)
}

impl View for AuditPayload {
    type V = AuditPayloadView;

    open spec fn view(&self) -> AuditPayloadView {
        match self {
            AuditPayload::Usuario { email, password_hash, role } => AuditPayloadView::Usuario {
                email: email@,
                password_hash: password_hash@,
                role: role@,
            },
            AuditPayload::Cliente { nome, documento, email } => AuditPayloadView::Cliente {
                nome: nome@,
                documento: documento@,
                email: email@,
            },
            AuditPayload::Produto { nome, preco_centavos } => AuditPayloadView::Produto {
                nome: nome@,
                preco_centavos: *preco_centavos,
            },
            AuditPayload::Pedido { cliente_id, itens, valor_total_centavos } =>
                AuditPayloadView::Pedido {
                cliente_id: cliente_id@,
                itens: snapshot_views(itens@),
                valor_total_centavos: *valor_total_centavos,
            },
            AuditPayload::Removido => AuditPayloadView::Removido,
        }
    }
}

/// Um registro imutavel de auditoria: "isto aconteceu, com este agregado,
/// neste instante, e o estado dele ficou assim".
#[derive(Debug)]
pub struct AuditEntry {
    pub entity: AuditEntity,
    pub action: AuditAction,
    pub aggregate_id: String,
    /// Instante do evento (RFC 3339, UTC).
    pub occurred_at: String,
    pub payload: AuditPayload,
}

pub struct AuditEntryView {
    pub entity: AuditEntity,
    pub action: AuditAction,
    pub aggregate_id: Seq<char>,
    pub payload: AuditPayloadView,
}

impl View for AuditEntry {
    type V = AuditEntryView;

    open spec fn view(&self) -> AuditEntryView {
        AuditEntryView {
            entity: self.entity,
            action: self.action,
            aggregate_id: self.aggregate_id@,
            payload: self.payload@,
        }
    }
}

/// Porta de saida para a auditoria: quem grava os registros (num arquivo,
/// por exemplo). Sem retorno: quem registra nao espera a gravacao nem sabe
/// se ela deu certo.
pub trait AuditLogger {
    fn record(&self, entry: AuditEntry);
}

pub open spec fn so_digitos(s: Seq<char>) -> bool {
    forall|i: int| 0 <= i < s.len() ==> '0' <= #[trigger] s[i] <= '9'
}

/// O ano de um instante RFC 3339: quatro digitos, ou, fora de 0..=9999, um
/// sinal seguido de ao menos quatro digitos.
pub open spec fn ano_rfc3339(a: Seq<char>) -> bool {
    ||| a.len() == 4 && so_digitos(a)
    ||| a.len() >= 5 && (a[0] == '+' || a[0] == '-') && so_digitos(a.drop_first())
}

/// `-MM-DDTHH:MM:SS`: o que vem depois do ano.
pub open spec fn data_hora_rfc3339(t: Seq<char>) -> bool {
    &&& t.len() == 15
    &&& t[0] == '-' && t[3] == '-' && t[6] == 'T' && t[9] == ':' && t[12] == ':'
    &&& so_digitos(t.subrange(1, 3)) && so_digitos(t.subrange(4, 6))
    &&& so_digitos(t.subrange(7, 9)) && so_digitos(t.subrange(10, 12)) && so_digitos(t.subrange(13, 15))
}

/// `s` e um instante UTC em RFC 3339 com um ano de `y` caracteres e uma
/// fracao de segundo de `f` caracteres (nenhuma, ou um ponto e 3, 6 ou 9
/// digitos), terminando no deslocamento `+00:00`.
pub open spec fn forma_rfc3339_utc(s: Seq<char>, y: int, f: int) -> bool {
    &&& 4 <= y && (f == 0 || f == 4 || f == 7 || f == 10)
    &&& s.len() == y + 15 + f + 6
    &&& ano_rfc3339(s.take(y))
    &&& data_hora_rfc3339(s.subrange(y, y + 15))
    &&& f > 0 ==> s[y + 15] == '.' && so_digitos(s.subrange(y + 16, y + 15 + f))
    &&& s.subrange(y + 15 + f, s.len() as int) == "+00:00"@
}

/// Um instante UTC escrito em RFC 3339, como em `2024-05-01T12:30:00.123+00:00`.
pub open spec fn instante_rfc3339_utc(s: Seq<char>) -> bool {
    exists|y: int, f: int| #[trigger] forma_rfc3339_utc(s, y, f)
}

/// `chrono::Utc::now().to_rfc3339()`: o instante atual, que depende do
/// relogio e nao e descrito; o contrato diz so a forma do texto, que o
/// crate escreve em `write_rfc3339` (ano, `-MM-DDTHH:MM:SS`, fracao de 3, 6
/// ou 9 digitos quando ha nanossegundos, e `+00:00` para UTC).
#[verifier::external_body]
fn now_rfc3339() -> (r: String)
    ensures
        instante_rfc3339_utc(r@),
{
    chrono::Utc::now().to_rfc3339()
}

impl AuditEntry {
    /// Registro de um evento que acontece agora; o instante e o do relogio,
    /// em RFC 3339 (UTC).
    pub fn new(entity: AuditEntity, action: AuditAction, aggregate_id: String, payload: AuditPayload) -> (e:
        AuditEntry)
        ensures
            e@ == (AuditEntryView { entity, action, aggregate_id: aggregate_id@, payload: payload@ }),
            instante_rfc3339_utc(e.occurred_at@),
    {
        AuditEntry { entity, action, aggregate_id, occurred_at: now_rfc3339(), payload }
    }

    /// O conteudo de uma linha do arquivo de auditoria: a linha aparada, ou
    /// nada se ela estiver em branco.
    pub fn frame_log_line(line: &str) -> (r: Option<String>)
        ensures
            match r {
                Some(body) => trim(line@).len() > 0 && body@ == trim(line@),
                None => trim(line@).len() == 0,
            },
    {
        let trimmed = trim_str(line);
        if trimmed.as_str().unicode_len() == 0 {
            None
        } else {
            Some(trimmed)
        }
    }
}

} // verus!
