//! O que um agregado precisa para ser guardado em cache, auditado e
//! reconstruido a partir do historico.
use vstd::prelude::*;

use crate::application::audit_logger::{
    snapshot_views, AuditEntity, AuditPayload, AuditPayloadView, ItemPedidoSnapshot,
    ItemPedidoSnapshotView,
};
use crate::domain::cliente::{cliente_wf, Cliente, ClienteView};
use crate::domain::cpf::{lemma_parse_valid_cpf, spec_parse_cpf};
use crate::domain::email::{lemma_parse_valid_email, spec_parse_email};
use crate::domain::errors::DomainError;
use crate::domain::pedido::{
    item_wf, pedido_wf, ItemPedido, ItemPedidoView, Pedido, PedidoView,
};
use crate::domain::produto::{produto_wf, Produto, ProdutoView};
use crate::domain::role::Role;
use crate::domain::user::{user_wf, User, UserView};
use crate::domain::nome::{lemma_parse_valid_nome, lemma_parsed_nome_valid, spec_parse_nome};
use crate::ids::{canonical_uuid, is_canonical_text, lemma_canonical_uuid_text, uuid_parse, uuid_text};
use crate::infra::audit_log_replayer::AuditLogReplayer;
use crate::ids::{uuid_to_string, PedidoId, ProdutoId, UserId};

verus! {

/// Leitura de identificadores pelo `uuid::Uuid::parse_str`.
pub open spec fn name_parser() -> spec_fn(Seq<char>) -> Option<u128> {
    |t: Seq<char>| uuid_parse(t)
}

/// Leitura de identificadores escritos na forma canonica.
pub open spec fn canonical_parser() -> spec_fn(Seq<char>) -> Option<u128> {
    |t: Seq<char>| canonical_uuid(t)
}


/// A identidade de um agregado, como funcao.
pub open spec fn key_fn<E: Entity>() -> spec_fn(E::V) -> u128 {
    |v: E::V| E::key_of(v)
}

/// Um agregado guardado por identidade, auditado por snapshot completo.
pub trait Entity: View + Sized {
    /// Identidade do agregado.
    spec fn key_of(v: Self::V) -> u128;

    /// Os value objects do agregado sao validos.
    spec fn wf(v: Self::V) -> bool;

    spec fn kind() -> AuditEntity;

    /// Snapshot gravado na auditoria.
    spec fn payload_of(v: Self::V) -> AuditPayloadView;

    /// Os identificadores textuais do snapshot estao na forma canonica.
    spec fn canonical_payload(p: AuditPayloadView) -> bool;

    /// O agregado reconstruido a partir de um snapshot, lendo os identificadores
    /// internos com `ids`.
    spec fn rebuild(id: u128, p: AuditPayloadView, ids: spec_fn(Seq<char>) -> Option<u128>) -> Result<
        Self::V,
        Seq<char>,
    >;

    spec fn spec_already_exists() -> DomainError;

    spec fn spec_not_found() -> DomainError;

    /// Se o agregado pode ser atualizado; quando nao, todo evento que nao
    /// seja remocao e um cadastro.
    spec fn spec_aceita_update() -> bool;

    /// Reconstruir o snapshot de um agregado valido devolve o proprio agregado.
    proof fn lemma_rebuild_payload(v: Self::V)
        requires
            Self::wf(v),
        ensures
            Self::canonical_payload(Self::payload_of(v)),
            Self::rebuild(Self::key_of(v), Self::payload_of(v), canonical_parser()) == Ok::<
                Self::V,
                Seq<char>,
            >(v),
    ;

    /// A identidade do agregado reconstruido e a pedida.
    proof fn lemma_rebuild_key(id: u128, p: AuditPayloadView, ids: spec_fn(Seq<char>) -> Option<u128>)
        ensures
            Self::rebuild(id, p, ids) matches Ok(v) ==> Self::key_of(v) == id && Self::wf(v),
    ;

    fn key(&self) -> (k: u128)
        ensures
            k == Self::key_of(self@),
            Self::wf(self@),
    ;

    fn duplicate(&self) -> (r: Self)
        ensures
            r@ == self@,
    ;

    fn kind_exec() -> (k: AuditEntity)
        ensures
            k == Self::kind(),
    ;

    fn already_exists() -> (e: DomainError)
        ensures
            e == Self::spec_already_exists(),
    ;

    fn not_found() -> (e: DomainError)
        ensures
            e == Self::spec_not_found(),
    ;

    fn aceita_update() -> (b: bool)
        ensures
            b == Self::spec_aceita_update(),
    ;

    fn payload(&self) -> (p: AuditPayload)
        ensures
            p@ == Self::payload_of(self@),
    ;

    /// Reconstroi o agregado a partir do snapshot; a mensagem de erro diz o
    /// motivo da recusa.
    fn reconstruct(id: u128, p: &AuditPayload) -> (r: Result<Self, String>)
        ensures
            match r {
                Ok(x) => Self::rebuild(id, p@, name_parser()) == Ok::<Self::V, Seq<char>>(x@),
                Err(m) => Self::rebuild(id, p@, name_parser()) == Err::<Self::V, Seq<char>>(m@),
            },
            Self::canonical_payload(p@) ==> Self::rebuild(id, p@, name_parser()) == Self::rebuild(
                id,
                p@,
                canonical_parser(),
            ),
    ;
}

// ---------------------------------------------------------------------
// Cliente
// ---------------------------------------------------------------------

/// Motivo da recusa de um identificador ilegivel.
pub open spec fn motivo_uuid(raw: Seq<char>) -> Seq<char> {
    "id invalido no log de auditoria: "@ + raw
}

/// O cliente descrito pelo snapshot, ou o motivo da recusa (o primeiro campo
/// invalido, na ordem nome, documento, email).
pub open spec fn rebuild_cliente(id: u128, p: AuditPayloadView) -> Result<ClienteView, Seq<char>> {
    match p {
        AuditPayloadView::Cliente { nome, documento, email } => match spec_parse_nome(nome) {
            Err(e) => Err(e.spec_message()),
            Ok(n) => match spec_parse_cpf(documento) {
                Err(e) => Err(e.spec_message()),
                Ok(d) => match spec_parse_email(email) {
                    Err(e) => Err(e.spec_message()),
                    Ok(m) => Ok(ClienteView { id, nome: n, documento: d, email: m }),
                },
            },
        },
        _ => Err("payload de cliente ausente ou invalido"@),
    }
}

impl Entity for Cliente {
    open spec fn key_of(v: ClienteView) -> u128 {
        v.id
    }

    open spec fn wf(v: ClienteView) -> bool {
        cliente_wf(v)
    }

    open spec fn kind() -> AuditEntity {
        AuditEntity::Cliente
    }

    open spec fn payload_of(v: ClienteView) -> AuditPayloadView {
        AuditPayloadView::Cliente { nome: v.nome, documento: v.documento, email: v.email }
    }

    open spec fn canonical_payload(p: AuditPayloadView) -> bool {
        true
    }

    open spec fn rebuild(id: u128, p: AuditPayloadView, ids: spec_fn(Seq<char>) -> Option<u128>) -> Result<
        ClienteView,
        Seq<char>,
    > {
        rebuild_cliente(id, p)
    }

    open spec fn spec_already_exists() -> DomainError {
        DomainError::ClienteAlreadyExists
    }

    open spec fn spec_not_found() -> DomainError {
        DomainError::ClienteNotFound
    }

    open spec fn spec_aceita_update() -> bool {
        true
    }

    proof fn lemma_rebuild_payload(v: ClienteView) {
        lemma_parse_valid_nome(v.nome);
        lemma_parse_valid_cpf(v.documento);
        lemma_parse_valid_email(v.email);
    }

    proof fn lemma_rebuild_key(id: u128, p: AuditPayloadView, ids: spec_fn(Seq<char>) -> Option<u128>) {
        if let AuditPayloadView::Cliente { nome, documento, email } = p {
            lemma_parsed_nome_valid(nome);
        }
    }

    fn key(&self) -> (k: u128) {
        self.check_wf();
        self.id().as_uuid()
    }

    fn duplicate(&self) -> (r: Cliente) {
        Cliente::duplicate(self)
    }

    fn kind_exec() -> (k: AuditEntity) {
        AuditEntity::Cliente
    }

    fn already_exists() -> (e: DomainError) {
        DomainError::ClienteAlreadyExists
    }

    fn not_found() -> (e: DomainError) {
        DomainError::ClienteNotFound
    }

    fn aceita_update() -> (b: bool) {
        true
    }

    fn payload(&self) -> (p: AuditPayload)
        ensures
            p matches AuditPayload::Cliente { nome, documento, email } && nome@ == self@.nome
                && documento@ == self@.documento && email@ == self@.email,
    {
        AuditPayload::Cliente {
            nome: self.nome().as_str().to_string(),
            documento: self.documento().as_str().to_string(),
            email: self.email().as_str().to_string(),
        }
    }

    fn reconstruct(id: u128, p: &AuditPayload) -> (r: Result<Cliente, String>) {
        AuditLogReplayer::reconstruir_cliente(crate::ids::ClienteId::from_uuid(id), p)
    }
}


// ---------------------------------------------------------------------
// Usuario
// ---------------------------------------------------------------------

/// O usuario descrito pelo snapshot, ou o motivo da recusa.
pub open spec fn rebuild_usuario(id: u128, p: AuditPayloadView) -> Result<UserView, Seq<char>> {
    match p {
        AuditPayloadView::Usuario { email, password_hash, role } => match spec_parse_email(email) {
            Err(e) => Err(e.spec_message()),
            Ok(m) => match Role::spec_parse(role) {
                None => Err("role desconhecida no replay"@),
                Some(r) => Ok(UserView { id, email: m, password_hash, role: r }),
            },
        },
        _ => Err("payload de usuario ausente ou invalido"@),
    }
}

impl Entity for User {
    open spec fn key_of(v: UserView) -> u128 {
        v.id
    }

    open spec fn wf(v: UserView) -> bool {
        user_wf(v)
    }

    open spec fn kind() -> AuditEntity {
        AuditEntity::Usuario
    }

    /// O snapshot do usuario leva o hash da senha (nunca a senha em texto puro).
    open spec fn payload_of(v: UserView) -> AuditPayloadView {
        AuditPayloadView::Usuario {
            email: v.email,
            password_hash: v.password_hash,
            role: v.role.spec_as_str(),
        }
    }

    open spec fn canonical_payload(p: AuditPayloadView) -> bool {
        true
    }

    open spec fn rebuild(id: u128, p: AuditPayloadView, ids: spec_fn(Seq<char>) -> Option<u128>) -> Result<
        UserView,
        Seq<char>,
    > {
        rebuild_usuario(id, p)
    }

    open spec fn spec_already_exists() -> DomainError {
        DomainError::UserAlreadyExists
    }

    open spec fn spec_not_found() -> DomainError {
        DomainError::UserNotFound
    }

    open spec fn spec_aceita_update() -> bool {
        true
    }

    proof fn lemma_rebuild_payload(v: UserView) {
        lemma_parse_valid_email(v.email);
        v.role.lemma_parse_as_str();
    }

    proof fn lemma_rebuild_key(id: u128, p: AuditPayloadView, ids: spec_fn(Seq<char>) -> Option<u128>) {
    }

    fn key(&self) -> (k: u128) {
        self.check_wf();
        self.id().as_uuid()
    }

    fn duplicate(&self) -> (r: User) {
        User::duplicate(self)
    }

    fn kind_exec() -> (k: AuditEntity) {
        AuditEntity::Usuario
    }

    fn already_exists() -> (e: DomainError) {
        DomainError::UserAlreadyExists
    }

    fn not_found() -> (e: DomainError) {
        DomainError::UserNotFound
    }

    fn aceita_update() -> (b: bool) {
        true
    }

    fn payload(&self) -> (p: AuditPayload)
        ensures
            p matches AuditPayload::Usuario { email, password_hash, role } && email@ == self@.email
                && password_hash@ == self@.password_hash && role@ == self@.role.spec_as_str(),
    {
        AuditPayload::Usuario {
            email: self.email().as_str().to_string(),
            password_hash: self.password_hash().as_str().to_string(),
            role: self.role().as_str().to_string(),
        }
    }

    fn reconstruct(id: u128, p: &AuditPayload) -> (r: Result<User, String>) {
        AuditLogReplayer::reconstruir_usuario(UserId::from_uuid(id), p)
    }
}

// ---------------------------------------------------------------------
// Produto
// ---------------------------------------------------------------------

/// O produto descrito pelo snapshot, ou o motivo da recusa.
pub open spec fn rebuild_produto(id: u128, p: AuditPayloadView) -> Result<ProdutoView, Seq<char>> {
    match p {
        AuditPayloadView::Produto { nome, preco_centavos } => match spec_parse_nome(nome) {
            Err(e) => Err(e.spec_message()),
            Ok(n) => if preco_centavos < 0 {
                Err(DomainError::ValorMonetarioInvalido.spec_message())
            } else {
                Ok(ProdutoView { id, nome: n, preco: preco_centavos as int })
            },
        },
        _ => Err("payload de produto ausente ou invalido"@),
    }
}

impl Entity for Produto {
    open spec fn key_of(v: ProdutoView) -> u128 {
        v.id
    }

    open spec fn wf(v: ProdutoView) -> bool {
        produto_wf(v)
    }

    open spec fn kind() -> AuditEntity {
        AuditEntity::Produto
    }

    open spec fn payload_of(v: ProdutoView) -> AuditPayloadView {
        AuditPayloadView::Produto { nome: v.nome, preco_centavos: v.preco as i64 }
    }

    open spec fn canonical_payload(p: AuditPayloadView) -> bool {
        true
    }

    open spec fn rebuild(id: u128, p: AuditPayloadView, ids: spec_fn(Seq<char>) -> Option<u128>) -> Result<
        ProdutoView,
        Seq<char>,
    > {
        rebuild_produto(id, p)
    }

    open spec fn spec_already_exists() -> DomainError {
        DomainError::ProdutoAlreadyExists
    }

    open spec fn spec_not_found() -> DomainError {
        DomainError::ProdutoNotFound
    }

    open spec fn spec_aceita_update() -> bool {
        true
    }

    proof fn lemma_rebuild_payload(v: ProdutoView) {
        lemma_parse_valid_nome(v.nome);
    }

    proof fn lemma_rebuild_key(id: u128, p: AuditPayloadView, ids: spec_fn(Seq<char>) -> Option<u128>) {
        if let AuditPayloadView::Produto { nome, preco_centavos } = p {
            lemma_parsed_nome_valid(nome);
        }
    }

    fn key(&self) -> (k: u128) {
        self.check_wf();
        self.id().as_uuid()
    }

    fn duplicate(&self) -> (r: Produto) {
        Produto::duplicate(self)
    }

    fn kind_exec() -> (k: AuditEntity) {
        AuditEntity::Produto
    }

    fn already_exists() -> (e: DomainError) {
        DomainError::ProdutoAlreadyExists
    }

    fn not_found() -> (e: DomainError) {
        DomainError::ProdutoNotFound
    }

    fn aceita_update() -> (b: bool) {
        true
    }

    fn payload(&self) -> (p: AuditPayload)
        ensures
            p matches AuditPayload::Produto { nome, preco_centavos } && nome@ == self@.nome
                && preco_centavos == self@.preco,
    {
        AuditPayload::Produto {
            nome: self.nome().as_str().to_string(),
            preco_centavos: self.preco().as_centavos(),
        }
    }

    fn reconstruct(id: u128, p: &AuditPayload) -> (r: Result<Produto, String>) {
        AuditLogReplayer::reconstruir_produto(ProdutoId::from_uuid(id), p)
    }
}

// ---------------------------------------------------------------------
// Pedido
// ---------------------------------------------------------------------

/// Snapshot de um item: identificador do produto na forma canonica.
pub open spec fn item_snapshot_of(i: ItemPedidoView) -> ItemPedidoSnapshotView {
    ItemPedidoSnapshotView {
        produto_id: uuid_text(i.produto_id),
        nome_produto: i.nome_produto,
        quantidade: i.quantidade,
        valor_unitario_centavos: i.valor_unitario as i64,
        valor_total_centavos: i.valor_total as i64,
    }
}

/// O item descrito pelo snapshot, ou o motivo da recusa (na ordem produto,
/// nome, quantidade, valor unitario, valor total).
pub open spec fn rebuild_item(s: ItemPedidoSnapshotView, ids: spec_fn(Seq<char>) -> Option<u128>) -> Result<
    ItemPedidoView,
    Seq<char>,
> {
    match ids(s.produto_id) {
        None => Err(motivo_uuid(s.produto_id)),
        Some(pid) => match spec_parse_nome(s.nome_produto) {
            Err(e) => Err(e.spec_message()),
            Ok(n) => if s.quantidade == 0 {
                Err(DomainError::InvalidQuantidade.spec_message())
            } else if s.valor_unitario_centavos < 0 || s.valor_total_centavos < 0 {
                Err(DomainError::ValorMonetarioInvalido.spec_message())
            } else {
                Ok(
                    ItemPedidoView {
                        produto_id: pid,
                        nome_produto: n,
                        quantidade: s.quantidade,
                        valor_unitario: s.valor_unitario_centavos as int,
                        valor_total: s.valor_total_centavos as int,
                    },
                )
            },
        },
    }
}

/// Os itens descritos pelos snapshots, na mesma ordem, ou o motivo da recusa
/// do primeiro item invalido.
pub open spec fn rebuild_items(s: Seq<ItemPedidoSnapshotView>, ids: spec_fn(Seq<char>) -> Option<u128>) -> Result<
    Seq<ItemPedidoView>,
    Seq<char>,
>
    decreases s.len(),
{
    if s.len() == 0 {
        Ok(Seq::empty())
    } else {
        match rebuild_items(s.drop_last(), ids) {
            Err(e) => Err(e),
            Ok(a) => match rebuild_item(s.last(), ids) {
                Err(e) => Err(e),
                Ok(b) => Ok(a.push(b)),
            },
        }
    }
}

/// O pedido descrito pelo snapshot, ou o motivo da recusa.
pub open spec fn rebuild_pedido(
    id: u128,
    p: AuditPayloadView,
    ids: spec_fn(Seq<char>) -> Option<u128>,
) -> Result<PedidoView, Seq<char>> {
    match p {
        AuditPayloadView::Pedido { cliente_id, itens, valor_total_centavos } => match ids(cliente_id) {
            None => Err(motivo_uuid(cliente_id)),
            Some(c) => match rebuild_items(itens, ids) {
                Err(e) => Err(e),
                Ok(is) => if valor_total_centavos < 0 {
                    Err(DomainError::ValorMonetarioInvalido.spec_message())
                } else {
                    Ok(
                        PedidoView {
                            id,
                            cliente_id: c,
                            itens: is,
                            valor_total: valor_total_centavos as int,
                        },
                    )
                },
            },
        },
        _ => Err("payload de pedido ausente ou invalido"@),
    }
}

pub open spec fn canonical_pedido_payload(p: AuditPayloadView) -> bool {
    match p {
        AuditPayloadView::Pedido { cliente_id, itens, valor_total_centavos } => {
            &&& is_canonical_text(cliente_id)
            &&& forall|k: int| 0 <= k < itens.len() ==> is_canonical_text(#[trigger] itens[k].produto_id)
        },
        _ => true,
    }
}

pub proof fn lemma_rebuild_items_valid(s: Seq<ItemPedidoSnapshotView>, ids: spec_fn(Seq<char>) -> Option<u128>)
    ensures
        rebuild_items(s, ids) matches Ok(v) ==> v.len() == s.len() && forall|k: int|
            0 <= k < v.len() ==> item_wf(#[trigger] v[k]),
    decreases s.len(),
{
    if s.len() > 0 {
        lemma_rebuild_items_valid(s.drop_last(), ids);
        lemma_parsed_nome_valid(s.last().nome_produto);
        if let Ok(v) = rebuild_items(s, ids) {
            let a = rebuild_items(s.drop_last(), ids)->Ok_0;
            assert forall|k: int| 0 <= k < v.len() implies item_wf(#[trigger] v[k]) by {
                if k < a.len() {
                    assert(v[k] == a[k]);
                }
            }
        }
    }
}

/// Se um prefixo dos snapshots ja e recusado, a lista inteira e recusada pelo
/// mesmo motivo.
pub proof fn lemma_rebuild_items_prefix_err(
    s: Seq<ItemPedidoSnapshotView>,
    ids: spec_fn(Seq<char>) -> Option<u128>,
    k: int,
)
    requires
        0 <= k <= s.len(),
        rebuild_items(s.subrange(0, k), ids) is Err,
    ensures
        rebuild_items(s, ids) == rebuild_items(s.subrange(0, k), ids),
    decreases s.len(),
{
    if k == s.len() {
        assert(s.subrange(0, k) =~= s);
    } else {
        assert(s.drop_last().subrange(0, k) =~= s.subrange(0, k));
        lemma_rebuild_items_prefix_err(s.drop_last(), ids, k);
    }
}

/// Dois leitores de identificadores que concordam item a item reconstroem os
/// mesmos itens.
pub proof fn lemma_rebuild_items_agree(
    s: Seq<ItemPedidoSnapshotView>,
    a: spec_fn(Seq<char>) -> Option<u128>,
    b: spec_fn(Seq<char>) -> Option<u128>,
)
    requires
        forall|j: int| 0 <= j < s.len() ==> rebuild_item(#[trigger] s[j], a) == rebuild_item(s[j], b),
    ensures
        rebuild_items(s, a) == rebuild_items(s, b),
    decreases s.len(),
{
    if s.len() > 0 {
        let w = s.drop_last();
        assert forall|j: int| 0 <= j < w.len() implies rebuild_item(#[trigger] w[j], a) == rebuild_item(w[j], b) by {
            assert(w[j] == s[j]);
        }
        lemma_rebuild_items_agree(w, a, b);
        assert(rebuild_item(s[s.len() - 1], a) == rebuild_item(s[s.len() - 1], b));
    }
}

proof fn lemma_rebuild_items_of_snapshots(v: Seq<ItemPedidoView>)
    requires
        forall|k: int| 0 <= k < v.len() ==> item_wf(#[trigger] v[k]),
    ensures
        rebuild_items(v.map_values(|i: ItemPedidoView| item_snapshot_of(i)), canonical_parser())
            == Ok::<Seq<ItemPedidoView>, Seq<char>>(v),
    decreases v.len(),
{
    let s = v.map_values(|i: ItemPedidoView| item_snapshot_of(i));
    if v.len() > 0 {
        let w = v.drop_last();
        assert(s.drop_last() =~= w.map_values(|i: ItemPedidoView| item_snapshot_of(i)));
        lemma_rebuild_items_of_snapshots(w);
        let last = v.last();
        assert(item_wf(v[v.len() - 1]));
        lemma_canonical_uuid_text(last.produto_id);
        lemma_parse_valid_nome(last.nome_produto);
        assert(w.push(last) =~= v);
    } else {
        assert(v =~= Seq::<ItemPedidoView>::empty());
    }
}

impl Entity for Pedido {
    open spec fn key_of(v: PedidoView) -> u128 {
        v.id
    }

    open spec fn wf(v: PedidoView) -> bool {
        pedido_wf(v)
    }

    open spec fn kind() -> AuditEntity {
        AuditEntity::Pedido
    }

    open spec fn payload_of(v: PedidoView) -> AuditPayloadView {
        AuditPayloadView::Pedido {
            cliente_id: uuid_text(v.cliente_id),
            itens: v.itens.map_values(|i: ItemPedidoView| item_snapshot_of(i)),
            valor_total_centavos: v.valor_total as i64,
        }
    }

    open spec fn canonical_payload(p: AuditPayloadView) -> bool {
        canonical_pedido_payload(p)
    }

    open spec fn rebuild(id: u128, p: AuditPayloadView, ids: spec_fn(Seq<char>) -> Option<u128>) -> Result<
        PedidoView,
        Seq<char>,
    > {
        rebuild_pedido(id, p, ids)
    }

    open spec fn spec_already_exists() -> DomainError {
        DomainError::PedidoAlreadyExists
    }

    open spec fn spec_not_found() -> DomainError {
        DomainError::PedidoNotFound
    }

    open spec fn spec_aceita_update() -> bool {
        false
    }

    proof fn lemma_rebuild_payload(v: PedidoView) {
        lemma_canonical_uuid_text(v.cliente_id);
        lemma_rebuild_items_of_snapshots(v.itens);
        let s = v.itens.map_values(|i: ItemPedidoView| item_snapshot_of(i));
        assert forall|k: int| 0 <= k < s.len() implies is_canonical_text(#[trigger] s[k].produto_id) by {
            assert(s[k].produto_id == uuid_text(v.itens[k].produto_id));
        }
        assert(is_canonical_text(uuid_text(v.cliente_id)));
    }

    proof fn lemma_rebuild_key(id: u128, p: AuditPayloadView, ids: spec_fn(Seq<char>) -> Option<u128>) {
        if let AuditPayloadView::Pedido { cliente_id, itens, valor_total_centavos } = p {
            lemma_rebuild_items_valid(itens, ids);
        }
    }

    fn key(&self) -> (k: u128) {
        self.check_wf();
        self.id().as_uuid()
    }

    fn duplicate(&self) -> (r: Pedido) {
        Pedido::duplicate(self)
    }

    fn kind_exec() -> (k: AuditEntity) {
        AuditEntity::Pedido
    }

    fn already_exists() -> (e: DomainError) {
        DomainError::PedidoAlreadyExists
    }

    fn not_found() -> (e: DomainError) {
        DomainError::PedidoNotFound
    }

    fn aceita_update() -> (b: bool) {
        false
    }

    fn payload(&self) -> (p: AuditPayload)
        ensures
            p matches AuditPayload::Pedido { cliente_id, itens, valor_total_centavos } && cliente_id@
                == uuid_text(self@.cliente_id) && valor_total_centavos == self@.valor_total
                && itens@.len() == self@.itens.len() && forall|k: int|
                0 <= k < itens@.len() ==> (#[trigger] itens@[k])@ == item_snapshot_of(self@.itens[k]),
    {
        let itens = self.itens();
        let n = itens.len();
        let mut snapshots: Vec<ItemPedidoSnapshot> = Vec::new();
        let mut i: usize = 0;
        while i < n
            invariant
                n == itens@.len(),
                i <= n,
                snapshots@.len() == i,
                forall|k: int|
                    0 <= k < i ==> (#[trigger] snapshots@[k])@ == item_snapshot_of(itens@[k]@),
            decreases n - i,
        {
            snapshots.push(item_to_snapshot(&itens[i]));
            i = i + 1;
        }
        proof {
            assert(snapshot_views(snapshots@) =~= self@.itens.map_values(
                |i: ItemPedidoView| item_snapshot_of(i),
            ));
        }
        AuditPayload::Pedido {
            cliente_id: uuid_to_string(self.cliente_id().as_uuid()),
            itens: snapshots,
            valor_total_centavos: self.valor_total().as_centavos(),
        }
    }

    fn reconstruct(id: u128, p: &AuditPayload) -> (r: Result<Pedido, String>) {
        AuditLogReplayer::reconstruir_pedido(PedidoId::from_uuid(id), p)
    }
}

/// Snapshot de um item de pedido, em campos primitivos.
pub fn item_to_snapshot(item: &ItemPedido) -> (s: ItemPedidoSnapshot)
    ensures
        s@ == item_snapshot_of(item@),
        s.produto_id@ == uuid_text(item@.produto_id),
        s.nome_produto@ == item@.nome_produto,
        s.quantidade == item@.quantidade,
        s.valor_unitario_centavos == item@.valor_unitario,
        s.valor_total_centavos == item@.valor_total,
{
    ItemPedidoSnapshot {
        produto_id: uuid_to_string(item.produto_id().as_uuid()),
        nome_produto: item.nome_produto().as_str().to_string(),
        quantidade: item.quantidade().valor(),
        valor_unitario_centavos: item.valor_unitario().as_centavos(),
        valor_total_centavos: item.valor_total().as_centavos(),
    }
}

// ---------------------------------------------------------------------
// O que cada snapshot guarda, campo a campo
// ---------------------------------------------------------------------

/// O snapshot de um usuario guarda o email e o hash da senha tais como estao
/// no usuario, e o papel pelo seu nome (`user` ou `admin`).
pub proof fn lei_snapshot_do_usuario(v: UserView)
    ensures
        User::payload_of(v) matches AuditPayloadView::Usuario { email, password_hash, role } && email
            == v.email && password_hash == v.password_hash && role == v.role.spec_as_str()
            && Role::spec_parse(role) == Some(v.role),
{
    v.role.lemma_parse_as_str();
}

/// O usuario reconstruido de um snapshot tem a identidade pedida, o email
/// lido do snapshot, o hash da senha do snapshot sem mudanca e o papel que o
/// nome no snapshot designa; o snapshot so e aceito com email valido e papel
/// conhecido.
pub proof fn lei_reconstrucao_do_usuario(id: u128, p: AuditPayloadView, ids: spec_fn(Seq<char>) -> Option<u128>)
    ensures
        User::rebuild(id, p, ids) is Ok <==> (p matches AuditPayloadView::Usuario { email, password_hash, role }
            && spec_parse_email(email) is Ok && Role::spec_parse(role) is Some),
        User::rebuild(id, p, ids) matches Ok(u) ==> (p matches AuditPayloadView::Usuario {
            email,
            password_hash,
            role,
        } && u.id == id && spec_parse_email(email) == Ok::<Seq<char>, DomainError>(u.email)
            && u.password_hash == password_hash && Role::spec_parse(role) == Some(u.role)),
{
}

/// O snapshot de um cliente guarda nome, documento e email do proprio
/// cliente, cada um no seu campo.
pub proof fn lei_snapshot_do_cliente(v: ClienteView)
    ensures
        Cliente::payload_of(v) matches AuditPayloadView::Cliente { nome, documento, email } && nome
            == v.nome && documento == v.documento && email == v.email,
{
}

/// O cliente reconstruido de um snapshot tem a identidade pedida e o nome,
/// o documento e o email lidos dos campos correspondentes do snapshot.
pub proof fn lei_reconstrucao_do_cliente(id: u128, p: AuditPayloadView, ids: spec_fn(Seq<char>) -> Option<u128>)
    ensures
        Cliente::rebuild(id, p, ids) matches Ok(c) ==> (p matches AuditPayloadView::Cliente {
            nome,
            documento,
            email,
        } && c.id == id && spec_parse_nome(nome) == Ok::<Seq<char>, DomainError>(c.nome)
            && spec_parse_cpf(documento) == Ok::<Seq<char>, DomainError>(c.documento)
            && spec_parse_email(email) == Ok::<Seq<char>, DomainError>(c.email)),
{
}

/// O snapshot de um produto guarda o nome e o preco (em centavos) do proprio
/// produto.
pub proof fn lei_snapshot_do_produto(v: ProdutoView)
    requires
        produto_wf(v),
    ensures
        Produto::payload_of(v) matches AuditPayloadView::Produto { nome, preco_centavos } && nome
            == v.nome && preco_centavos == v.preco,
{
}

/// O produto reconstruido de um snapshot tem a identidade pedida, o nome
/// lido do snapshot e o preco do snapshot; um preco negativo e recusado.
pub proof fn lei_reconstrucao_do_produto(id: u128, p: AuditPayloadView, ids: spec_fn(Seq<char>) -> Option<u128>)
    ensures
        Produto::rebuild(id, p, ids) matches Ok(v) ==> (p matches AuditPayloadView::Produto {
            nome,
            preco_centavos,
        } && v.id == id && spec_parse_nome(nome) == Ok::<Seq<char>, DomainError>(v.nome) && v.preco
            == preco_centavos && preco_centavos >= 0),
{
}

/// O snapshot de um item guarda, cada um no seu campo, o produto (pelo texto
/// canonico do seu UUID), o nome do produto, a quantidade, o preco unitario
/// e o total do proprio item.
pub proof fn lei_snapshot_do_item(i: ItemPedidoView)
    requires
        item_wf(i),
    ensures
        item_snapshot_of(i).produto_id == uuid_text(i.produto_id),
        canonical_uuid(item_snapshot_of(i).produto_id) == Some(i.produto_id),
        item_snapshot_of(i).nome_produto == i.nome_produto,
        item_snapshot_of(i).quantidade == i.quantidade,
        item_snapshot_of(i).valor_unitario_centavos == i.valor_unitario,
        item_snapshot_of(i).valor_total_centavos == i.valor_total,
{
    lemma_canonical_uuid_text(i.produto_id);
}

/// O item reconstruido de um snapshot tem o produto que o identificador do
/// snapshot designa, o nome lido do snapshot, a quantidade do snapshot, o
/// preco unitario de `valor_unitario_centavos` e o total de
/// `valor_total_centavos`.
pub proof fn lei_reconstrucao_do_item(s: ItemPedidoSnapshotView, ids: spec_fn(Seq<char>) -> Option<u128>)
    ensures
        rebuild_item(s, ids) matches Ok(i) ==> {
            &&& ids(s.produto_id) == Some(i.produto_id)
            &&& spec_parse_nome(s.nome_produto) == Ok::<Seq<char>, DomainError>(i.nome_produto)
            &&& i.quantidade == s.quantidade
            &&& i.valor_unitario == s.valor_unitario_centavos
            &&& i.valor_total == s.valor_total_centavos
        },
{
}

/// O snapshot de um pedido guarda o cliente (pelo texto canonico do seu
/// UUID), o snapshot de cada item, na mesma ordem, e o total do pedido.
pub proof fn lei_snapshot_do_pedido(v: PedidoView)
    requires
        pedido_wf(v),
    ensures
        Pedido::payload_of(v) matches AuditPayloadView::Pedido { cliente_id, itens, valor_total_centavos }
            && cliente_id == uuid_text(v.cliente_id) && valor_total_centavos == v.valor_total
            && itens.len() == v.itens.len() && forall|k: int|
            0 <= k < itens.len() ==> #[trigger] itens[k] == item_snapshot_of(v.itens[k]),
{
}

/// O pedido reconstruido de um snapshot tem a identidade pedida, o cliente
/// que o identificador do snapshot designa, um item reconstruido de cada
/// snapshot de item, na mesma ordem, e o total do snapshot.
pub proof fn lei_reconstrucao_do_pedido(id: u128, p: AuditPayloadView, ids: spec_fn(Seq<char>) -> Option<u128>)
    ensures
        Pedido::rebuild(id, p, ids) matches Ok(v) ==> (p matches AuditPayloadView::Pedido {
            cliente_id,
            itens,
            valor_total_centavos,
        } && v.id == id && ids(cliente_id) == Some(v.cliente_id) && v.valor_total
            == valor_total_centavos && v.itens.len() == itens.len() && forall|k: int|
            0 <= k < itens.len() ==> rebuild_item(#[trigger] itens[k], ids) == Ok::<
                ItemPedidoView,
                Seq<char>,
            >(v.itens[k])),
{
    if let AuditPayloadView::Pedido { cliente_id, itens, valor_total_centavos } = p {
        lemma_rebuild_items_each(itens, ids);
    }
}

/// Cada item reconstruido da lista vem do snapshot na mesma posicao.
proof fn lemma_rebuild_items_each(s: Seq<ItemPedidoSnapshotView>, ids: spec_fn(Seq<char>) -> Option<u128>)
    ensures
        rebuild_items(s, ids) matches Ok(v) ==> v.len() == s.len() && forall|k: int|
            0 <= k < s.len() ==> rebuild_item(#[trigger] s[k], ids) == Ok::<ItemPedidoView, Seq<char>>(
                v[k],
            ),
    decreases s.len(),
{
    if s.len() > 0 {
        lemma_rebuild_items_each(s.drop_last(), ids);
        if let Ok(v) = rebuild_items(s, ids) {
            let a = rebuild_items(s.drop_last(), ids)->Ok_0;
            assert forall|k: int| 0 <= k < s.len() implies rebuild_item(#[trigger] s[k], ids) == Ok::<
                ItemPedidoView,
                Seq<char>,
            >(v[k]) by {
                if k < s.len() - 1 {
                    assert(s[k] == s.drop_last()[k]);
                    assert(v[k] == a[k]);
                }
            }
        }
    }
}

} // verus!
