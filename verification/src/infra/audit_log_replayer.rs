//! Reidratacao do cache a partir do historico de auditoria.
use vstd::prelude::*;

use crate::application::audit_logger::{
    snapshot_views, AuditAction, AuditEntity, AuditEntry, AuditEntryView, AuditPayload,
    ItemPedidoSnapshot, ItemPedidoSnapshotView,
};
use crate::infra::cache::CacheRepository;
use crate::domain::cliente::{Cliente, ClienteView};
use crate::domain::cpf::{spec_parse_cpf, Cpf};
use crate::domain::dinheiro::Dinheiro;
use crate::domain::errors::DomainError;
use crate::domain::email::{spec_parse_email, Email};
use crate::domain::nome::{spec_parse_nome, Nome};
use crate::domain::password::HashedPassword;
use crate::domain::pedido::{item_views, ItemPedido, Pedido, PedidoView};
use crate::domain::produto::{Produto, ProdutoView};
use crate::domain::quantidade::Quantidade;
use crate::domain::role::Role;
use crate::domain::user::{User, UserView};
use crate::ids::{
    canonical_uuid, is_canonical_text, lemma_parse_agrees, parse_uuid, uuid_parse, ClienteId,
    PedidoId, ProdutoId, UserId,
};
use crate::infra::entity::{
    Entity, canonical_parser, canonical_pedido_payload, lei_reconstrucao_do_pedido, lemma_rebuild_items_agree, lemma_rebuild_items_prefix_err, motivo_uuid,
    name_parser, rebuild_cliente, rebuild_item, rebuild_items, rebuild_pedido, rebuild_produto,
    rebuild_usuario,
};
use crate::domain::repository::views;
use crate::text::push_str;

verus! {

/// O efeito de um evento do historico sobre o conteudo de um repositorio de
/// `E`, como o replay o aplica: eventos de outro agregado, identificadores
/// ilegiveis, snapshots recusados e escritas que o repositorio recusa nao
/// mudam nada.
pub open spec fn efeito<E: Entity>(
    m: Map<u128, E::V>,
    e: AuditEntryView,
    ids: spec_fn(Seq<char>) -> Option<u128>,
) -> Map<u128, E::V> {
    if e.entity != E::kind() {
        m
    } else {
        match ids(e.aggregate_id) {
            None => m,
            Some(k) => if e.action == AuditAction::Delete {
                if m.contains_key(k) {
                    m.remove(k)
                } else {
                    m
                }
            } else {
                match E::rebuild(k, e.payload, ids) {
                    Err(_) => m,
                    Ok(v) => if e.action == AuditAction::Insert || !E::spec_aceita_update() {
                        if m.contains_key(k) {
                            m
                        } else {
                            m.insert(k, v)
                        }
                    } else {
                        if m.contains_key(k) {
                            m.insert(k, v)
                        } else {
                            m
                        }
                    },
                }
            },
        }
    }
}

/// Por que o replay ignora um evento de `E` (nada, se ele foi aplicado).
pub open spec fn motivo<E: Entity>(
    m: Map<u128, E::V>,
    e: AuditEntryView,
    ids: spec_fn(Seq<char>) -> Option<u128>,
) -> Option<Seq<char>> {
    match ids(e.aggregate_id) {
        None => Some(motivo_uuid(e.aggregate_id)),
        Some(k) => if e.action == AuditAction::Delete {
            if m.contains_key(k) {
                None
            } else {
                Some(E::spec_not_found().spec_message())
            }
        } else {
            match E::rebuild(k, e.payload, ids) {
                Err(msg) => Some(msg),
                Ok(v) => if e.action == AuditAction::Insert || !E::spec_aceita_update() {
                    if m.contains_key(k) {
                        Some(E::spec_already_exists().spec_message())
                    } else {
                        None
                    }
                } else {
                    if m.contains_key(k) {
                        None
                    } else {
                        Some(E::spec_not_found().spec_message())
                    }
                },
            }
        },
    }
}

/// O conteudo depois de reaplicar os eventos, em ordem.
pub open spec fn reaplicar<E: Entity>(
    m: Map<u128, E::V>,
    s: Seq<AuditEntryView>,
    ids: spec_fn(Seq<char>) -> Option<u128>,
) -> Map<u128, E::V>
    decreases s.len(),
{
    if s.len() == 0 {
        m
    } else {
        efeito::<E>(reaplicar::<E>(m, s.drop_last(), ids), s.last(), ids)
    }
}

/// Reaplicar um evento a mais e aplicar o efeito dele ao resultado anterior.
pub proof fn lemma_reaplicar_push<E: Entity>(
    m: Map<u128, E::V>,
    s: Seq<AuditEntryView>,
    e: AuditEntryView,
    ids: spec_fn(Seq<char>) -> Option<u128>,
)
    ensures
        reaplicar::<E>(m, s.push(e), ids) == efeito::<E>(reaplicar::<E>(m, s, ids), e, ids),
{
    assert(s.push(e).drop_last() =~= s);
}

/// Reaplicar duas partes do historico, uma depois da outra, e reaplicar o
/// historico inteiro.
pub proof fn lemma_reaplicar_concat<E: Entity>(
    m: Map<u128, E::V>,
    a: Seq<AuditEntryView>,
    b: Seq<AuditEntryView>,
    ids: spec_fn(Seq<char>) -> Option<u128>,
)
    ensures
        reaplicar::<E>(m, a + b, ids) == reaplicar::<E>(reaplicar::<E>(m, a, ids), b, ids),
    decreases b.len(),
{
    if b.len() == 0 {
        assert(a + b =~= a);
    } else {
        assert((a + b).drop_last() =~= a + b.drop_last());
        assert((a + b).last() == b.last());
        lemma_reaplicar_concat::<E>(m, a, b.drop_last(), ids);
    }
}

/// Os eventos de `E`, em ordem.
pub open spec fn so_do_agregado<E: Entity>(s: Seq<AuditEntryView>) -> Seq<AuditEntryView> {
    s.filter(|e: AuditEntryView| e.entity == E::kind())
}

/// O cache de `E` so depende dos eventos de `E`: os de outros agregados,
/// misturados no mesmo historico, nao o mudam.
pub proof fn lemma_reaplicar_so_do_agregado<E: Entity>(
    m: Map<u128, E::V>,
    s: Seq<AuditEntryView>,
    ids: spec_fn(Seq<char>) -> Option<u128>,
)
    ensures
        reaplicar::<E>(m, s, ids) == reaplicar::<E>(m, so_do_agregado::<E>(s), ids),
    decreases s.len(),
{
    reveal_with_fuel(Seq::filter, 2);
    if s.len() > 0 {
        lemma_reaplicar_so_do_agregado::<E>(m, s.drop_last(), ids);
        let f = so_do_agregado::<E>(s.drop_last());
        if s.last().entity == E::kind() {
            assert(f.push(s.last()).drop_last() =~= f);
        }
    }
}

/// Cada evento de `s`, reaplicado depois dos anteriores, e aceito sem aviso.
pub open spec fn sem_avisos<E: Entity>(
    m: Map<u128, E::V>,
    s: Seq<AuditEntryView>,
    ids: spec_fn(Seq<char>) -> Option<u128>,
) -> bool {
    forall|i: int|
        0 <= i < s.len() ==> motivo::<E>(reaplicar::<E>(m, s.take(i), ids), #[trigger] s[i], ids) is None
}

/// Acrescentar a um historico sem avisos um evento aceito sem aviso mantem o
/// historico sem avisos.
pub proof fn lemma_sem_avisos_push<E: Entity>(
    m: Map<u128, E::V>,
    s: Seq<AuditEntryView>,
    e: AuditEntryView,
    ids: spec_fn(Seq<char>) -> Option<u128>,
)
    requires
        sem_avisos::<E>(m, s, ids),
        motivo::<E>(reaplicar::<E>(m, s, ids), e, ids) is None,
    ensures
        sem_avisos::<E>(m, s.push(e), ids),
{
    let t = s.push(e);
    assert forall|i: int| 0 <= i < t.len() implies motivo::<E>(
        reaplicar::<E>(m, t.take(i), ids),
        #[trigger] t[i],
        ids,
    ) is None by {
        if i < s.len() {
            assert(t.take(i) =~= s.take(i));
            assert(t[i] == s[i]);
        } else {
            assert(t.take(i) =~= s);
        }
    }
}

/// Um historico so com eventos de `E` e o proprio historico de `E`.
pub proof fn lemma_so_do_agregado_proprio<E: Entity>(s: Seq<AuditEntryView>)
    requires
        forall|i: int| 0 <= i < s.len() ==> (#[trigger] s[i]).entity == E::kind(),
    ensures
        so_do_agregado::<E>(s) == s,
    decreases s.len(),
{
    reveal_with_fuel(Seq::filter, 2);
    if s.len() > 0 {
        let w = s.drop_last();
        assert forall|i: int| 0 <= i < w.len() implies (#[trigger] w[i]).entity == E::kind() by {
            assert(w[i] == s[i]);
        }
        lemma_so_do_agregado_proprio::<E>(w);
        assert(s[s.len() - 1].entity == E::kind());
        assert(w.push(s.last()) =~= s);
    } else {
        assert(so_do_agregado::<E>(s) =~= s);
    }
}

/// Reidratacao: se o arquivo guarda, para cada agregado, os registros das
/// escritas feitas desde um estado inicial (em ordem, misturados entre si de
/// qualquer forma), reaplicar o arquivo sobre esse estado reconstroi os
/// quatro caches.
pub proof fn lei_reidratacao(
    inicial: EstadoCaches,
    atual: EstadoCaches,
    arquivo: Seq<AuditEntryView>,
    usuarios: Seq<AuditEntryView>,
    clientes: Seq<AuditEntryView>,
    produtos: Seq<AuditEntryView>,
    pedidos: Seq<AuditEntryView>,
)
    requires
        reaplicar::<User>(inicial.usuarios, usuarios, canonical_parser()) == atual.usuarios,
        reaplicar::<Cliente>(inicial.clientes, clientes, canonical_parser()) == atual.clientes,
        reaplicar::<Produto>(inicial.produtos, produtos, canonical_parser()) == atual.produtos,
        reaplicar::<Pedido>(inicial.pedidos, pedidos, canonical_parser()) == atual.pedidos,
        so_do_agregado::<User>(arquivo) == so_do_agregado::<User>(usuarios),
        so_do_agregado::<Cliente>(arquivo) == so_do_agregado::<Cliente>(clientes),
        so_do_agregado::<Produto>(arquivo) == so_do_agregado::<Produto>(produtos),
        so_do_agregado::<Pedido>(arquivo) == so_do_agregado::<Pedido>(pedidos),
    ensures
        reaplicar_tudo(inicial, arquivo, canonical_parser()) == atual,
{
    lemma_reaplicar_so_do_agregado::<User>(inicial.usuarios, arquivo, canonical_parser());
    lemma_reaplicar_so_do_agregado::<User>(inicial.usuarios, usuarios, canonical_parser());
    lemma_reaplicar_so_do_agregado::<Cliente>(inicial.clientes, arquivo, canonical_parser());
    lemma_reaplicar_so_do_agregado::<Cliente>(inicial.clientes, clientes, canonical_parser());
    lemma_reaplicar_so_do_agregado::<Produto>(inicial.produtos, arquivo, canonical_parser());
    lemma_reaplicar_so_do_agregado::<Produto>(inicial.produtos, produtos, canonical_parser());
    lemma_reaplicar_so_do_agregado::<Pedido>(inicial.pedidos, arquivo, canonical_parser());
    lemma_reaplicar_so_do_agregado::<Pedido>(inicial.pedidos, pedidos, canonical_parser());
}

/// O prefixo de um historico sem avisos e sem avisos.
proof fn lemma_sem_avisos_drop_last<E: Entity>(
    m: Map<u128, E::V>,
    s: Seq<AuditEntryView>,
    ids: spec_fn(Seq<char>) -> Option<u128>,
)
    requires
        s.len() > 0,
        sem_avisos::<E>(m, s, ids),
    ensures
        sem_avisos::<E>(m, s.drop_last(), ids),
        motivo::<E>(reaplicar::<E>(m, s.drop_last(), ids), s.last(), ids) is None,
{
    let w = s.drop_last();
    assert forall|i: int| 0 <= i < w.len() implies motivo::<E>(
        reaplicar::<E>(m, w.take(i), ids),
        #[trigger] w[i],
        ids,
    ) is None by {
        assert(w.take(i) =~= s.take(i));
        assert(w[i] == s[i]);
    }
    assert(s.take(s.len() - 1) =~= w);
    assert(s[s.len() - 1] == s.last());
}

/// Os eventos de `E` do historico sem o ultimo evento.
proof fn lemma_so_do_agregado_drop_last<E: Entity>(s: Seq<AuditEntryView>)
    requires
        s.len() > 0,
    ensures
        s.last().entity == E::kind() ==> so_do_agregado::<E>(s.drop_last()) == so_do_agregado::<E>(
            s,
        ).drop_last() && so_do_agregado::<E>(s).len() > 0 && so_do_agregado::<E>(s).last() == s.last(),
        s.last().entity != E::kind() ==> so_do_agregado::<E>(s.drop_last()) == so_do_agregado::<E>(
            s,
        ),
{
    reveal_with_fuel(Seq::filter, 2);
    let f = so_do_agregado::<E>(s.drop_last());
    if s.last().entity == E::kind() {
        assert(f.push(s.last()).drop_last() =~= f);
    }
}

/// Se o historico de cada agregado, reaplicado sobre o estado inicial, e
/// aceito sem avisos, reaplicar o arquivo que os mistura tambem nao gera
/// nenhum aviso.
pub proof fn lei_replay_sem_avisos(
    inicial: EstadoCaches,
    arquivo: Seq<AuditEntryView>,
    ids: spec_fn(Seq<char>) -> Option<u128>,
)
    requires
        sem_avisos::<User>(inicial.usuarios, so_do_agregado::<User>(arquivo), ids),
        sem_avisos::<Cliente>(inicial.clientes, so_do_agregado::<Cliente>(arquivo), ids),
        sem_avisos::<Produto>(inicial.produtos, so_do_agregado::<Produto>(arquivo), ids),
        sem_avisos::<Pedido>(inicial.pedidos, so_do_agregado::<Pedido>(arquivo), ids),
    ensures
        avisos(inicial, arquivo, ids) == Seq::<AvisoReplayView>::empty(),
    decreases arquivo.len(),
{
    if arquivo.len() > 0 {
        let w = arquivo.drop_last();
        let e = arquivo.last();
        lemma_so_do_agregado_drop_last::<User>(arquivo);
        lemma_so_do_agregado_drop_last::<Cliente>(arquivo);
        lemma_so_do_agregado_drop_last::<Produto>(arquivo);
        lemma_so_do_agregado_drop_last::<Pedido>(arquivo);
        lemma_reaplicar_so_do_agregado::<User>(inicial.usuarios, w, ids);
        lemma_reaplicar_so_do_agregado::<Cliente>(inicial.clientes, w, ids);
        lemma_reaplicar_so_do_agregado::<Produto>(inicial.produtos, w, ids);
        lemma_reaplicar_so_do_agregado::<Pedido>(inicial.pedidos, w, ids);
        match e.entity {
            AuditEntity::Usuario => {
                lemma_sem_avisos_drop_last::<User>(inicial.usuarios, so_do_agregado::<User>(arquivo), ids);
            },
            AuditEntity::Cliente => {
                lemma_sem_avisos_drop_last::<Cliente>(inicial.clientes, so_do_agregado::<Cliente>(arquivo), ids);
            },
            AuditEntity::Produto => {
                lemma_sem_avisos_drop_last::<Produto>(inicial.produtos, so_do_agregado::<Produto>(arquivo), ids);
            },
            AuditEntity::Pedido => {
                lemma_sem_avisos_drop_last::<Pedido>(inicial.pedidos, so_do_agregado::<Pedido>(arquivo), ids);
            },
        }
        lei_replay_sem_avisos(inicial, w, ids);
    }
}

/// Um evento que o cache de `E` recusa (ou que e de outro agregado) nao
/// muda esse cache.
proof fn lemma_recusado_nao_muda<E: Entity>(
    m: Map<u128, E::V>,
    e: AuditEntryView,
    ids: spec_fn(Seq<char>) -> Option<u128>,
)
    requires
        e.entity != E::kind() || motivo::<E>(m, e, ids) is Some,
    ensures
        efeito::<E>(m, e, ids) == m,
{
}

/// Tirar do historico um evento que nao mudou o cache de `E` nao muda o
/// resultado do replay: os eventos seguintes sao aplicados do mesmo jeito.
proof fn lemma_remover_sem_efeito<E: Entity>(
    m: Map<u128, E::V>,
    evs: Seq<AuditEntryView>,
    i: int,
    ids: spec_fn(Seq<char>) -> Option<u128>,
)
    requires
        0 <= i < evs.len(),
        efeito::<E>(reaplicar::<E>(m, evs.take(i), ids), evs[i], ids) == reaplicar::<E>(
            m,
            evs.take(i),
            ids,
        ),
    ensures
        reaplicar::<E>(m, evs, ids) == reaplicar::<E>(m, evs.remove(i), ids),
{
    let a = evs.take(i);
    let b = evs.skip(i + 1);
    assert(evs =~= a.push(evs[i]) + b);
    assert(evs.remove(i) =~= a + b);
    lemma_reaplicar_concat::<E>(m, a.push(evs[i]), b, ids);
    lemma_reaplicar_concat::<E>(m, a, b, ids);
    lemma_reaplicar_push::<E>(m, a, evs[i], ids);
}

/// Um evento recusado no replay (o que gera um aviso) nao muda nenhum
/// cache, e os eventos seguintes continuam sendo aplicados: o resultado e o
/// mesmo do replay do historico sem aquele evento.
pub proof fn lei_evento_recusado(
    inicial: EstadoCaches,
    evs: Seq<AuditEntryView>,
    i: int,
    ids: spec_fn(Seq<char>) -> Option<u128>,
)
    requires
        0 <= i < evs.len(),
        aviso(reaplicar_tudo(inicial, evs.take(i), ids), evs[i], ids) is Some,
    ensures
        reaplicar_tudo(inicial, evs, ids) == reaplicar_tudo(inicial, evs.remove(i), ids),
{
    let antes = reaplicar_tudo(inicial, evs.take(i), ids);
    lemma_recusado_nao_muda::<User>(antes.usuarios, evs[i], ids);
    lemma_recusado_nao_muda::<Cliente>(antes.clientes, evs[i], ids);
    lemma_recusado_nao_muda::<Produto>(antes.produtos, evs[i], ids);
    lemma_recusado_nao_muda::<Pedido>(antes.pedidos, evs[i], ids);
    lemma_remover_sem_efeito::<User>(inicial.usuarios, evs, i, ids);
    lemma_remover_sem_efeito::<Cliente>(inicial.clientes, evs, i, ids);
    lemma_remover_sem_efeito::<Produto>(inicial.produtos, evs, i, ids);
    lemma_remover_sem_efeito::<Pedido>(inicial.pedidos, evs, i, ids);
}

/// O ultimo evento de `E` no historico que se refere a identidade `k`.
pub open spec fn ultimo_evento<E: Entity>(
    s: Seq<AuditEntryView>,
    k: u128,
    ids: spec_fn(Seq<char>) -> Option<u128>,
) -> Option<AuditEntryView>
    decreases s.len(),
{
    if s.len() == 0 {
        None
    } else if s.last().entity == E::kind() && ids(s.last().aggregate_id) == Some(k) {
        Some(s.last())
    } else {
        ultimo_evento::<E>(s.drop_last(), k, ids)
    }
}

/// O que o cache de `E` guarda na identidade `k`, segundo o ultimo evento
/// dela: nada se nao ha evento ou se o ultimo e uma remocao; senao, o
/// agregado reconstruido do snapshot desse evento.
pub open spec fn conforme_ultimo_evento<E: Entity>(
    m: Map<u128, E::V>,
    s: Seq<AuditEntryView>,
    k: u128,
    ids: spec_fn(Seq<char>) -> Option<u128>,
) -> bool {
    match ultimo_evento::<E>(s, k, ids) {
        None => !m.contains_key(k),
        Some(e) => if e.action == AuditAction::Delete {
            !m.contains_key(k)
        } else {
            m.contains_key(k) && E::rebuild(k, e.payload, ids) == Ok::<E::V, Seq<char>>(m[k])
        },
    }
}

/// Reidratacao pelo ultimo evento: a partir de um cache vazio, se os eventos
/// de `E` sao todos aceitos (como os que o repositorio auditado grava: um
/// cadastro, atualizacoes, talvez uma remocao por identidade), cada
/// identidade termina como diz o seu ultimo evento, e identidades sem evento
/// nao aparecem.
pub proof fn lei_ultimo_evento<E: Entity>(s: Seq<AuditEntryView>, ids: spec_fn(Seq<char>) -> Option<u128>)
    requires
        sem_avisos::<E>(Map::empty(), so_do_agregado::<E>(s), ids),
    ensures
        forall|k: u128|
            conforme_ultimo_evento::<E>(#[trigger] reaplicar::<E>(Map::empty(), s, ids), s, k, ids),
    decreases s.len(),
{
    let r = reaplicar::<E>(Map::empty(), s, ids);
    if s.len() == 0 {
        assert forall|k: u128| conforme_ultimo_evento::<E>(#[trigger] reaplicar::<E>(Map::empty(), s, ids), s, k, ids) by {
        }
    } else {
        let w = s.drop_last();
        let e = s.last();
        let rw = reaplicar::<E>(Map::empty(), w, ids);
        lemma_so_do_agregado_drop_last::<E>(s);
        if e.entity == E::kind() {
            lemma_sem_avisos_drop_last::<E>(Map::empty(), so_do_agregado::<E>(s), ids);
            lemma_reaplicar_so_do_agregado::<E>(Map::empty(), w, ids);
        }
        lei_ultimo_evento::<E>(w, ids);
        assert(r == efeito::<E>(rw, e, ids));
        assert forall|k: u128| conforme_ultimo_evento::<E>(#[trigger] reaplicar::<E>(Map::empty(), s, ids), s, k, ids) by {
            assert(conforme_ultimo_evento::<E>(rw, w, k, ids));
            if e.entity == E::kind() && ids(e.aggregate_id) == Some(k) {
                assert(motivo::<E>(rw, e, ids) is None);
                assert(ultimo_evento::<E>(s, k, ids) == Some(e));
            } else {
                assert(ultimo_evento::<E>(s, k, ids) == ultimo_evento::<E>(w, k, ids));
                if e.entity == E::kind() {
                    assert(r.contains_key(k) == rw.contains_key(k));
                    if rw.contains_key(k) {
                        assert(r[k] == rw[k]);
                    }
                }
            }
        }
    }
}

/// Se o replay nao gerou aviso, nenhum evento foi recusado.
proof fn lemma_avisos_vazios(
    inicial: EstadoCaches,
    evs: Seq<AuditEntryView>,
    ids: spec_fn(Seq<char>) -> Option<u128>,
    i: int,
)
    requires
        avisos(inicial, evs, ids).len() == 0,
        0 <= i < evs.len(),
    ensures
        aviso(reaplicar_tudo(inicial, evs.take(i), ids), evs[i], ids) is None,
    decreases evs.len(),
{
    let w = evs.drop_last();
    if i == evs.len() - 1 {
        assert(evs.take(i) =~= w);
    } else {
        assert(w.take(i) =~= evs.take(i));
        assert(w[i] == evs[i]);
        lemma_avisos_vazios(inicial, w, ids, i);
    }
}

/// Se cada evento de `E` foi aceito no ponto do historico em que esta, o
/// historico de `E` e aceito sem avisos.
proof fn lemma_aceitos_sem_avisos<E: Entity>(
    m: Map<u128, E::V>,
    evs: Seq<AuditEntryView>,
    ids: spec_fn(Seq<char>) -> Option<u128>,
)
    requires
        forall|i: int|
            0 <= i < evs.len() && (#[trigger] evs[i]).entity == E::kind() ==> motivo::<E>(
                reaplicar::<E>(m, evs.take(i), ids),
                evs[i],
                ids,
            ) is None,
    ensures
        sem_avisos::<E>(m, so_do_agregado::<E>(evs), ids),
    decreases evs.len(),
{
    if evs.len() > 0 {
        let w = evs.drop_last();
        let e = evs.last();
        assert forall|i: int|
            0 <= i < w.len() && (#[trigger] w[i]).entity == E::kind() implies motivo::<E>(
            reaplicar::<E>(m, w.take(i), ids),
            w[i],
            ids,
        ) is None by {
            assert(w.take(i) =~= evs.take(i));
            assert(w[i] == evs[i]);
        }
        lemma_aceitos_sem_avisos::<E>(m, w, ids);
        lemma_so_do_agregado_drop_last::<E>(evs);
        if e.entity == E::kind() {
            let n = evs.len() - 1;
            assert(evs.take(n) =~= w);
            assert(evs[n] == e);
            lemma_reaplicar_so_do_agregado::<E>(m, w, ids);
            let f = so_do_agregado::<E>(evs);
            assert(f =~= so_do_agregado::<E>(w).push(e));
            lemma_sem_avisos_push::<E>(m, so_do_agregado::<E>(w), e, ids);
        }
    }
}

/// Um evento de `E` gravado pela propria aplicacao: identificador e snapshot
/// na forma canonica.
pub open spec fn evento_canonico<E: Entity>(e: AuditEntryView) -> bool {
    e.entity == E::kind() ==> is_canonical_text(e.aggregate_id) && (e.action != AuditAction::Delete
        ==> E::canonical_payload(e.payload))
}

/// Uma linha do arquivo de auditoria, ja lida: em branco, ilegivel, ou um
/// evento.
pub enum LinhaAuditoria {
    EmBranco,
    Malformada,
    Evento(AuditEntry),
}

pub enum LinhaAuditoriaView {
    EmBranco,
    Malformada,
    Evento(AuditEntryView),
}

impl View for LinhaAuditoria {
    type V = LinhaAuditoriaView;

    open spec fn view(&self) -> LinhaAuditoriaView {
        match self {
            LinhaAuditoria::EmBranco => LinhaAuditoriaView::EmBranco,
            LinhaAuditoria::Malformada => LinhaAuditoriaView::Malformada,
            LinhaAuditoria::Evento(e) => LinhaAuditoriaView::Evento(e@),
        }
    }
}

/// Um evento ignorado no replay, e por que.
pub struct AvisoReplay {
    pub entity: AuditEntity,
    pub aggregate_id: String,
    pub motivo: String,
}

pub struct AvisoReplayView {
    pub entity: AuditEntity,
    pub aggregate_id: Seq<char>,
    pub motivo: Seq<char>,
}

impl View for AvisoReplay {
    type V = AvisoReplayView;

    open spec fn view(&self) -> AvisoReplayView {
        AvisoReplayView { entity: self.entity, aggregate_id: self.aggregate_id@, motivo: self.motivo@ }
    }
}

/// O que o replay fez: quantos eventos reaplicou, quantas linhas ilegiveis
/// ignorou e quais eventos ignorou.
pub struct ResumoReplay {
    pub eventos_aplicados: usize,
    pub linhas_ignoradas: usize,
    pub avisos: Vec<AvisoReplay>,
}

/// Os eventos das linhas, em ordem.
pub open spec fn eventos(ls: Seq<LinhaAuditoriaView>) -> Seq<AuditEntryView>
    decreases ls.len(),
{
    if ls.len() == 0 {
        Seq::empty()
    } else {
        match ls.last() {
            LinhaAuditoriaView::Evento(e) => eventos(ls.drop_last()).push(e),
            _ => eventos(ls.drop_last()),
        }
    }
}

/// Quantas linhas sao ilegiveis.
pub open spec fn malformadas(ls: Seq<LinhaAuditoriaView>) -> nat
    decreases ls.len(),
{
    if ls.len() == 0 {
        0
    } else {
        match ls.last() {
            LinhaAuditoriaView::Malformada => malformadas(ls.drop_last()) + 1,
            _ => malformadas(ls.drop_last()),
        }
    }
}

/// O conteudo dos quatro caches.
pub struct EstadoCaches {
    pub usuarios: Map<u128, UserView>,
    pub clientes: Map<u128, ClienteView>,
    pub produtos: Map<u128, ProdutoView>,
    pub pedidos: Map<u128, PedidoView>,
}

/// Os quatro caches depois de reaplicar os eventos, cada um recebendo os
/// eventos do seu agregado.
pub open spec fn reaplicar_tudo(
    s: EstadoCaches,
    evs: Seq<AuditEntryView>,
    ids: spec_fn(Seq<char>) -> Option<u128>,
) -> EstadoCaches {
    EstadoCaches {
        usuarios: reaplicar::<User>(s.usuarios, evs, ids),
        clientes: reaplicar::<Cliente>(s.clientes, evs, ids),
        produtos: reaplicar::<Produto>(s.produtos, evs, ids),
        pedidos: reaplicar::<Pedido>(s.pedidos, evs, ids),
    }
}

/// Por que o replay ignora um evento, dado o estado dos caches.
pub open spec fn aviso(s: EstadoCaches, e: AuditEntryView, ids: spec_fn(Seq<char>) -> Option<u128>) -> Option<
    Seq<char>,
> {
    match e.entity {
        AuditEntity::Usuario => motivo::<User>(s.usuarios, e, ids),
        AuditEntity::Cliente => motivo::<Cliente>(s.clientes, e, ids),
        AuditEntity::Produto => motivo::<Produto>(s.produtos, e, ids),
        AuditEntity::Pedido => motivo::<Pedido>(s.pedidos, e, ids),
    }
}

/// Os avisos do replay dos eventos, em ordem.
pub open spec fn avisos(
    s: EstadoCaches,
    evs: Seq<AuditEntryView>,
    ids: spec_fn(Seq<char>) -> Option<u128>,
) -> Seq<AvisoReplayView>
    decreases evs.len(),
{
    if evs.len() == 0 {
        Seq::empty()
    } else {
        let e = evs.last();
        match aviso(reaplicar_tudo(s, evs.drop_last(), ids), e, ids) {
            Some(m) => avisos(s, evs.drop_last(), ids).push(
                AvisoReplayView { entity: e.entity, aggregate_id: e.aggregate_id, motivo: m },
            ),
            None => avisos(s, evs.drop_last(), ids),
        }
    }
}

/// Um evento gravado pela propria aplicacao, qualquer que seja o agregado.
pub open spec fn canonico(e: AuditEntryView) -> bool {
    &&& evento_canonico::<User>(e)
    &&& evento_canonico::<Cliente>(e)
    &&& evento_canonico::<Produto>(e)
    &&& evento_canonico::<Pedido>(e)
}

/// Os quatro caches, como um estado so.
pub open spec fn estado(
    usuarios: Map<u128, UserView>,
    clientes: Map<u128, ClienteView>,
    produtos: Map<u128, ProdutoView>,
    pedidos: Map<u128, PedidoView>,
) -> EstadoCaches {
    EstadoCaches { usuarios, clientes, produtos, pedidos }
}

/// Reconstroi o cache em memoria a partir do historico de auditoria.
pub struct AuditLogReplayer;

impl AuditLogReplayer {
    /// Le um identificador do historico; a recusa cita o texto lido.
    pub fn parse_uuid(raw: &str) -> (r: Result<u128, String>)
        ensures
            match r {
                Ok(u) => uuid_parse(raw@) == Some(u),
                Err(m) => uuid_parse(raw@) is None && m@ == motivo_uuid(raw@),
            },
            is_canonical_text(raw@) ==> uuid_parse(raw@) == canonical_uuid(raw@),
    {
        let parsed = parse_uuid(raw);
        proof {
            if is_canonical_text(raw@) {
                lemma_parse_agrees(raw@, parsed);
            }
        }
        match parsed {
            Some(u) => Ok(u),
            None => {
                let mut m = "id invalido no log de auditoria: ".to_string();
                push_str(&mut m, raw);
                Err(m)
            },
        }
    }

    /// Reaplica, em ordem, os eventos das linhas aos caches puros (sem
    /// auditoria: reaplicar o historico nao gera historico novo).
    pub fn replay(
        linhas: &Vec<LinhaAuditoria>,
        usuarios: &mut CacheRepository<User>,
        clientes: &mut CacheRepository<Cliente>,
        produtos: &mut CacheRepository<Produto>,
        pedidos: &mut CacheRepository<Pedido>,
    ) -> (r: ResumoReplay)
        ensures
            estado(final(usuarios)@, final(clientes)@, final(produtos)@, final(pedidos)@)
                == reaplicar_tudo(
                estado(old(usuarios)@, old(clientes)@, old(produtos)@, old(pedidos)@),
                eventos(views(linhas@)),
                name_parser(),
            ),
            r.eventos_aplicados == eventos(views(linhas@)).len(),
            r.linhas_ignoradas == malformadas(views(linhas@)),
            r.avisos@.len() == 0 && old(usuarios)@.is_empty() && old(clientes)@.is_empty() && old(
                produtos,
            )@.is_empty() && old(pedidos)@.is_empty() ==> {
                &&& forall|k: u128|
                    conforme_ultimo_evento::<User>(
                        final(usuarios)@,
                        eventos(views(linhas@)),
                        k,
                        name_parser(),
                    )
                &&& forall|k: u128|
                    conforme_ultimo_evento::<Cliente>(
                        final(clientes)@,
                        eventos(views(linhas@)),
                        k,
                        name_parser(),
                    )
                &&& forall|k: u128|
                    conforme_ultimo_evento::<Produto>(
                        final(produtos)@,
                        eventos(views(linhas@)),
                        k,
                        name_parser(),
                    )
                &&& forall|k: u128|
                    conforme_ultimo_evento::<Pedido>(
                        final(pedidos)@,
                        eventos(views(linhas@)),
                        k,
                        name_parser(),
                    )
            },
            views(r.avisos@) == avisos(
                estado(old(usuarios)@, old(clientes)@, old(produtos)@, old(pedidos)@),
                eventos(views(linhas@)),
                name_parser(),
            ),
            (forall|j: int|
                0 <= j < linhas@.len() ==> (#[trigger] linhas@[j]@ matches LinhaAuditoriaView::Evento(e)
                    ==> canonico(e))) ==> {
                &&& reaplicar_tudo(
                    estado(old(usuarios)@, old(clientes)@, old(produtos)@, old(pedidos)@),
                    eventos(views(linhas@)),
                    name_parser(),
                ) == reaplicar_tudo(
                    estado(old(usuarios)@, old(clientes)@, old(produtos)@, old(pedidos)@),
                    eventos(views(linhas@)),
                    canonical_parser(),
                )
                &&& avisos(
                    estado(old(usuarios)@, old(clientes)@, old(produtos)@, old(pedidos)@),
                    eventos(views(linhas@)),
                    name_parser(),
                ) == avisos(
                    estado(old(usuarios)@, old(clientes)@, old(produtos)@, old(pedidos)@),
                    eventos(views(linhas@)),
                    canonical_parser(),
                )
            },
    {
        let ghost s0 = estado(usuarios@, clientes@, produtos@, pedidos@);
        let ghost ls = views(linhas@);
        let ghost todos_canonicos = forall|j: int|
            0 <= j < linhas@.len() ==> (#[trigger] linhas@[j]@ matches LinhaAuditoriaView::Evento(e)
                ==> canonico(e));
        let mut eventos_aplicados: usize = 0;
        let mut linhas_ignoradas: usize = 0;
        let mut lista: Vec<AvisoReplay> = Vec::new();
        let n = linhas.len();
        proof {
            assert(ls.take(0) =~= Seq::<LinhaAuditoriaView>::empty());
            assert(views(lista@) =~= Seq::<AvisoReplayView>::empty());
        }
        let mut i: usize = 0;
        while i < n
            invariant
                n == linhas@.len(),
                ls == views(linhas@),
                ls.len() == n,
                i <= n,
                todos_canonicos == (forall|j: int|
                    0 <= j < linhas@.len() ==> (#[trigger] linhas@[j]@ matches LinhaAuditoriaView::Evento(
                        e,
                    ) ==> canonico(e))),
                estado(usuarios@, clientes@, produtos@, pedidos@) == reaplicar_tudo(
                    s0,
                    eventos(ls.take(i as int)),
                    name_parser(),
                ),
                eventos_aplicados == eventos(ls.take(i as int)).len(),
                eventos_aplicados <= i,
                linhas_ignoradas == malformadas(ls.take(i as int)),
                linhas_ignoradas <= i,
                views(lista@) == avisos(s0, eventos(ls.take(i as int)), name_parser()),
                todos_canonicos ==> reaplicar_tudo(s0, eventos(ls.take(i as int)), name_parser())
                    == reaplicar_tudo(s0, eventos(ls.take(i as int)), canonical_parser()),
                todos_canonicos ==> avisos(s0, eventos(ls.take(i as int)), name_parser()) == avisos(
                    s0,
                    eventos(ls.take(i as int)),
                    canonical_parser(),
                ),
            decreases n - i,
        {
            let ghost pre = ls.take(i as int);
            let ghost evs = eventos(pre);
            proof {
                assert(ls.take(i + 1).drop_last() =~= pre);
                assert(ls.take(i + 1).last() == ls[i as int]);
                assert(ls[i as int] == linhas@[i as int]@);
            }
            match &linhas[i] {
                LinhaAuditoria::EmBranco => {},
                LinhaAuditoria::Malformada => {
                    linhas_ignoradas = linhas_ignoradas + 1;
                },
                LinhaAuditoria::Evento(entry) => {
                    let ghost antes = estado(usuarios@, clientes@, produtos@, pedidos@);
                    let resultado = Self::aplicar(entry, usuarios, clientes, produtos, pedidos);
                    eventos_aplicados = eventos_aplicados + 1;
                    proof {
                        let e = entry@;
                        assert(eventos(ls.take(i + 1)) == evs.push(e));
                        assert(evs.push(e).drop_last() =~= evs);
                        if todos_canonicos {
                            assert(linhas@[i as int]@ matches LinhaAuditoriaView::Evento(x) ==> canonico(x));
                        }
                    }
                    match resultado {
                        Ok(()) => {},
                        Err(m) => {
                            let aviso = AvisoReplay {
                                entity: entry.entity,
                                aggregate_id: entry.aggregate_id.clone(),
                                motivo: m,
                            };
                            lista.push(aviso);
                            proof {
                                assert(views(lista@) =~= avisos(s0, evs, name_parser()).push(aviso@));
                            }
                        },
                    }
                },
            }
            i = i + 1;
        }
        proof {
            assert(ls.take(n as int) =~= ls);
            let evs = eventos(ls);
            let ids = name_parser();
            if lista@.len() == 0 && s0.usuarios.is_empty() && s0.clientes.is_empty()
                && s0.produtos.is_empty() && s0.pedidos.is_empty() {
                assert(avisos(s0, evs, ids).len() == 0);
                assert forall|i: int| 0 <= i < evs.len() implies aviso(
                    reaplicar_tudo(s0, evs.take(i), ids),
                    #[trigger] evs[i],
                    ids,
                ) is None by {
                    lemma_avisos_vazios(s0, evs, ids, i);
                }
                assert(s0.usuarios == Map::<u128, UserView>::empty());
                assert(s0.clientes == Map::<u128, ClienteView>::empty());
                assert(s0.produtos == Map::<u128, ProdutoView>::empty());
                assert(s0.pedidos == Map::<u128, PedidoView>::empty());
                lemma_aceitos_sem_avisos::<User>(s0.usuarios, evs, ids);
                lemma_aceitos_sem_avisos::<Cliente>(s0.clientes, evs, ids);
                lemma_aceitos_sem_avisos::<Produto>(s0.produtos, evs, ids);
                lemma_aceitos_sem_avisos::<Pedido>(s0.pedidos, evs, ids);
                lei_ultimo_evento::<User>(evs, ids);
                lei_ultimo_evento::<Cliente>(evs, ids);
                lei_ultimo_evento::<Produto>(evs, ids);
                lei_ultimo_evento::<Pedido>(evs, ids);
            }
        }
        ResumoReplay { eventos_aplicados, linhas_ignoradas, avisos: lista }
    }

    /// Reaplica um evento ao cache do agregado dele.
    pub fn aplicar(
        entry: &AuditEntry,
        usuarios: &mut CacheRepository<User>,
        clientes: &mut CacheRepository<Cliente>,
        produtos: &mut CacheRepository<Produto>,
        pedidos: &mut CacheRepository<Pedido>,
    ) -> (r: Result<(), String>)
        ensures
            final(usuarios)@ == efeito::<User>(old(usuarios)@, entry@, name_parser()),
            final(clientes)@ == efeito::<Cliente>(old(clientes)@, entry@, name_parser()),
            final(produtos)@ == efeito::<Produto>(old(produtos)@, entry@, name_parser()),
            final(pedidos)@ == efeito::<Pedido>(old(pedidos)@, entry@, name_parser()),
            match r {
                Ok(()) => aviso(
                    estado(old(usuarios)@, old(clientes)@, old(produtos)@, old(pedidos)@),
                    entry@,
                    name_parser(),
                ) is None,
                Err(m) => aviso(
                    estado(old(usuarios)@, old(clientes)@, old(produtos)@, old(pedidos)@),
                    entry@,
                    name_parser(),
                ) == Some(m@),
            },
            canonico(entry@) ==> {
                &&& efeito::<User>(old(usuarios)@, entry@, name_parser()) == efeito::<User>(
                    old(usuarios)@,
                    entry@,
                    canonical_parser(),
                )
                &&& efeito::<Cliente>(old(clientes)@, entry@, name_parser()) == efeito::<Cliente>(
                    old(clientes)@,
                    entry@,
                    canonical_parser(),
                )
                &&& efeito::<Produto>(old(produtos)@, entry@, name_parser()) == efeito::<Produto>(
                    old(produtos)@,
                    entry@,
                    canonical_parser(),
                )
                &&& efeito::<Pedido>(old(pedidos)@, entry@, name_parser()) == efeito::<Pedido>(
                    old(pedidos)@,
                    entry@,
                    canonical_parser(),
                )
                &&& aviso(
                    estado(old(usuarios)@, old(clientes)@, old(produtos)@, old(pedidos)@),
                    entry@,
                    name_parser(),
                ) == aviso(
                    estado(old(usuarios)@, old(clientes)@, old(produtos)@, old(pedidos)@),
                    entry@,
                    canonical_parser(),
                )
            },
    {
        match entry.entity {
            AuditEntity::Usuario => Self::aplicar_evento(entry, usuarios),
            AuditEntity::Cliente => Self::aplicar_evento(entry, clientes),
            AuditEntity::Produto => Self::aplicar_evento(entry, produtos),
            AuditEntity::Pedido => Self::aplicar_evento(entry, pedidos),
        }
    }

    /// Reaplica um evento de `E` ao repositorio de cache; o erro diz por que
    /// o evento foi ignorado.
    pub fn aplicar_evento<E: Entity>(entry: &AuditEntry, repo: &mut CacheRepository<E>) -> (r: Result<
        (),
        String,
    >)
        requires
            entry.entity == E::kind(),
        ensures
            final(repo)@ == efeito::<E>(old(repo)@, entry@, name_parser()),
            match r {
                Ok(()) => motivo::<E>(old(repo)@, entry@, name_parser()) is None,
                Err(m) => motivo::<E>(old(repo)@, entry@, name_parser()) == Some(m@),
            },
            evento_canonico::<E>(entry@) ==> efeito::<E>(old(repo)@, entry@, name_parser())
                == efeito::<E>(old(repo)@, entry@, canonical_parser()) && motivo::<E>(
                old(repo)@,
                entry@,
                name_parser(),
            ) == motivo::<E>(old(repo)@, entry@, canonical_parser()),
    {
        let k = match Self::parse_uuid(entry.aggregate_id.as_str()) {
            Ok(u) => u,
            Err(m) => return Err(m),
        };
        if entry.action == AuditAction::Delete {
            return match repo.delete(k) {
                Ok(()) => Ok(()),
                Err(e) => Err(e.message().to_string()),
            };
        }
        let agregado = match E::reconstruct(k, &entry.payload) {
            Ok(a) => a,
            Err(m) => return Err(m),
        };
        proof {
            E::lemma_rebuild_key(k, entry@.payload, name_parser());
        }
        let outcome = if entry.action == AuditAction::Insert || !E::aceita_update() {
            repo.save(&agregado)
        } else {
            repo.update(&agregado)
        };
        match outcome {
            Ok(()) => Ok(()),
            Err(e) => Err(e.message().to_string()),
        }
    }

    pub fn reconstruir_usuario(user_id: UserId, payload: &AuditPayload) -> (r: Result<User, String>)
        ensures
            match r {
                Ok(u) => rebuild_usuario(user_id.spec_uuid(), payload@) == Ok::<_, Seq<char>>(u@),
                Err(m) => rebuild_usuario(user_id.spec_uuid(), payload@) == Err::<
                    crate::domain::user::UserView,
                    _,
                >(m@),
            },
            r matches Ok(u) ==> (*payload matches AuditPayload::Usuario { email, password_hash, role }
                && u@.id == user_id.spec_uuid() && spec_parse_email(email@) == Ok::<
                Seq<char>,
                DomainError,
            >(u@.email) && u@.password_hash == password_hash@ && Role::spec_parse(role@) == Some(
                u@.role,
            )),
    {
        let (email, password_hash, role) = match payload {
            AuditPayload::Usuario { email, password_hash, role } => (email, password_hash, role),
            _ => return Err("payload de usuario ausente ou invalido".to_string()),
        };
        let email = match Email::parse(email.as_str()) {
            Ok(e) => e,
            Err(erro) => return Err(erro.message().to_string()),
        };
        let hashed = HashedPassword::from_hash(password_hash.clone());
        let role = match Role::parse(role.as_str()) {
            Some(r) => r,
            None => return Err("role desconhecida no replay".to_string()),
        };
        Ok(User::reconstitute(user_id, email, hashed, role))
    }

    pub fn reconstruir_cliente(id: ClienteId, payload: &AuditPayload) -> (r: Result<Cliente, String>)
        ensures
            match r {
                Ok(c) => rebuild_cliente(id.spec_uuid(), payload@) == Ok::<_, Seq<char>>(c@),
                Err(m) => rebuild_cliente(id.spec_uuid(), payload@) == Err::<
                    crate::domain::cliente::ClienteView,
                    _,
                >(m@),
            },
            r matches Ok(c) ==> (*payload matches AuditPayload::Cliente { nome, documento, email }
                && c@.id == id.spec_uuid() && spec_parse_nome(nome@) == Ok::<Seq<char>, DomainError>(
                c@.nome,
            ) && spec_parse_cpf(documento@) == Ok::<Seq<char>, DomainError>(c@.documento)
                && spec_parse_email(email@) == Ok::<Seq<char>, DomainError>(c@.email)),
    {
        let (nome, documento, email) = match payload {
            AuditPayload::Cliente { nome, documento, email } => (nome, documento, email),
            _ => return Err("payload de cliente ausente ou invalido".to_string()),
        };
        let nome = match Nome::parse(nome.as_str()) {
            Ok(n) => n,
            Err(erro) => return Err(erro.message().to_string()),
        };
        let documento = match Cpf::parse(documento.as_str()) {
            Ok(d) => d,
            Err(erro) => return Err(erro.message().to_string()),
        };
        let email = match Email::parse(email.as_str()) {
            Ok(e) => e,
            Err(erro) => return Err(erro.message().to_string()),
        };
        Ok(Cliente::reconstitute(id, nome, documento, email))
    }

    pub fn reconstruir_produto(id: ProdutoId, payload: &AuditPayload) -> (r: Result<Produto, String>)
        ensures
            match r {
                Ok(p) => rebuild_produto(id.spec_uuid(), payload@) == Ok::<_, Seq<char>>(p@),
                Err(m) => rebuild_produto(id.spec_uuid(), payload@) == Err::<
                    crate::domain::produto::ProdutoView,
                    _,
                >(m@),
            },
            r matches Ok(p) ==> (*payload matches AuditPayload::Produto { nome, preco_centavos }
                && p@.id == id.spec_uuid() && spec_parse_nome(nome@) == Ok::<Seq<char>, DomainError>(
                p@.nome,
            ) && p@.preco == preco_centavos),
    {
        let (nome, preco_centavos) = match payload {
            AuditPayload::Produto { nome, preco_centavos } => (nome, *preco_centavos),
            _ => return Err("payload de produto ausente ou invalido".to_string()),
        };
        let nome = match Nome::parse(nome.as_str()) {
            Ok(n) => n,
            Err(erro) => return Err(erro.message().to_string()),
        };
        let preco = match Dinheiro::from_centavos(preco_centavos) {
            Ok(d) => d,
            Err(erro) => return Err(erro.message().to_string()),
        };
        Ok(Produto::reconstitute(id, nome, preco))
    }

    pub fn reconstruir_item(snapshot: &ItemPedidoSnapshot) -> (r: Result<ItemPedido, String>)
        ensures
            match r {
                Ok(i) => rebuild_item(snapshot@, name_parser()) == Ok::<_, Seq<char>>(i@),
                Err(m) => rebuild_item(snapshot@, name_parser()) == Err::<
                    crate::domain::pedido::ItemPedidoView,
                    _,
                >(m@),
            },
            is_canonical_text(snapshot@.produto_id) ==> rebuild_item(snapshot@, name_parser())
                == rebuild_item(snapshot@, canonical_parser()),
            r matches Ok(i) ==> {
                &&& uuid_parse(snapshot.produto_id@) == Some(i@.produto_id)
                &&& spec_parse_nome(snapshot.nome_produto@) == Ok::<Seq<char>, DomainError>(
                    i@.nome_produto,
                )
                &&& i@.quantidade == snapshot.quantidade
                &&& i@.valor_unitario == snapshot.valor_unitario_centavos
                &&& i@.valor_total == snapshot.valor_total_centavos
            },
    {
        let produto_id = match Self::parse_uuid(snapshot.produto_id.as_str()) {
            Ok(u) => ProdutoId::from_uuid(u),
            Err(m) => return Err(m),
        };
        let nome_produto = match Nome::parse(snapshot.nome_produto.as_str()) {
            Ok(n) => n,
            Err(erro) => return Err(erro.message().to_string()),
        };
        let quantidade = match Quantidade::parse(snapshot.quantidade) {
            Ok(q) => q,
            Err(erro) => return Err(erro.message().to_string()),
        };
        let valor_unitario = match Dinheiro::from_centavos(snapshot.valor_unitario_centavos) {
            Ok(d) => d,
            Err(erro) => return Err(erro.message().to_string()),
        };
        let valor_total = match Dinheiro::from_centavos(snapshot.valor_total_centavos) {
            Ok(d) => d,
            Err(erro) => return Err(erro.message().to_string()),
        };
        Ok(ItemPedido::reconstitute(produto_id, nome_produto, quantidade, valor_unitario, valor_total))
    }

    /// Reconstroi os itens na ordem do snapshot, parando no primeiro recusado.
    pub fn reconstruir_itens(itens: &Vec<ItemPedidoSnapshot>) -> (r: Result<Vec<ItemPedido>, String>)
        ensures
            match r {
                Ok(v) => rebuild_items(snapshot_views(itens@), name_parser()) == Ok::<_, Seq<char>>(
                    item_views(v@),
                ),
                Err(m) => rebuild_items(snapshot_views(itens@), name_parser()) == Err::<
                    Seq<crate::domain::pedido::ItemPedidoView>,
                    _,
                >(m@),
            },
            (forall|k: int|
                0 <= k < itens@.len() ==> is_canonical_text(#[trigger] snapshot_views(itens@)[k].produto_id))
                ==> rebuild_items(snapshot_views(itens@), name_parser()) == rebuild_items(
                snapshot_views(itens@),
                canonical_parser(),
            ),
    {
        let ghost snaps: Seq<ItemPedidoSnapshotView> = snapshot_views(itens@);
        let ghost canonical: bool = forall|k: int|
            0 <= k < itens@.len() ==> is_canonical_text(#[trigger] snapshot_views(itens@)[k].produto_id);
        let n = itens.len();
        let mut reconstruidos: Vec<ItemPedido> = Vec::new();
        proof {
            assert(snaps.subrange(0, 0) =~= Seq::<ItemPedidoSnapshotView>::empty());
            assert(item_views(reconstruidos@) =~= Seq::<crate::domain::pedido::ItemPedidoView>::empty());
        }
        let mut i: usize = 0;
        while i < n
            invariant
                n == itens@.len(),
                snaps == snapshot_views(itens@),
                snaps.len() == n,
                i <= n,
                rebuild_items(snaps.subrange(0, i as int), name_parser()) == Ok::<_, Seq<char>>(
                    item_views(reconstruidos@),
                ),
                canonical == (forall|k: int| 0 <= k < n ==> is_canonical_text(#[trigger] snaps[k].produto_id)),
                canonical ==> forall|k: int|
                    0 <= k < i ==> rebuild_item(#[trigger] snaps[k], name_parser()) == rebuild_item(
                        snaps[k],
                        canonical_parser(),
                    ),
            decreases n - i,
        {
            let item = Self::reconstruir_item(&itens[i]);
            proof {
                assert(snaps[i as int] == itens@[i as int]@);
                assert(snaps.subrange(0, i + 1).drop_last() =~= snaps.subrange(0, i as int));
                assert(snaps.subrange(0, i + 1).last() == snaps[i as int]);
                if canonical {
                    assert(is_canonical_text(snaps[i as int].produto_id));
                }
            }
            match item {
                Ok(x) => {
                    proof {
                        assert(item_views(reconstruidos@.push(x)) =~= item_views(reconstruidos@).push(
                            x@,
                        ));
                    }
                    reconstruidos.push(x);
                },
                Err(m) => {
                    proof {
                        lemma_rebuild_items_prefix_err(snaps, name_parser(), i + 1);
                        if canonical {
                            let pre = snaps.subrange(0, i + 1);
                            assert forall|j: int| 0 <= j < pre.len() implies rebuild_item(
                                #[trigger] pre[j],
                                name_parser(),
                            ) == rebuild_item(pre[j], canonical_parser()) by {
                                assert(pre[j] == snaps[j]);
                            }
                            lemma_rebuild_items_agree(pre, name_parser(), canonical_parser());
                            lemma_rebuild_items_prefix_err(snaps, canonical_parser(), i + 1);
                        }
                    }
                    return Err(m);
                },
            }
            i = i + 1;
        }
        proof {
            assert(snaps.subrange(0, n as int) =~= snaps);
            if canonical {
                lemma_rebuild_items_agree(snaps, name_parser(), canonical_parser());
            }
        }
        Ok(reconstruidos)
    }

    pub fn reconstruir_pedido(id: PedidoId, payload: &AuditPayload) -> (r: Result<Pedido, String>)
        ensures
            match r {
                Ok(p) => rebuild_pedido(id.spec_uuid(), payload@, name_parser()) == Ok::<_, Seq<char>>(
                    p@,
                ),
                Err(m) => rebuild_pedido(id.spec_uuid(), payload@, name_parser()) == Err::<
                    crate::domain::pedido::PedidoView,
                    _,
                >(m@),
            },
            canonical_pedido_payload(payload@) ==> rebuild_pedido(
                id.spec_uuid(),
                payload@,
                name_parser(),
            ) == rebuild_pedido(id.spec_uuid(), payload@, canonical_parser()),
            r matches Ok(p) ==> (*payload matches AuditPayload::Pedido {
                cliente_id,
                itens,
                valor_total_centavos,
            } && p@.id == id.spec_uuid() && uuid_parse(cliente_id@) == Some(p@.cliente_id)
                && p@.valor_total == valor_total_centavos && p@.itens.len() == itens@.len()
                && forall|k: int|
                0 <= k < itens@.len() ==> rebuild_item(#[trigger] itens@[k]@, name_parser()) == Ok::<
                    crate::domain::pedido::ItemPedidoView,
                    Seq<char>,
                >(p@.itens[k])),
    {
        let (cliente_id, itens, valor_total_centavos) = match payload {
            AuditPayload::Pedido { cliente_id, itens, valor_total_centavos } => (
                cliente_id,
                itens,
                *valor_total_centavos,
            ),
            _ => return Err("payload de pedido ausente ou invalido".to_string()),
        };
        let ghost snaps = itens@;
        let cliente_id = match Self::parse_uuid(cliente_id.as_str()) {
            Ok(u) => ClienteId::from_uuid(u),
            Err(m) => return Err(m),
        };
        let itens = match Self::reconstruir_itens(itens) {
            Ok(v) => v,
            Err(m) => return Err(m),
        };
        let valor_total = match Dinheiro::from_centavos(valor_total_centavos) {
            Ok(d) => d,
            Err(erro) => return Err(erro.message().to_string()),
        };
        let pedido = Pedido::reconstitute(id, cliente_id, itens, valor_total);
        proof {
            lei_reconstrucao_do_pedido(id.spec_uuid(), payload@, name_parser());
            assert forall|k: int| 0 <= k < snaps.len() implies (#[trigger] snaps[k])@ == snapshot_views(
                snaps,
            )[k] by {}
        }
        Ok(pedido)
    }
}

} // verus!
