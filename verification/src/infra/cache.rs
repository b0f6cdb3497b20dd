//! Repositorio em memoria (cache), um por agregado, guardado por identidade.
use vstd::prelude::*;

use std::collections::HashMap;

use crate::domain::cliente::{Cliente, ClienteView};
use crate::domain::cpf::Cpf;
use crate::domain::email::Email;
use crate::domain::errors::DomainError;
use crate::domain::user::{User, UserView};
use crate::text::same_text;
use crate::domain::repository::{lista_completa, views};
use crate::infra::entity::{key_fn, Entity};
use vstd::std_specs::hash::spec_hash_map_iter;
use vstd::std_specs::iter::IteratorSpec;

verus! {

broadcast use vstd::std_specs::hash::group_hash_axioms;

/// Depois de um cadastro ou atualizacao aceitos, a busca pela identidade
/// devolve o agregado escrito, e as demais identidades nao mudam.
pub proof fn lei_busca_apos_escrita<V>(antes: Map<u128, V>, depois: Map<u128, V>, k: u128, v: V)
    requires
        depois == antes.insert(k, v),
    ensures
        depois.contains_key(k) && depois[k] == v,
        forall|j: u128| j != k ==> (#[trigger] depois.contains_key(j) == antes.contains_key(j) && (
        antes.contains_key(j) ==> depois[j] == antes[j])),
{
}

/// Depois de uma remocao aceita, a busca pela identidade nao acha nada, e as
/// demais identidades nao mudam.
pub proof fn lei_busca_apos_remocao<V>(antes: Map<u128, V>, depois: Map<u128, V>, k: u128)
    requires
        depois == antes.remove(k),
    ensures
        !depois.contains_key(k),
        forall|j: u128| j != k ==> (#[trigger] depois.contains_key(j) == antes.contains_key(j) && (
        antes.contains_key(j) ==> depois[j] == antes[j])),
{
}

/// Guarda agregados em memoria, indexados pela identidade.
pub struct CacheRepository<E: Entity> {
    store: HashMap<u128, E>,
}

impl<E: Entity> View for CacheRepository<E> {
    type V = Map<u128, E::V>;

    closed spec fn view(&self) -> Map<u128, E::V> {
        self.store@.map_values(|e: E| e@)
    }
}

impl<E: Entity> CacheRepository<E> {
    /// Cada agregado esta guardado sob a propria identidade e e valido.
    #[verifier::type_invariant]
    spec fn consistente(self) -> bool {
        forall|k: u128|
            #[trigger] self.store@.contains_key(k) ==> E::key_of(self.store@[k]@) == k && E::wf(
                self.store@[k]@,
            )
    }

    /// Repositorio vazio.
    pub fn new() -> (r: Self)
        ensures
            r@ == Map::<u128, E::V>::empty(),
    {
        let r = CacheRepository { store: HashMap::new() };
        assert(r@ =~= Map::<u128, E::V>::empty());
        r
    }

    /// Guarda um agregado novo; recusa uma identidade ja usada.
    pub fn save(&mut self, e: &E) -> (r: Result<(), DomainError>)
        ensures
            match r {
                Ok(()) => !old(self)@.contains_key(E::key_of(e@)) && final(self)@ == old(self)@.insert(
                    E::key_of(e@),
                    e@,
                ),
                Err(x) => old(self)@.contains_key(E::key_of(e@)) && x == E::spec_already_exists()
                    && final(self)@ == old(self)@,
            },
    {
        proof {
            use_type_invariant(&*self);
        }
        let k = e.key();
        if self.store.contains_key(&k) {
            return Err(E::already_exists());
        }
        let mut store = HashMap::new();
        std::mem::swap(&mut store, &mut self.store);
        store.insert(k, e.duplicate());
        self.store = store;
        assert(self@ =~= old(self)@.insert(k, e@));
        Ok(())
    }

    /// Substitui um agregado existente; recusa uma identidade desconhecida.
    pub fn update(&mut self, e: &E) -> (r: Result<(), DomainError>)
        ensures
            match r {
                Ok(()) => old(self)@.contains_key(E::key_of(e@)) && final(self)@ == old(self)@.insert(
                    E::key_of(e@),
                    e@,
                ),
                Err(x) => !old(self)@.contains_key(E::key_of(e@)) && x == E::spec_not_found()
                    && final(self)@ == old(self)@,
            },
    {
        proof {
            use_type_invariant(&*self);
        }
        let k = e.key();
        if !self.store.contains_key(&k) {
            return Err(E::not_found());
        }
        let mut store = HashMap::new();
        std::mem::swap(&mut store, &mut self.store);
        store.insert(k, e.duplicate());
        self.store = store;
        assert(self@ =~= old(self)@.insert(k, e@));
        Ok(())
    }

    /// Remove o agregado com a identidade dada; recusa uma identidade
    /// desconhecida.
    pub fn delete(&mut self, k: u128) -> (r: Result<(), DomainError>)
        ensures
            match r {
                Ok(()) => old(self)@.contains_key(k) && final(self)@ == old(self)@.remove(k),
                Err(x) => !old(self)@.contains_key(k) && x == E::spec_not_found() && final(self)@
                    == old(self)@,
            },
    {
        proof {
            use_type_invariant(&*self);
        }
        let mut store = HashMap::new();
        std::mem::swap(&mut store, &mut self.store);
        let removed = store.remove(&k);
        self.store = store;
        match removed {
            Some(_) => {
                assert(self@ =~= old(self)@.remove(k));
                Ok(())
            },
            None => {
                assert(self@ =~= old(self)@);
                Err(E::not_found())
            },
        }
    }

    /// Uma copia do agregado com a identidade dada, se houver.
    pub fn find_by_id(&self, k: u128) -> (r: Option<E>)
        ensures
            match r {
                Some(e) => self@.contains_key(k) && e@ == self@[k] && E::key_of(e@) == k,
                None => !self@.contains_key(k),
            },
    {
        proof {
            use_type_invariant(self);
        }
        match self.store.get(&k) {
            Some(e) => Some(e.duplicate()),
            None => None,
        }
    }

    /// Uma copia de cada agregado guardado, em alguma ordem.
    pub fn list_all(&self) -> (r: Vec<E>)
        ensures
            lista_completa(views(r@), self@, key_fn::<E>()),
    {
        proof {
            use_type_invariant(self);
        }
        let ghost m = self.store@;
        let ghost items = spec_hash_map_iter(&self.store).remaining();
        let entries = self.store.iter();
        assert(entries.remaining() == items);
        assert(items.no_duplicates());
        let mut out: Vec<E> = Vec::new();
        for pair in it: entries
            invariant
                m == self.store@,
                items == spec_hash_map_iter(&self.store).remaining(),
                it.seq() == items,
                out@.len() == it.index(),
                forall|i: int| 0 <= i < it.index() ==> (#[trigger] out@[i])@ == (*items[i].1)@,
        {
            let (_, e) = pair;
            out.push(e.duplicate());
        }
        assert(out@.len() == items.len());
        proof {
            let l = views(out@);
            let v = self@;
            assert(v.dom() =~= m.dom());
            assert(l.len() == v.dom().len());
            assert forall|i: int| 0 <= i < l.len() implies v.contains_key(E::key_of(#[trigger] l[i]))
                && v[E::key_of(l[i])] == l[i] && E::key_of(l[i]) == *items[i].0 by {
                assert(m.contains_key(*items[i].0));
                assert(m[*items[i].0] == *items[i].1);
                assert(out@[i]@ == (*items[i].1)@);
            }
            assert forall|i: int, j: int|
                0 <= i < l.len() && 0 <= j < l.len() && i != j implies key_fn::<E>()(#[trigger] l[i])
                != key_fn::<E>()(#[trigger] l[j]) by {
                if E::key_of(l[i]) == E::key_of(l[j]) {
                    assert(m[*items[i].0] == *items[i].1);
                    assert(m[*items[j].0] == *items[j].1);
                    assert(items[i] == items[j]);
                }
            }
            assert forall|k: u128| #[trigger] v.contains_key(k) implies exists|i: int|
                0 <= i < l.len() && key_fn::<E>()(l[i]) == k by {
                assert(m.contains_key(k));
                assert(items.contains((&k, &m[k])));
                let i = choose|i: int| 0 <= i < items.len() && items[i] == (&k, &m[k]);
                assert(key_fn::<E>()(l[i]) == k);
            }
        }
        out
    }

    /// O primeiro agregado, na ordem de percurso, que satisfaz `matches`.
    fn find_by_predicate<F: Fn(&E) -> bool>(&self, matches: F, Ghost(p): Ghost<spec_fn(E::V) -> bool>) -> (r:
        Option<E>)
        requires
            forall|e: &E| #[trigger] matches.requires((e,)),
            forall|e: &E, b: bool| matches.ensures((e,), b) ==> b == p(e@),
        ensures
            match r {
                Some(e) => self@.contains_key(E::key_of(e@)) && self@[E::key_of(e@)] == e@ && p(e@),
                None => forall|k: u128| #[trigger] self@.contains_key(k) ==> !p(self@[k]),
            },
    {
        proof {
            use_type_invariant(self);
        }
        let ghost m = self.store@;
        let ghost items = spec_hash_map_iter(&self.store).remaining();
        let entries = self.store.iter();
        assert(entries.remaining() == items);
        for pair in it: entries
            invariant
                m == self.store@,
                items == spec_hash_map_iter(&self.store).remaining(),
                it.seq() == items,
                forall|e: &E| #[trigger] matches.requires((e,)),
                forall|e: &E, b: bool| matches.ensures((e,), b) ==> b == p(e@),
                forall|i: int| 0 <= i < it.index() ==> !p((#[trigger] items[i]).1@),
                forall|k: u128| #[trigger] m.contains_key(k) ==> E::key_of(m[k]@) == k,
        {
            let (_, e) = pair;
            if matches(e) {
                assert(pair == items[it.index() as int]);
                assert(m.contains_key(*items[it.index() as int].0));
                return Some(e.duplicate());
            }
        }
        proof {
            assert forall|k: u128| #[trigger] self@.contains_key(k) implies !p(self@[k]) by {
                assert(m.contains_key(k));
                assert(items.contains((&k, &m[k])));
            }
        }
        None
    }
}

impl<E: Entity> Default for CacheRepository<E> {
    /// Repositorio vazio.
    fn default() -> (r: Self)
        ensures
            r@ == Map::<u128, E::V>::empty(),
    {
        CacheRepository::new()
    }
}

impl CacheRepository<Cliente> {
    /// Algum cliente com este documento, se houver.
    pub fn find_by_documento(&self, documento: &Cpf) -> (r: Option<Cliente>)
        ensures
            match r {
                Some(c) => self@.contains_key(c@.id) && self@[c@.id] == c@ && c@.documento == documento@,
                None => forall|k: u128| #[trigger] self@.contains_key(k) ==> self@[k].documento != documento@,
            },
    {
        self.find_by_predicate(
            (|c: &Cliente| -> (b: bool)
                ensures
                    b == (c@.documento == documento@),
                { same_text(c.documento().as_str(), documento.as_str()) }),
            Ghost(|v: ClienteView| v.documento == documento@),
        )
    }
}

impl CacheRepository<User> {
    /// Algum usuario com este email, se houver.
    pub fn find_by_email(&self, email: &Email) -> (r: Option<User>)
        ensures
            match r {
                Some(u) => self@.contains_key(u@.id) && self@[u@.id] == u@ && u@.email == email@,
                None => forall|k: u128| #[trigger] self@.contains_key(k) ==> self@[k].email != email@,
            },
    {
        self.find_by_predicate(
            (|u: &User| -> (b: bool)
                ensures
                    b == (u@.email == email@),
                { same_text(u.email().as_str(), email.as_str()) }),
            Ghost(|v: UserView| v.email == email@),
        )
    }
}

} // verus!
