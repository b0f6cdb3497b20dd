//! Decorador de auditoria: toda escrita aceita pelo cache vira um registro
//! com o estado completo do agregado; escritas recusadas nao geram registro.
use vstd::prelude::*;

use crate::application::audit_logger::{
    AuditAction, AuditEntry, AuditEntryView, AuditPayload, AuditPayloadView,
};
use crate::domain::cliente::Cliente;
use crate::domain::cpf::Cpf;
use crate::domain::email::Email;
use crate::domain::errors::DomainError;
use crate::domain::repository::{lista_completa, views};
use crate::domain::user::User;
use crate::ids::{lemma_canonical_uuid_text, uuid_text, uuid_to_string};
use crate::infra::audit_log_replayer::{
    efeito, evento_canonico, lemma_reaplicar_push, lemma_sem_avisos_push, motivo, reaplicar,
    sem_avisos,
};
use crate::infra::cache::CacheRepository;
use crate::infra::entity::{canonical_parser, key_fn, Entity};

verus! {

/// O registro de uma escrita (cadastro ou atualizacao) de `v`.
pub open spec fn registro_de<E: Entity>(v: E::V, action: AuditAction) -> AuditEntryView {
    AuditEntryView {
        entity: E::kind(),
        action,
        aggregate_id: uuid_text(E::key_of(v)),
        payload: E::payload_of(v),
    }
}

/// O registro da remocao do agregado `k`.
pub open spec fn registro_de_remocao<E: Entity>(k: u128) -> AuditEntryView {
    AuditEntryView {
        entity: E::kind(),
        action: AuditAction::Delete,
        aggregate_id: uuid_text(k),
        payload: AuditPayloadView::Removido,
    }
}

/// Reaplicar o registro de um cadastro aceito refaz o cadastro, sem aviso.
pub proof fn lemma_registro_de_cadastro<E: Entity>(m: Map<u128, E::V>, v: E::V)
    requires
        E::wf(v),
        !m.contains_key(E::key_of(v)),
    ensures
        efeito::<E>(m, registro_de::<E>(v, AuditAction::Insert), canonical_parser()) == m.insert(
            E::key_of(v),
            v,
        ),
        motivo::<E>(m, registro_de::<E>(v, AuditAction::Insert), canonical_parser()) is None,
        evento_canonico::<E>(registro_de::<E>(v, AuditAction::Insert)),
{
    lemma_canonical_uuid_text(E::key_of(v));
    E::lemma_rebuild_payload(v);
}

/// Reaplicar o registro de uma atualizacao aceita refaz a atualizacao, sem
/// aviso.
pub proof fn lemma_registro_de_atualizacao<E: Entity>(m: Map<u128, E::V>, v: E::V)
    requires
        E::wf(v),
        E::spec_aceita_update(),
        m.contains_key(E::key_of(v)),
    ensures
        efeito::<E>(m, registro_de::<E>(v, AuditAction::Update), canonical_parser()) == m.insert(
            E::key_of(v),
            v,
        ),
        motivo::<E>(m, registro_de::<E>(v, AuditAction::Update), canonical_parser()) is None,
        evento_canonico::<E>(registro_de::<E>(v, AuditAction::Update)),
{
    lemma_canonical_uuid_text(E::key_of(v));
    E::lemma_rebuild_payload(v);
}

/// Reaplicar o registro de uma remocao aceita refaz a remocao, sem aviso.
pub proof fn lemma_registro_de_remocao<E: Entity>(m: Map<u128, E::V>, k: u128)
    requires
        m.contains_key(k),
    ensures
        efeito::<E>(m, registro_de_remocao::<E>(k), canonical_parser()) == m.remove(k),
        motivo::<E>(m, registro_de_remocao::<E>(k), canonical_parser()) is None,
        evento_canonico::<E>(registro_de_remocao::<E>(k)),
{
    lemma_canonical_uuid_text(k);
}

/// Repositorio de cache decorado com auditoria. Os registros ficam na trilha
/// ate que alguem os retire (`take_registros`) para grava-los.
pub struct AuditedRepository<E: Entity> {
    inner: CacheRepository<E>,
    registros: Vec<AuditEntry>,
    base: Ghost<Map<u128, E::V>>,
}

impl<E: Entity> AuditedRepository<E> {
    /// Os agregados guardados.
    pub closed spec fn conteudo(&self) -> Map<u128, E::V> {
        self.inner@
    }

    /// Os registros ainda nao retirados, em ordem.
    pub closed spec fn registros(&self) -> Seq<AuditEntryView> {
        views(self.registros@)
    }

    /// O conteudo quando a trilha atual comecou.
    pub closed spec fn base(&self) -> Map<u128, E::V> {
        self.base@
    }

    /// A trilha descreve o que aconteceu desde a base: reaplicada sobre a
    /// base, cada registro e aceito sem aviso e o resultado e o conteudo
    /// atual. Vale para todo repositorio auditado, o tempo todo.
    #[verifier::type_invariant]
    pub open spec fn coerente(&self) -> bool {
        &&& reaplicar::<E>(self.base(), self.registros(), canonical_parser()) == self.conteudo()
        &&& sem_avisos::<E>(self.base(), self.registros(), canonical_parser())
        &&& forall|i: int|
            0 <= i < self.registros().len() ==> evento_canonico::<E>(#[trigger] self.registros()[i])
                && self.registros()[i].entity == E::kind()
    }

    /// Decora um cache; a trilha comeca vazia.
    pub fn new(inner: CacheRepository<E>) -> (r: Self)
        ensures
            r.conteudo() == inner@,
            r.base() == inner@,
            r.registros() == Seq::<AuditEntryView>::empty(),
    {
        let ghost b = inner@;
        let registros: Vec<AuditEntry> = Vec::new();
        assert(views(registros@) =~= Seq::<AuditEntryView>::empty());
        assert(sem_avisos::<E>(b, views(registros@), canonical_parser()));
        AuditedRepository { inner, registros, base: Ghost(b) }
    }

    /// Um repositorio vazio, para ocupar o lugar de outro durante uma escrita.
    fn vazio() -> (r: Self)
        ensures
            r.conteudo() == Map::<u128, E::V>::empty(),
    {
        AuditedRepository::new(CacheRepository::new())
    }

    fn entry_for(e: &E, action: AuditAction) -> (r: AuditEntry)
        ensures
            r@ == registro_de::<E>(e@, action),
            E::wf(e@),
    {
        AuditEntry::new(E::kind_exec(), action, uuid_to_string(e.key()), e.payload())
    }

    fn deletion_entry_for(k: u128) -> (r: AuditEntry)
        ensures
            r@ == registro_de_remocao::<E>(k),
    {
        AuditEntry::new(E::kind_exec(), AuditAction::Delete, uuid_to_string(k), AuditPayload::Removido)
    }

    /// Cadastra no cache e, se aceito, registra um `Insert`.
    pub fn save(&mut self, e: &E) -> (r: Result<(), DomainError>)
        ensures
            match r {
                Ok(()) => {
                    &&& !old(self).conteudo().contains_key(E::key_of(e@))
                    &&& final(self).conteudo() == old(self).conteudo().insert(E::key_of(e@), e@)
                    &&& final(self).registros() == old(self).registros().push(
                        registro_de::<E>(e@, AuditAction::Insert),
                    )
                },
                Err(x) => {
                    &&& x == E::spec_already_exists()
                    &&& old(self).conteudo().contains_key(E::key_of(e@))
                    &&& final(self).conteudo() == old(self).conteudo()
                    &&& final(self).registros() == old(self).registros()
                },
            },
            final(self).base() == old(self).base(),
    {
        proof {
            use_type_invariant(&*self);
        }
        let mut atual = Self::vazio();
        std::mem::swap(self, &mut atual);
        let AuditedRepository { mut inner, mut registros, base } = atual;
        match inner.save(e) {
            Ok(()) => {},
            Err(x) => {
                *self = AuditedRepository { inner, registros, base };
                return Err(x);
            },
        }
        let entry = Self::entry_for(e, AuditAction::Insert);
        registros.push(entry);
        proof {
            let old_regs = old(self).registros();
            let novo = registro_de::<E>(e@, AuditAction::Insert);
            assert(views(registros@) =~= old_regs.push(novo));
            lemma_registro_de_cadastro::<E>(old(self).conteudo(), e@);
            lemma_reaplicar_push::<E>(base@, old_regs, novo, canonical_parser());
            lemma_sem_avisos_push::<E>(base@, old_regs, novo, canonical_parser());
            assert forall|i: int| 0 <= i < views(registros@).len() implies evento_canonico::<E>(
                #[trigger] views(registros@)[i],
            ) && views(registros@)[i].entity == E::kind() by {
                if i < old_regs.len() {
                    assert(views(registros@)[i] == old_regs[i]);
                }
            }
        }
        *self = AuditedRepository { inner, registros, base };
        Ok(())
    }

    /// Atualiza no cache e, se aceito, registra um `Update`.
    pub fn update(&mut self, e: &E) -> (r: Result<(), DomainError>)
        requires
            E::spec_aceita_update(),
        ensures
            match r {
                Ok(()) => {
                    &&& old(self).conteudo().contains_key(E::key_of(e@))
                    &&& final(self).conteudo() == old(self).conteudo().insert(E::key_of(e@), e@)
                    &&& final(self).registros() == old(self).registros().push(
                        registro_de::<E>(e@, AuditAction::Update),
                    )
                },
                Err(x) => {
                    &&& x == E::spec_not_found()
                    &&& !old(self).conteudo().contains_key(E::key_of(e@))
                    &&& final(self).conteudo() == old(self).conteudo()
                    &&& final(self).registros() == old(self).registros()
                },
            },
            final(self).base() == old(self).base(),
    {
        proof {
            use_type_invariant(&*self);
        }
        let mut atual = Self::vazio();
        std::mem::swap(self, &mut atual);
        let AuditedRepository { mut inner, mut registros, base } = atual;
        match inner.update(e) {
            Ok(()) => {},
            Err(x) => {
                *self = AuditedRepository { inner, registros, base };
                return Err(x);
            },
        }
        let entry = Self::entry_for(e, AuditAction::Update);
        registros.push(entry);
        proof {
            let old_regs = old(self).registros();
            let novo = registro_de::<E>(e@, AuditAction::Update);
            assert(views(registros@) =~= old_regs.push(novo));
            lemma_registro_de_atualizacao::<E>(old(self).conteudo(), e@);
            lemma_reaplicar_push::<E>(base@, old_regs, novo, canonical_parser());
            lemma_sem_avisos_push::<E>(base@, old_regs, novo, canonical_parser());
            assert forall|i: int| 0 <= i < views(registros@).len() implies evento_canonico::<E>(
                #[trigger] views(registros@)[i],
            ) && views(registros@)[i].entity == E::kind() by {
                if i < old_regs.len() {
                    assert(views(registros@)[i] == old_regs[i]);
                }
            }
        }
        *self = AuditedRepository { inner, registros, base };
        Ok(())
    }

    /// Remove do cache e, se aceito, registra um `Delete`.
    pub fn delete(&mut self, k: u128) -> (r: Result<(), DomainError>)
        ensures
            match r {
                Ok(()) => {
                    &&& old(self).conteudo().contains_key(k)
                    &&& final(self).conteudo() == old(self).conteudo().remove(k)
                    &&& final(self).registros() == old(self).registros().push(
                        registro_de_remocao::<E>(k),
                    )
                },
                Err(x) => {
                    &&& x == E::spec_not_found()
                    &&& !old(self).conteudo().contains_key(k)
                    &&& final(self).conteudo() == old(self).conteudo()
                    &&& final(self).registros() == old(self).registros()
                },
            },
            final(self).base() == old(self).base(),
    {
        proof {
            use_type_invariant(&*self);
        }
        let mut atual = Self::vazio();
        std::mem::swap(self, &mut atual);
        let AuditedRepository { mut inner, mut registros, base } = atual;
        match inner.delete(k) {
            Ok(()) => {},
            Err(x) => {
                *self = AuditedRepository { inner, registros, base };
                return Err(x);
            },
        }
        let entry = Self::deletion_entry_for(k);
        registros.push(entry);
        proof {
            let old_regs = old(self).registros();
            let novo = registro_de_remocao::<E>(k);
            assert(views(registros@) =~= old_regs.push(novo));
            lemma_registro_de_remocao::<E>(old(self).conteudo(), k);
            lemma_reaplicar_push::<E>(base@, old_regs, novo, canonical_parser());
            lemma_sem_avisos_push::<E>(base@, old_regs, novo, canonical_parser());
            assert forall|i: int| 0 <= i < views(registros@).len() implies evento_canonico::<E>(
                #[trigger] views(registros@)[i],
            ) && views(registros@)[i].entity == E::kind() by {
                if i < old_regs.len() {
                    assert(views(registros@)[i] == old_regs[i]);
                }
            }
        }
        *self = AuditedRepository { inner, registros, base };
        Ok(())
    }

    /// Uma copia do agregado com a identidade dada, se houver.
    pub fn find_by_id(&self, k: u128) -> (r: Option<E>)
        ensures
            match r {
                Some(e) => self.conteudo().contains_key(k) && e@ == self.conteudo()[k] && E::key_of(e@)
                    == k,
                None => !self.conteudo().contains_key(k),
            },
    {
        self.inner.find_by_id(k)
    }

    /// Uma copia de cada agregado guardado, em alguma ordem.
    pub fn list_all(&self) -> (r: Vec<E>)
        ensures
            lista_completa(views(r@), self.conteudo(), key_fn::<E>()),
    {
        self.inner.list_all()
    }

    /// Retira os registros pendentes, em ordem, para quem os grava; a trilha
    /// recomeca a partir do conteudo atual.
    pub fn take_registros(&mut self) -> (r: Vec<AuditEntry>)
        ensures
            views(r@) == old(self).registros(),
            final(self).registros() == Seq::<AuditEntryView>::empty(),
            final(self).conteudo() == old(self).conteudo(),
            final(self).base() == old(self).conteudo(),
            reaplicar::<E>(old(self).base(), views(r@), canonical_parser()) == final(self).conteudo(),
            sem_avisos::<E>(old(self).base(), views(r@), canonical_parser()),
            forall|i: int|
                0 <= i < r@.len() ==> evento_canonico::<E>(#[trigger] views(r@)[i]) && views(r@)[i].entity
                    == E::kind(),
    {
        proof {
            use_type_invariant(&*self);
        }
        let mut atual = Self::vazio();
        std::mem::swap(self, &mut atual);
        let AuditedRepository { inner, registros, base } = atual;
        *self = AuditedRepository::new(inner);
        registros
    }
}

impl AuditedRepository<Cliente> {
    /// Algum cliente com este documento, se houver.
    pub fn find_by_documento(&self, documento: &Cpf) -> (r: Option<Cliente>)
        ensures
            match r {
                Some(c) => self.conteudo().contains_key(c@.id) && self.conteudo()[c@.id] == c@
                    && c@.documento == documento@,
                None => forall|k: u128| #[trigger]
                    self.conteudo().contains_key(k) ==> self.conteudo()[k].documento != documento@,
            },
    {
        self.inner.find_by_documento(documento)
    }
}

impl AuditedRepository<User> {
    /// Algum usuario com este email, se houver.
    pub fn find_by_email(&self, email: &Email) -> (r: Option<User>)
        ensures
            match r {
                Some(u) => self.conteudo().contains_key(u@.id) && self.conteudo()[u@.id] == u@
                    && u@.email == email@,
                None => forall|k: u128| #[trigger]
                    self.conteudo().contains_key(k) ==> self.conteudo()[k].email != email@,
            },
    {
        self.inner.find_by_email(email)
    }
}

} // verus!
