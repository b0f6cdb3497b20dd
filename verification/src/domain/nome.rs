//! Value object `Nome`: nome de cliente ou de produto.
use vstd::prelude::*;

use crate::domain::errors::DomainError;
use crate::text::{is_trimmed, lemma_trim_is_trimmed, lemma_trimmed_is_fixed, trim, trim_str};

verus! {

/// Nome so existe se tiver conteudo minimo depois de aparado (`trim`).
#[derive(Debug)]
pub struct Nome {
    text: String,
}

pub const TAMANHO_MINIMO: usize = 2;

/// O que `Nome::parse` aceita: o texto aparado, com ao menos dois caracteres.
pub open spec fn spec_parse_nome(raw: Seq<char>) -> Result<Seq<char>, DomainError> {
    if trim(raw).len() < TAMANHO_MINIMO {
        Err(DomainError::InvalidNome)
    } else {
        Ok(trim(raw))
    }
}

/// Um nome valido: aparado e com ao menos dois caracteres.
pub open spec fn nome_valido(s: Seq<char>) -> bool {
    is_trimmed(s) && s.len() >= TAMANHO_MINIMO
}

impl View for Nome {
    type V = Seq<char>;

    closed spec fn view(&self) -> Seq<char> {
        self.text@
    }
}

impl Nome {
    #[verifier::type_invariant]
    spec fn valido(self) -> bool {
        nome_valido(self.text@)
    }

    pub fn parse(raw: &str) -> (r: Result<Nome, DomainError>)
        ensures
            match r {
                Ok(n) => spec_parse_nome(raw@) == Ok::<Seq<char>, DomainError>(n@),
                Err(e) => spec_parse_nome(raw@) == Err::<Seq<char>, DomainError>(e),
            },
            r matches Ok(n) ==> nome_valido(n@),
    {
        let normalized = trim_str(raw);
        proof {
            lemma_trim_is_trimmed(raw@);
        }
        if Self::is_too_short(normalized.as_str()) {
            return Err(DomainError::InvalidNome);
        }
        Ok(Nome { text: normalized })
    }

    fn is_too_short(candidate: &str) -> (b: bool)
        ensures
            b == (candidate@.len() < TAMANHO_MINIMO),
    {
        candidate.unicode_len() < TAMANHO_MINIMO
    }

    pub fn as_str(&self) -> (s: &str)
        ensures
            s@ == self@,
            nome_valido(self@),
    {
        proof {
            use_type_invariant(self);
        }
        self.text.as_str()
    }

    /// Copia do nome, com o mesmo texto.
    pub fn duplicate(&self) -> (r: Nome)
        ensures
            r@ == self@,
    {
        proof {
            use_type_invariant(self);
        }
        Nome { text: self.text.clone() }
    }
}

/// Um nome valido e lido de volta como ele mesmo.
pub proof fn lemma_parse_valid_nome(s: Seq<char>)
    requires
        nome_valido(s),
    ensures
        spec_parse_nome(s) == Ok::<Seq<char>, DomainError>(s),
{
    lemma_trimmed_is_fixed(s);
}

/// O que `Nome::parse` aceita e sempre um nome valido.
pub proof fn lemma_parsed_nome_valid(raw: Seq<char>)
    ensures
        spec_parse_nome(raw) matches Ok(n) ==> nome_valido(n),
{
    lemma_trim_is_trimmed(raw);
}

} // verus!
