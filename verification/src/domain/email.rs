//! Value object `Email`, compartilhado por usuarios e clientes.
use vstd::prelude::*;

use crate::domain::errors::DomainError;
use crate::text::{
    is_trimmed, is_white_space, lemma_trimmed_is_fixed, trim, trim_str,
    white_space,
};

verus! {

/// Email so existe se, depois de aparado, tiver a forma `local@dominio.tld`.
#[derive(Debug)]
pub struct Email {
    text: String,
}

/// `s[a]` e o unico `@` de `s`, com parte local nao vazia e um ponto no meio
/// do dominio.
pub open spec fn is_email_at(s: Seq<char>, a: int) -> bool {
    &&& 0 < a < s.len()
    &&& s[a] == '@'
    &&& forall|k: int| 0 <= k < s.len() && k != a ==> s[k] != '@'
    &&& exists|d: int| a + 1 < d < s.len() - 1 && #[trigger] s[d] == '.'
}

/// Um email valido: sem espacos em branco e com um unico `@` bem posicionado.
pub open spec fn email_valido(s: Seq<char>) -> bool {
    &&& forall|k: int| 0 <= k < s.len() ==> !is_white_space(#[trigger] s[k])
    &&& exists|a: int| #[trigger] is_email_at(s, a)
}

/// O que `Email::parse` aceita: o texto aparado, se for um email valido.
pub open spec fn spec_parse_email(raw: Seq<char>) -> Result<Seq<char>, DomainError> {
    if email_valido(trim(raw)) {
        Ok(trim(raw))
    } else {
        Err(DomainError::InvalidEmail)
    }
}

impl View for Email {
    type V = Seq<char>;

    closed spec fn view(&self) -> Seq<char> {
        self.text@
    }
}

fn is_valid_email(s: &str) -> (b: bool)
    ensures
        b == email_valido(s@),
{
    let n = s.unicode_len();
    let mut i: usize = 0;
    let mut a: usize = n;
    while i < n
        invariant
            n == s@.len(),
            i <= n,
            forall|k: int| 0 <= k < i ==> !is_white_space(#[trigger] s@[k]),
            a == n ==> forall|k: int| 0 <= k < i ==> #[trigger] s@[k] != '@',
            a != n ==> (a < i && s@[a as int] == '@' && forall|k: int|
                0 <= k < a ==> #[trigger] s@[k] != '@'),
        decreases n - i,
    {
        let c = s.get_char(i);
        if white_space(c) {
            return false;
        }
        if a == n && c == '@' {
            a = i;
        }
        i = i + 1;
    }
    if a == n || a == 0 {
        proof {
            assert forall|x: int| !#[trigger] is_email_at(s@, x) by {
                if is_email_at(s@, x) && a == 0 {
                    assert(s@[0] == '@');
                }
            }
        }
        return false;
    }
    let mut k: usize = a + 1;
    while k < n
        invariant
            n == s@.len(),
            0 < a < k <= n,
            forall|j: int| 0 <= j < n ==> !is_white_space(#[trigger] s@[j]),
            s@[a as int] == '@',
            forall|j: int| 0 <= j < a ==> #[trigger] s@[j] != '@',
            forall|j: int| a < j < k ==> #[trigger] s@[j] != '@',
        decreases n - k,
    {
        if s.get_char(k) == '@' {
            proof {
                assert forall|x: int| !#[trigger] is_email_at(s@, x) by {
                    if is_email_at(s@, x) {
                        if x != a {
                            assert(s@[a as int] == '@');
                        } else {
                            assert(s@[k as int] == '@');
                        }
                    }
                }
            }
            return false;
        }
        k = k + 1;
    }
    assert(forall|j: int| 0 <= j < n && j != a ==> s@[j] != '@');
    let mut d: usize = a + 1;
    while d < n && d + 1 < n
        invariant
            n == s@.len(),
            0 < a < n,
            a + 1 <= d <= n,
            forall|j: int| 0 <= j < n ==> !is_white_space(#[trigger] s@[j]),
            s@[a as int] == '@',
            forall|j: int| 0 <= j < n && j != a ==> #[trigger] s@[j] != '@',
            forall|j: int| a + 1 < j < d ==> #[trigger] s@[j] != '.',
        decreases n - d,
    {
        if d > a + 1 && s.get_char(d) == '.' {
            assert(is_email_at(s@, a as int));
            return true;
        }
        d = d + 1;
    }
    proof {
        assert forall|x: int| !#[trigger] is_email_at(s@, x) by {
            if is_email_at(s@, x) {
                if x != a {
                    assert(s@[a as int] == '@');
                } else {
                    let w = choose|w: int| x + 1 < w < s@.len() - 1 && #[trigger] s@[w] == '.';
                    assert(s@[w] == '.');
                }
            }
        }
    }
    false
}

impl Email {
    #[verifier::type_invariant]
    spec fn valido(self) -> bool {
        email_valido(self.text@)
    }

    pub fn parse(raw: &str) -> (r: Result<Email, DomainError>)
        ensures
            match r {
                Ok(e) => spec_parse_email(raw@) == Ok::<Seq<char>, DomainError>(e@),
                Err(e) => spec_parse_email(raw@) == Err::<Seq<char>, DomainError>(e),
            },
            r matches Ok(e) ==> email_valido(e@),
    {
        let normalized = trim_str(raw);
        if is_valid_email(normalized.as_str()) {
            Ok(Email { text: normalized })
        } else {
            Err(DomainError::InvalidEmail)
        }
    }

    pub fn as_str(&self) -> (s: &str)
        ensures
            s@ == self@,
            email_valido(self@),
    {
        proof {
            use_type_invariant(self);
        }
        self.text.as_str()
    }

    pub fn duplicate(&self) -> (r: Email)
        ensures
            r@ == self@,
    {
        proof {
            use_type_invariant(self);
        }
        Email { text: self.text.clone() }
    }
}

/// Um email valido e lido de volta como ele mesmo.
pub proof fn lemma_parse_valid_email(s: Seq<char>)
    requires
        email_valido(s),
    ensures
        spec_parse_email(s) == Ok::<Seq<char>, DomainError>(s),
{
    assert(is_trimmed(s)) by {
        if s.len() > 0 {
            assert(!is_white_space(s[0]));
            assert(!is_white_space(s[s.len() - 1]));
        }
    }
    lemma_trimmed_is_fixed(s);
}

} // verus!
