//! Value object `Cpf`: documento de cliente com digitos verificadores.
use vstd::prelude::*;

use crate::domain::errors::DomainError;
use crate::text::{
    all_digits, digit_value, is_digit, is_white_space, lemma_trimmed_is_fixed, push_char, trim,
    trim_str,
};

verus! {

/// CPF valido, guardado so com os 11 digitos (sem pontos nem hifen).
#[derive(Debug)]
pub struct Cpf {
    digits: String,
}

pub open spec fn is_cpf_separator(c: char) -> bool {
    c == '.' || c == '-'
}

/// So digitos, pontos e hifens.
pub open spec fn cpf_chars_ok(t: Seq<char>) -> bool {
    forall|k: int| 0 <= k < t.len() ==> is_digit(#[trigger] t[k]) || is_cpf_separator(t[k])
}

/// Os digitos de `t`, na ordem, sem a pontuacao.
pub open spec fn digits_only(t: Seq<char>) -> Seq<char>
    decreases t.len(),
{
    if t.len() == 0 {
        Seq::empty()
    } else if is_digit(t.last()) {
        digits_only(t.drop_last()).push(t.last())
    } else {
        digits_only(t.drop_last())
    }
}

/// Soma de `d[i] * (w - i)` para `i < n`.
pub open spec fn weighted_sum(d: Seq<char>, n: int, w: int) -> int
    decreases n,
{
    if n <= 0 {
        0
    } else {
        weighted_sum(d, n - 1, w) + digit_value(d[n - 1]) * (w - (n - 1))
    }
}

/// Digito verificador calculado sobre os `n` primeiros digitos.
pub open spec fn check_digit(d: Seq<char>, n: int) -> int {
    let r = (weighted_sum(d, n, n + 1) * 10) % 11;
    if r == 10 {
        0
    } else {
        r
    }
}

/// Onze digitos, nao todos iguais, com os dois digitos verificadores corretos.
pub open spec fn cpf_valido(d: Seq<char>) -> bool {
    &&& d.len() == 11
    &&& all_digits(d)
    &&& exists|k: int| 0 < k < 11 && #[trigger] d[k] != d[0]
    &&& check_digit(d, 9) == digit_value(d[9])
    &&& check_digit(d, 10) == digit_value(d[10])
}

/// O que `Cpf::parse` aceita: o texto aparado, so com digitos e pontuacao,
/// cujos digitos formem um CPF valido.
pub open spec fn spec_parse_cpf(raw: Seq<char>) -> Result<Seq<char>, DomainError> {
    let t = trim(raw);
    if cpf_chars_ok(t) && cpf_valido(digits_only(t)) {
        Ok(digits_only(t))
    } else {
        Err(DomainError::InvalidDocument)
    }
}

impl View for Cpf {
    type V = Seq<char>;

    closed spec fn view(&self) -> Seq<char> {
        self.digits@
    }
}

proof fn lemma_digits_only_step(t: Seq<char>, i: int)
    requires
        0 <= i < t.len(),
    ensures
        digits_only(t.subrange(0, i + 1)) == if is_digit(t[i]) {
            digits_only(t.subrange(0, i)).push(t[i])
        } else {
            digits_only(t.subrange(0, i))
        },
{
    assert(t.subrange(0, i + 1).drop_last() =~= t.subrange(0, i));
}

proof fn lemma_digits_only_of_digits(d: Seq<char>)
    requires
        all_digits(d),
    ensures
        digits_only(d) == d,
    decreases d.len(),
{
    if d.len() > 0 {
        lemma_digits_only_of_digits(d.drop_last());
        assert(d.drop_last().push(d.last()) =~= d);
    }
}

/// Um CPF valido (so digitos) e lido de volta como ele mesmo.
pub proof fn lemma_parse_valid_cpf(d: Seq<char>)
    requires
        cpf_valido(d),
    ensures
        spec_parse_cpf(d) == Ok::<Seq<char>, DomainError>(d),
{
    assert(!is_white_space(d[0]) && !is_white_space(d.last()));
    lemma_trimmed_is_fixed(d);
    lemma_digits_only_of_digits(d);
}

fn weighted(vals: &Vec<u8>, n: usize, w: u32, Ghost(d): Ghost<Seq<char>>) -> (s: u32)
    requires
        n <= vals.len() == d.len() == 11,
        n + 1 <= w <= 11,
        forall|k: int| 0 <= k < 11 ==> vals@[k] == digit_value(#[trigger] d[k]),
        all_digits(d),
    ensures
        s == weighted_sum(d, n as int, w as int),
        s <= 99 * n,
{
    let mut s: u32 = 0;
    let mut i: usize = 0;
    while i < n
        invariant
            i <= n <= 11,
            n + 1 <= w <= 11,
            vals.len() == d.len() == 11,
            forall|k: int| 0 <= k < 11 ==> vals@[k] == digit_value(#[trigger] d[k]),
            all_digits(d),
            s == weighted_sum(d, i as int, w as int),
            s <= 99 * i,
        decreases n - i,
    {
        let v = vals[i] as u32;
        assert(is_digit(d[i as int]));
        let f = w - i as u32;
        assert(v * f <= 99) by (nonlinear_arith)
            requires
                v <= 9,
                f <= 11,
        ;
        s = s + v * f;
        i = i + 1;
    }
    s
}

impl Cpf {
    #[verifier::type_invariant]
    spec fn valido(self) -> bool {
        cpf_valido(self.digits@)
    }

    pub fn parse(raw: &str) -> (r: Result<Cpf, DomainError>)
        ensures
            match r {
                Ok(c) => spec_parse_cpf(raw@) == Ok::<Seq<char>, DomainError>(c@),
                Err(e) => spec_parse_cpf(raw@) == Err::<Seq<char>, DomainError>(e),
            },
            r matches Ok(c) ==> cpf_valido(c@),
    {
        let text = trim_str(raw);
        let t = text.as_str();
        let n = t.unicode_len();
        let ghost s = t@;
        let mut digits = String::new();
        let mut vals: Vec<u8> = Vec::new();
        let mut i: usize = 0;
        while i < n
            invariant
                n == s.len(),
                s == t@,
                s == trim(raw@),
                i <= n,
                digits@ == digits_only(s.subrange(0, i as int)),
                vals.len() == digits@.len(),
                forall|k: int| 0 <= k < vals.len() ==> vals@[k] == digit_value(#[trigger] digits@[k]),
                all_digits(digits@),
                forall|k: int| 0 <= k < i ==> is_digit(#[trigger] s[k]) || is_cpf_separator(s[k]),
            decreases n - i,
        {
            let c = t.get_char(i);
            proof {
                lemma_digits_only_step(s, i as int);
            }
            if '0' <= c && c <= '9' {
                push_char(&mut digits, c);
                vals.push((c as u32 - 48) as u8);
            } else if c != '.' && c != '-' {
                proof {
                    assert(!cpf_chars_ok(s));
                }
                return Err(DomainError::InvalidDocument);
            }
            i = i + 1;
        }
        assert(s.subrange(0, n as int) =~= s);
        let ghost d = digits@;
        if vals.len() != 11 {
            return Err(DomainError::InvalidDocument);
        }
        let mut differs = false;
        let mut k: usize = 1;
        while k < 11
            invariant
                1 <= k <= 11,
                vals.len() == d.len() == 11,
                forall|j: int| 0 <= j < 11 ==> vals@[j] == digit_value(#[trigger] d[j]),
                all_digits(d),
                differs == exists|j: int| 0 < j < k && #[trigger] d[j] != d[0],
            decreases 11 - k,
        {
            if vals[k] != vals[0] {
                assert(d[k as int] != d[0]);
                differs = true;
            } else {
                assert(d[k as int] == d[0]) by {
                    assert(is_digit(d[k as int]) && is_digit(d[0]));
                }
            }
            k = k + 1;
        }
        if !differs {
            return Err(DomainError::InvalidDocument);
        }
        let s1 = weighted(&vals, 9, 10, Ghost(d));
        let r1 = (s1 * 10) % 11;
        let c1: u32 = if r1 == 10 { 0 } else { r1 };
        if c1 != vals[9] as u32 {
            return Err(DomainError::InvalidDocument);
        }
        let s2 = weighted(&vals, 10, 11, Ghost(d));
        let r2 = (s2 * 10) % 11;
        let c2: u32 = if r2 == 10 { 0 } else { r2 };
        if c2 != vals[10] as u32 {
            return Err(DomainError::InvalidDocument);
        }
        Ok(Cpf { digits })
    }

    /// Os 11 digitos do CPF.
    pub fn as_str(&self) -> (s: &str)
        ensures
            s@ == self@,
            cpf_valido(self@),
    {
        proof {
            use_type_invariant(self);
        }
        self.digits.as_str()
    }

    pub fn duplicate(&self) -> (r: Cpf)
        ensures
            r@ == self@,
    {
        proof {
            use_type_invariant(self);
        }
        Cpf { digits: self.digits.clone() }
    }
}

} // verus!
