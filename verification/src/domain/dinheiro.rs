//! Value object `Dinheiro`: valor monetario em centavos, nunca negativo.
use vstd::prelude::*;

use crate::domain::errors::DomainError;
use crate::text::{
    all_digits, decimal, digit_char, digit_to_char, digit_value, digits_value, is_digit,
    is_white_space, lemma_decimal_digits, lemma_digit_char, lemma_trimmed_is_fixed, push_char,
    push_decimal, trim, trim_str,
};

verus! {

/// Valor monetario em centavos (inteiro, nunca ponto flutuante), sempre >= 0.
#[derive(Debug, Clone, Copy, PartialEq, Eq, Structural)]
pub struct Dinheiro {
    centavos: i64,
}

/// Maior quantia de reais cujo valor em centavos ainda cabe num `i64`.
pub const MAX_REAIS: u64 = 92233720368547758;

/// Posicao do primeiro caractere que nao e digito (ou o tamanho, se todos forem).
pub open spec fn first_non_digit(t: Seq<char>) -> nat
    decreases t.len(),
{
    if t.len() == 0 || !is_digit(t[0]) {
        0
    } else {
        1 + first_non_digit(t.drop_first())
    }
}

/// Valor em centavos de um texto `R` ou `R.C` / `R.CC` (R e C digitos decimais).
pub open spec fn reais_value(t: Seq<char>) -> Option<int> {
    let p = first_non_digit(t) as int;
    let frac = t.subrange(p + 1, t.len() as int);
    if p == 0 {
        None
    } else if p == t.len() {
        Some((digits_value(t) * 100) as int)
    } else if t[p] != '.' || frac.len() < 1 || frac.len() > 2 || !all_digits(frac) {
        None
    } else if frac.len() == 1 {
        Some((digits_value(t.subrange(0, p)) * 100 + digits_value(frac) * 10) as int)
    } else {
        Some((digits_value(t.subrange(0, p)) * 100 + digits_value(frac)) as int)
    }
}

/// O que `Dinheiro::parse_reais` aceita: texto aparado no formato `R`, `R.C` ou
/// `R.CC`, cujo valor em centavos caiba num `i64`.
pub open spec fn spec_parse_reais(raw: Seq<char>) -> Result<int, DomainError> {
    match reais_value(trim(raw)) {
        Some(v) => if v <= i64::MAX {
            Ok(v)
        } else {
            Err(DomainError::ValorMonetarioInvalido)
        },
        None => Err(DomainError::ValorMonetarioInvalido),
    }
}

/// Texto em reais: parte inteira sem zeros a esquerda, ponto e dois digitos.
pub open spec fn reais_text(centavos: nat) -> Seq<char> {
    decimal(centavos / 100) + seq![
        '.',
        digit_char(((centavos % 100) / 10) as int),
        digit_char((centavos % 10) as int),
    ]
}

proof fn lemma_first_non_digit_at(t: Seq<char>, p: int)
    requires
        0 <= p <= t.len(),
        forall|k: int| 0 <= k < p ==> is_digit(#[trigger] t[k]),
        p == t.len() || !is_digit(t[p]),
    ensures
        first_non_digit(t) == p,
    decreases p,
{
    if p > 0 {
        let u = t.drop_first();
        assert forall|k: int| 0 <= k < p - 1 implies is_digit(#[trigger] u[k]) by {
            assert(u[k] == t[k + 1]);
        }
        lemma_first_non_digit_at(u, p - 1);
    }
}

proof fn lemma_digits_value_prefix(s: Seq<char>, j: int)
    requires
        0 <= j <= s.len(),
        all_digits(s),
    ensures
        digits_value(s.subrange(0, j)) <= digits_value(s),
    decreases s.len() - j,
{
    if j < s.len() {
        lemma_digits_value_prefix(s, j + 1);
        lemma_digits_value_step(s, j);
    } else {
        assert(s.subrange(0, j) =~= s);
    }
}

proof fn lemma_digits_value_step(s: Seq<char>, j: int)
    requires
        0 <= j < s.len(),
        is_digit(s[j]),
    ensures
        digits_value(s.subrange(0, j + 1)) == digits_value(s.subrange(0, j)) * 10 + digit_value(
            s[j],
        ),
{
    assert(s.subrange(0, j + 1).drop_last() =~= s.subrange(0, j));
}

/// Ler o texto em reais de uma quantia devolve a propria quantia.
pub proof fn lemma_reais_text_roundtrip(c: nat)
    requires
        c <= i64::MAX,
    ensures
        spec_parse_reais(reais_text(c)) == Ok::<int, DomainError>(c as int),
{
    let r = c / 100;
    let d1 = (c % 100) / 10;
    let d2 = c % 10;
    let t = reais_text(c);
    let dec = decimal(r);
    lemma_decimal_digits(r);
    lemma_digit_char(d1 as int);
    lemma_digit_char(d2 as int);
    let p = dec.len() as int;
    assert(t[p] == '.');
    assert forall|k: int| 0 <= k < p implies is_digit(#[trigger] t[k]) by {
        assert(t[k] == dec[k]);
    }
    lemma_first_non_digit_at(t, p);
    assert(t.subrange(0, p) =~= dec);
    let frac = t.subrange(p + 1, t.len() as int);
    assert(frac =~= seq![digit_char(d1 as int), digit_char(d2 as int)]);
    assert(frac.drop_last() =~= seq![digit_char(d1 as int)]);
    assert(frac.drop_last().drop_last() =~= Seq::<char>::empty());
    assert(digits_value(frac.drop_last().drop_last()) == 0);
    assert(digits_value(frac.drop_last()) == d1);
    assert(digits_value(frac) == d1 * 10 + d2);
    assert(all_digits(frac));
    assert(!is_white_space(t[0]) && !is_white_space(t.last()));
    lemma_trimmed_is_fixed(t);
    assert(r * 100 + d1 * 10 + d2 == c);
}

impl Dinheiro {
    #[verifier::type_invariant]
    spec fn nao_negativo(self) -> bool {
        self.centavos >= 0
    }

    pub closed spec fn spec_centavos(self) -> int {
        self.centavos as int
    }

    pub fn from_centavos(centavos: i64) -> (r: Result<Dinheiro, DomainError>)
        ensures
            centavos < 0 ==> r == Err::<Dinheiro, DomainError>(DomainError::ValorMonetarioInvalido),
            centavos >= 0 ==> (r matches Ok(d) && d.spec_centavos() == centavos),
    {
        if centavos < 0 {
            return Err(DomainError::ValorMonetarioInvalido);
        }
        Ok(Dinheiro { centavos })
    }

    pub fn zero() -> (d: Dinheiro)
        ensures
            d.spec_centavos() == 0,
    {
        Dinheiro { centavos: 0 }
    }

    pub fn as_centavos(&self) -> (c: i64)
        ensures
            c == self.spec_centavos(),
            c >= 0,
    {
        proof {
            use_type_invariant(self);
        }
        self.centavos
    }

    /// Le um valor em reais (`"19.90"`, `"7"`, `"0.5"`).
    pub fn parse_reais(raw: &str) -> (r: Result<Dinheiro, DomainError>)
        ensures
            match r {
                Ok(d) => spec_parse_reais(raw@) == Ok::<int, DomainError>(d.spec_centavos()),
                Err(e) => spec_parse_reais(raw@) == Err::<int, DomainError>(e),
            },
    {
        let text = trim_str(raw);
        let t = text.as_str();
        let n = t.unicode_len();
        let ghost s = t@;
        proof {
            lemma_first_non_digit_props(s);
        }
        let mut p: usize = 0;
        let mut reais: u64 = 0;
        while p < n && is_digit_exec(t.get_char(p))
            invariant
                n == s.len(),
                s == t@,
                s == trim(raw@),
                p <= n,
                forall|k: int| 0 <= k < p ==> is_digit(#[trigger] s[k]),
                reais == digits_value(s.subrange(0, p as int)),
                reais <= MAX_REAIS,
            decreases n - p,
        {
            let d = digit_of(t.get_char(p));
            proof {
                lemma_digits_value_step(s, p as int);
            }
            if reais > (MAX_REAIS - d) / 10 {
                proof {
                    assert(is_digit(s[p as int]));
                    assert(reais * 10 + d > MAX_REAIS);
                    assert(digits_value(s.subrange(0, p + 1)) > MAX_REAIS);
                    lemma_too_many_reais(s, p as int + 1);
                    assert(s == trim(raw@));
                    assert(reais_value(trim(raw@)) matches Some(v) ==> v > i64::MAX);
                }
                return Err(DomainError::ValorMonetarioInvalido);
            }
            reais = reais * 10 + d;
            p = p + 1;
        }
        proof {
            lemma_first_non_digit_at(s, p as int);
            assert(s.subrange(0, n as int) =~= s);
        }
        if p == 0 {
            return Err(DomainError::ValorMonetarioInvalido);
        }
        if p == n {
            let total = reais * 100;
            return Ok(Dinheiro { centavos: total as i64 });
        }
        let ghost frac = s.subrange(p + 1, n as int);
        if t.get_char(p) != '.' || n - p - 1 < 1 || n - p - 1 > 2 {
            return Err(DomainError::ValorMonetarioInvalido);
        }
        let c1 = t.get_char(p + 1);
        if !is_digit_exec(c1) {
            assert(frac[0] == c1);
            return Err(DomainError::ValorMonetarioInvalido);
        }
        let fracao: u64;
        if n - p - 1 == 1 {
            assert(frac =~= seq![c1]);
            assert(frac.drop_last() =~= Seq::<char>::empty());
            assert(digits_value(frac.drop_last()) == 0);
            fracao = digit_of(c1) * 10;
            assert(digits_value(frac) == digit_value(c1));
        } else {
            let c2 = t.get_char(p + 2);
            if !is_digit_exec(c2) {
                assert(frac[1] == c2);
                return Err(DomainError::ValorMonetarioInvalido);
            }
            assert(frac =~= seq![c1, c2]);
            assert(frac.drop_last() =~= seq![c1]);
            assert(frac.drop_last().drop_last() =~= Seq::<char>::empty());
            assert(digits_value(frac.drop_last().drop_last()) == 0);
            assert(digits_value(frac.drop_last()) == digit_value(c1));
            fracao = digit_of(c1) * 10 + digit_of(c2);
            assert(digits_value(frac) == digit_value(c1) * 10 + digit_value(c2));
        }
        let total = reais * 100 + fracao;
        proof {
            assert(s == trim(raw@));
            assert(s[p as int] == '.');
            assert(all_digits(frac));
            assert(frac.len() == n - p - 1);
            assert(fracao == (if frac.len() == 1 { digits_value(frac) * 10 } else { digits_value(frac) }));
            assert(reais_value(s) == Some(total as int));
        }
        if total > 9223372036854775807u64 {
            return Err(DomainError::ValorMonetarioInvalido);
        }
        Ok(Dinheiro { centavos: total as i64 })
    }

    /// Texto em reais com duas casas decimais (`12345` centavos -> `"123.45"`).
    pub fn as_reais_str(&self) -> (s: String)
        ensures
            s@ == reais_text(self.spec_centavos() as nat),
    {
        let c = self.as_centavos() as u64;
        let mut s = String::new();
        push_decimal(&mut s, c / 100);
        push_char(&mut s, '.');
        push_char(&mut s, digit_to_char((c % 100) / 10));
        push_char(&mut s, digit_to_char(c % 10));
        proof {
            assert(s@ =~= reais_text(c as nat));
        }
        s
    }

    /// Valor de `quantidade` unidades; falha se nao couber num `i64`.
    pub fn vezes(&self, quantidade: u32) -> (r: Result<Dinheiro, DomainError>)
        ensures
            match r {
                Ok(d) => d.spec_centavos() == self.spec_centavos() * quantidade
                    && self.spec_centavos() * quantidade <= i64::MAX,
                Err(e) => e == DomainError::ValorMonetarioInvalido && self.spec_centavos()
                    * quantidade > i64::MAX,
            },
    {
        let c = self.as_centavos();
        match c.checked_mul(quantidade as i64) {
            Some(v) => {
                assert(v >= 0) by (nonlinear_arith)
                    requires
                        v == c * (quantidade as i64),
                        c >= 0,
                        quantidade >= 0,
                ;
                Ok(Dinheiro { centavos: v })
            },
            None => {
                assert(c * quantidade >= 0) by (nonlinear_arith)
                    requires
                        c >= 0,
                        quantidade >= 0,
                ;
                Err(DomainError::ValorMonetarioInvalido)
            },
        }
    }

    /// Soma de dois valores; falha se nao couber num `i64`.
    pub fn somar(&self, outro: &Dinheiro) -> (r: Result<Dinheiro, DomainError>)
        ensures
            match r {
                Ok(d) => d.spec_centavos() == self.spec_centavos() + outro.spec_centavos()
                    && self.spec_centavos() + outro.spec_centavos() <= i64::MAX,
                Err(e) => e == DomainError::ValorMonetarioInvalido && self.spec_centavos()
                    + outro.spec_centavos() > i64::MAX,
            },
    {
        let a = self.as_centavos();
        let b = outro.as_centavos();
        match a.checked_add(b) {
            Some(v) => Ok(Dinheiro { centavos: v }),
            None => Err(DomainError::ValorMonetarioInvalido),
        }
    }
}

fn is_digit_exec(c: char) -> (b: bool)
    ensures
        b == is_digit(c),
{
    '0' <= c && c <= '9'
}

fn digit_of(c: char) -> (d: u64)
    requires
        is_digit(c),
    ensures
        d == digit_value(c),
        d < 10,
{
    (c as u32 - 48) as u64
}

proof fn lemma_first_non_digit_props(t: Seq<char>)
    ensures
        first_non_digit(t) <= t.len(),
        forall|k: int| 0 <= k < first_non_digit(t) ==> is_digit(#[trigger] t[k]),
        first_non_digit(t) == t.len() || !is_digit(t[first_non_digit(t) as int]),
    decreases t.len(),
{
    if t.len() > 0 && is_digit(t[0]) {
        let u = t.drop_first();
        lemma_first_non_digit_props(u);
        assert forall|k: int| 0 <= k < first_non_digit(t) implies is_digit(#[trigger] t[k]) by {
            if k > 0 {
                assert(t[k] == u[k - 1]);
            }
        }
    }
}

/// Se os primeiros `m` digitos ja passam do limite, o texto inteiro e recusado.
proof fn lemma_too_many_reais(s: Seq<char>, m: int)
    requires
        0 < m <= s.len(),
        forall|k: int| 0 <= k < m ==> is_digit(#[trigger] s[k]),
        digits_value(s.subrange(0, m)) > MAX_REAIS,
    ensures
        reais_value(s) matches Some(v) ==> v > i64::MAX,
{
    lemma_first_non_digit_props(s);
    let q = first_non_digit(s) as int;
    if q < m {
        assert(is_digit(s[q]));
    }
    let pre = s.subrange(0, q);
    assert(all_digits(pre));
    lemma_digits_value_prefix(pre, m);
    assert(pre.subrange(0, m) =~= s.subrange(0, m));
    if q == s.len() {
        assert(pre =~= s);
    }
}

} // verus!
