//! Identificadores dos agregados (UUID de 128 bits) e sua forma textual.
use vstd::prelude::*;

use vstd::arithmetic::div_mod::{lemma_mod_breakdown, lemma_small_mod};

use crate::text::push_char;

verus! {

pub open spec fn hex_char(d: int) -> char {
    if d < 10 {
        (d + '0' as int) as char
    } else {
        (d - 10 + 'a' as int) as char
    }
}

/// Os `n` ultimos digitos hexadecimais de `x` (o mais significativo primeiro).
pub open spec fn hex_digits(x: nat, n: nat) -> Seq<char>
    decreases n,
{
    if n == 0 {
        Seq::empty()
    } else {
        hex_digits(x / 16, (n - 1) as nat).push(hex_char((x % 16) as int))
    }
}

pub open spec fn is_hyphen_position(j: int) -> bool {
    j == 8 || j == 13 || j == 18 || j == 23
}

pub open spec fn hyphens_before(j: int) -> int {
    if j > 23 {
        4
    } else if j > 18 {
        3
    } else if j > 13 {
        2
    } else if j > 8 {
        1
    } else {
        0
    }
}

/// Forma canonica de um UUID: 32 digitos hexadecimais minusculos em grupos
/// 8-4-4-4-12 separados por hifens (ex.: `936da01f-9abd-4d9d-80c7-02af85c822a8`).
pub open spec fn uuid_text(u: u128) -> Seq<char> {
    Seq::new(
        36,
        |j: int|
            if is_hyphen_position(j) {
                '-'
            } else {
                hex_digits(u as nat, 32)[j - hyphens_before(j)]
            },
    )
}

/// O que `uuid::Uuid::parse_str` devolve para um texto (o valor de 128 bits).
pub uninterp spec fn uuid_parse(s: Seq<char>) -> Option<u128>;

/// `uuid::Uuid::parse_str` seguido de `as_u128`. O resultado e o valor nomeado
/// `uuid_parse`; alem disso, a forma canonica de um UUID e lida de volta como
/// o proprio UUID (o parser do crate aceita 36 caracteres com hifens nas
/// posicoes 8, 13, 18 e 23 e digitos hexadecimais nas demais). Os outros
/// formatos aceitos pelo crate (simples, entre chaves, URN) nao sao descritos.
#[verifier::external_body]
pub(crate) fn parse_uuid(s: &str) -> (r: Option<u128>)
    ensures
        r == uuid_parse(s@),
        forall|u: u128| s@ == #[trigger] uuid_text(u) ==> r == Some(u),
{
    match uuid::Uuid::parse_str(s) {
        Ok(id) => Some(id.as_u128()),
        Err(_) => None,
    }
}

/// Um UUID da versao 4 (aleatorio) na variante RFC 4122: o nibble da versao
/// (bits 76 a 79) vale 4 e os dois bits mais altos da variante (bits 62 e 63)
/// valem `10`. Os outros 122 bits sao livres.
pub open spec fn uuid_v4(u: u128) -> bool {
    (u as nat / 0x1000_0000_0000_0000_0000) % 16 == 4 && (u as nat / 0x4000_0000_0000_0000) % 4 == 2
}

/// `uuid::Uuid::new_v4` seguido de `as_u128`. O crate sorteia 128 bits e fixa
/// neles a versao 4 e a variante RFC 4122; o contrato diz so isso, pois os
/// demais bits sao aleatorios.
#[verifier::external_body]
pub(crate) fn random_uuid() -> (r: u128)
    ensures
        uuid_v4(r),
{
    uuid::Uuid::new_v4().as_u128()
}


pub open spec fn pow16(n: nat) -> nat
    decreases n,
{
    if n == 0 {
        1
    } else {
        16 * pow16((n - 1) as nat)
    }
}

proof fn lemma_pow16_positive(n: nat)
    ensures
        pow16(n) > 0,
    decreases n,
{
    if n > 0 {
        lemma_pow16_positive((n - 1) as nat);
    }
}

proof fn lemma_hex_char_injective(a: int, b: int)
    requires
        0 <= a < 16,
        0 <= b < 16,
        hex_char(a) == hex_char(b),
    ensures
        a == b,
{
}

/// Digitos hexadecimais iguais determinam o valor modulo `16^n`.
proof fn lemma_hex_digits_determine(x: nat, y: nat, n: nat)
    requires
        hex_digits(x, n) == hex_digits(y, n),
    ensures
        x % pow16(n) == y % pow16(n),
    decreases n,
{
    if n > 0 {
        let m = (n - 1) as nat;
        let hx = hex_digits(x, n);
        let hy = hex_digits(y, n);
        assert(hx.last() == hex_char((x % 16) as int));
        assert(hy.last() == hex_char((y % 16) as int));
        lemma_hex_char_injective((x % 16) as int, (y % 16) as int);
        assert(hx.drop_last() =~= hex_digits(x / 16, m));
        assert(hy.drop_last() =~= hex_digits(y / 16, m));
        lemma_hex_digits_determine(x / 16, y / 16, m);
        lemma_pow16_positive(m);
        lemma_mod_breakdown(x as int, 16, pow16(m) as int);
        lemma_mod_breakdown(y as int, 16, pow16(m) as int);
    }
}

/// Textos canonicos iguais vem do mesmo UUID.
pub proof fn lemma_uuid_text_injective(a: u128, b: u128)
    requires
        uuid_text(a) == uuid_text(b),
    ensures
        a == b,
{
    let ha = hex_digits(a as nat, 32);
    let hb = hex_digits(b as nat, 32);
    lemma_hex_digits_len(a as nat, 32);
    lemma_hex_digits_len(b as nat, 32);
    assert forall|i: int| 0 <= i < 32 implies ha[i] == hb[i] by {
        let j = if i < 8 {
            i
        } else if i < 12 {
            i + 1
        } else if i < 16 {
            i + 2
        } else if i < 20 {
            i + 3
        } else {
            i + 4
        };
        assert(uuid_text(a)[j] == ha[i]);
        assert(uuid_text(b)[j] == hb[i]);
    }
    assert(ha =~= hb);
    lemma_hex_digits_determine(a as nat, b as nat, 32);
    reveal_with_fuel(pow16, 33);
    assert(pow16(32) == 0x1_0000_0000_0000_0000_0000_0000_0000_0000);
    lemma_small_mod(a as nat, pow16(32));
    lemma_small_mod(b as nat, pow16(32));
}

proof fn lemma_hex_digits_len(x: nat, n: nat)
    ensures
        hex_digits(x, n).len() == n,
    decreases n,
{
    if n > 0 {
        lemma_hex_digits_len(x / 16, (n - 1) as nat);
    }
}

/// O UUID cuja forma canonica e `s`, se houver.
pub open spec fn canonical_uuid(s: Seq<char>) -> Option<u128> {
    if exists|u: u128| #[trigger] uuid_text(u) == s {
        Some(choose|u: u128| #[trigger] uuid_text(u) == s)
    } else {
        None
    }
}

/// `t` e a forma canonica de algum UUID.
pub open spec fn is_canonical_text(t: Seq<char>) -> bool {
    exists|u: u128| #[trigger] uuid_text(u) == t
}

/// Para um texto canonico, o que `parse_uuid` devolve e o UUID canonico.
pub proof fn lemma_parse_agrees(t: Seq<char>, r: Option<u128>)
    requires
        r == uuid_parse(t),
        forall|u: u128| t == #[trigger] uuid_text(u) ==> r == Some(u),
        is_canonical_text(t),
    ensures
        uuid_parse(t) == canonical_uuid(t),
{
    let w = choose|u: u128| #[trigger] uuid_text(u) == t;
    assert(uuid_text(w) == t);
}

/// A forma canonica de um UUID identifica o proprio UUID.
pub proof fn lemma_canonical_uuid_text(u: u128)
    ensures
        canonical_uuid(uuid_text(u)) == Some(u),
{
    let w = choose|v: u128| #[trigger] uuid_text(v) == uuid_text(u);
    lemma_uuid_text_injective(w, u);
}

fn hex_digit(d: u8) -> (c: char)
    requires
        d < 16,
    ensures
        c == hex_char(d as int),
{
    if d < 10 {
        (d + 48) as char
    } else {
        (d + 87) as char
    }
}

fn hyphens_before_exec(j: usize) -> (h: usize)
    ensures
        h == hyphens_before(j as int),
{
    if j > 23 {
        4
    } else if j > 18 {
        3
    } else if j > 13 {
        2
    } else if j > 8 {
        1
    } else {
        0
    }
}

/// Texto canonico do UUID (o mesmo que `Uuid::to_string`).
pub fn uuid_to_string(u: u128) -> (s: String)
    ensures
        s@ == uuid_text(u),
{
    let mut x: u128 = u;
    let mut rev: Vec<char> = Vec::new();
    let mut k: usize = 0;
    let ghost mut suffix: Seq<char> = Seq::empty();
    while k < 32
        invariant
            k <= 32,
            rev.len() == k,
            suffix.len() == k,
            forall|i: int| 0 <= i < k ==> suffix[i] == rev@[k - 1 - i],
            hex_digits(u as nat, 32) == hex_digits(x as nat, (32 - k) as nat) + suffix,
        decreases 32 - k,
    {
        let d = (x % 16) as u8;
        let c = hex_digit(d);
        proof {
            let m = (32 - k) as nat;
            assert(hex_digits(x as nat, m) == hex_digits((x / 16) as nat, (m - 1) as nat).push(c));
            assert(hex_digits((x / 16) as nat, (m - 1) as nat).push(c) + suffix =~= hex_digits(
                (x / 16) as nat,
                (m - 1) as nat,
            ) + seq![c].add(suffix));
            suffix = seq![c].add(suffix);
        }
        rev.push(c);
        x = x / 16;
        k = k + 1;
    }
    assert(hex_digits(u as nat, 32) =~= suffix);
    let mut s = String::new();
    let mut j: usize = 0;
    while j < 36
        invariant
            j <= 36,
            rev.len() == 32,
            forall|i: int| 0 <= i < 32 ==> hex_digits(u as nat, 32)[i] == rev@[31 - i],
            s@.len() == j,
            forall|i: int| 0 <= i < j ==> s@[i] == uuid_text(u)[i],
        decreases 36 - j,
    {
        if j == 8 || j == 13 || j == 18 || j == 23 {
            push_char(&mut s, '-');
        } else {
            let pos = j - hyphens_before_exec(j);
            push_char(&mut s, rev[31 - pos]);
        }
        j = j + 1;
    }
    assert(s@ =~= uuid_text(u));
    s
}


/// Identidade do agregado Usuario.
#[derive(Debug, Clone, Copy, PartialEq, Eq, Structural, Hash)]
pub struct UserId {
    value: u128,
}

impl UserId {
    pub closed spec fn spec_uuid(self) -> u128 {
        self.value
    }

    /// Identidade nova, aleatoria (UUID v4).
    pub fn new() -> (id: UserId)
        ensures
            uuid_v4(id.spec_uuid()),
    {
        UserId { value: random_uuid() }
    }

    pub fn from_uuid(value: u128) -> (id: UserId)
        ensures
            id.spec_uuid() == value,
    {
        UserId { value }
    }

    pub fn as_uuid(&self) -> (v: u128)
        ensures
            v == self.spec_uuid(),
    {
        self.value
    }
}

/// Identidade do agregado Cliente.
#[derive(Debug, Clone, Copy, PartialEq, Eq, Structural, Hash)]
pub struct ClienteId {
    value: u128,
}

impl ClienteId {
    pub closed spec fn spec_uuid(self) -> u128 {
        self.value
    }

    /// Identidade nova, aleatoria (UUID v4).
    pub fn new() -> (id: ClienteId)
        ensures
            uuid_v4(id.spec_uuid()),
    {
        ClienteId { value: random_uuid() }
    }

    pub fn from_uuid(value: u128) -> (id: ClienteId)
        ensures
            id.spec_uuid() == value,
    {
        ClienteId { value }
    }

    pub fn as_uuid(&self) -> (v: u128)
        ensures
            v == self.spec_uuid(),
    {
        self.value
    }
}

/// Identidade do agregado Produto.
#[derive(Debug, Clone, Copy, PartialEq, Eq, Structural, Hash)]
pub struct ProdutoId {
    value: u128,
}

impl ProdutoId {
    pub closed spec fn spec_uuid(self) -> u128 {
        self.value
    }

    /// Identidade nova, aleatoria (UUID v4).
    pub fn new() -> (id: ProdutoId)
        ensures
            uuid_v4(id.spec_uuid()),
    {
        ProdutoId { value: random_uuid() }
    }

    pub fn from_uuid(value: u128) -> (id: ProdutoId)
        ensures
            id.spec_uuid() == value,
    {
        ProdutoId { value }
    }

    pub fn as_uuid(&self) -> (v: u128)
        ensures
            v == self.spec_uuid(),
    {
        self.value
    }
}

/// Identidade do agregado Pedido.
#[derive(Debug, Clone, Copy, PartialEq, Eq, Structural, Hash)]
pub struct PedidoId {
    value: u128,
}

impl PedidoId {
    pub closed spec fn spec_uuid(self) -> u128 {
        self.value
    }

    /// Identidade nova, aleatoria (UUID v4).
    pub fn new() -> (id: PedidoId)
        ensures
            uuid_v4(id.spec_uuid()),
    {
        PedidoId { value: random_uuid() }
    }

    pub fn from_uuid(value: u128) -> (id: PedidoId)
        ensures
            id.spec_uuid() == value,
    {
        PedidoId { value }
    }

    pub fn as_uuid(&self) -> (v: u128)
        ensures
            v == self.spec_uuid(),
    {
        self.value
    }
}

} // verus!
