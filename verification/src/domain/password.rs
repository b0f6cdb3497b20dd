//! Senhas: em texto puro (so com a forca minima) e ja cifradas.
use vstd::prelude::*;

use crate::domain::errors::DomainError;

verus! {

pub open spec fn is_ascii_upper(c: char) -> bool {
    'A' <= c <= 'Z'
}

pub open spec fn is_ascii_lower(c: char) -> bool {
    'a' <= c <= 'z'
}

pub open spec fn is_ascii_digit(c: char) -> bool {
    '0' <= c <= '9'
}

/// Politica de forca minima: ao menos 8 caracteres, com letra maiuscula,
/// letra minuscula e digito ASCII.
pub open spec fn senha_forte(s: Seq<char>) -> bool {
    &&& s.len() >= 8
    &&& exists|k: int| 0 <= k < s.len() && is_ascii_upper(#[trigger] s[k])
    &&& exists|k: int| 0 <= k < s.len() && is_ascii_lower(#[trigger] s[k])
    &&& exists|k: int| 0 <= k < s.len() && is_ascii_digit(#[trigger] s[k])
}

/// Senha em texto puro. So existe se atender a politica de forca minima; nunca
/// e persistida nem registrada na auditoria.
pub struct PlainPassword {
    text: String,
}

impl View for PlainPassword {
    type V = Seq<char>;

    closed spec fn view(&self) -> Seq<char> {
        self.text@
    }
}

impl PlainPassword {
    pub fn parse(raw: &str) -> (r: Result<PlainPassword, DomainError>)
        ensures
            match r {
                Ok(p) => senha_forte(raw@) && p@ == raw@,
                Err(e) => !senha_forte(raw@) && e == DomainError::WeakPassword,
            },
    {
        if !Self::is_strong_enough(raw) {
            return Err(DomainError::WeakPassword);
        }
        Ok(PlainPassword { text: raw.to_string() })
    }

    fn is_strong_enough(raw: &str) -> (b: bool)
        ensures
            b == senha_forte(raw@),
    {
        let n = raw.unicode_len();
        let has_min_length = n >= 8;
        let mut has_uppercase = false;
        let mut has_lowercase = false;
        let mut has_digit = false;
        let mut i: usize = 0;
        while i < n
            invariant
                n == raw@.len(),
                i <= n,
                has_uppercase == exists|k: int| 0 <= k < i && is_ascii_upper(#[trigger] raw@[k]),
                has_lowercase == exists|k: int| 0 <= k < i && is_ascii_lower(#[trigger] raw@[k]),
                has_digit == exists|k: int| 0 <= k < i && is_ascii_digit(#[trigger] raw@[k]),
            decreases n - i,
        {
            let c = raw.get_char(i);
            if 'A' <= c && c <= 'Z' {
                has_uppercase = true;
            }
            if 'a' <= c && c <= 'z' {
                has_lowercase = true;
            }
            if '0' <= c && c <= '9' {
                has_digit = true;
            }
            i = i + 1;
        }
        has_min_length && has_uppercase && has_lowercase && has_digit
    }

    /// So quem cifra a senha tem motivo para ler o valor cru.
    pub fn expose(&self) -> (s: &str)
        ensures
            s@ == self@,
    {
        self.text.as_str()
    }
}

/// Senha ja cifrada. O dominio nao sabe qual algoritmo foi usado.
#[derive(Debug)]
pub struct HashedPassword {
    hash: String,
}

impl View for HashedPassword {
    type V = Seq<char>;

    closed spec fn view(&self) -> Seq<char> {
        self.hash@
    }
}

impl HashedPassword {
    pub fn from_hash(hash: String) -> (r: HashedPassword)
        ensures
            r@ == hash@,
    {
        HashedPassword { hash }
    }

    pub fn as_str(&self) -> (s: &str)
        ensures
            s@ == self@,
    {
        self.hash.as_str()
    }

    pub fn duplicate(&self) -> (r: HashedPassword)
        ensures
            r@ == self@,
    {
        HashedPassword { hash: self.hash.clone() }
    }
}

/// Porta para cifrar e conferir senhas. O algoritmo (bcrypt, argon2...) e
/// decisao de quem implementa; o hash pode ser aleatorio (sal), por isso o
/// que o hasher faz e descrito por relacoes, que cada implementacao pode
/// restringir.
pub trait PasswordHasher {
    /// Os hashes que o hasher pode gerar para a senha `password`. Por omissao,
    /// qualquer um.
    open spec fn hash_possivel(&self, password: Seq<char>, hash: Seq<char>) -> bool {
        true
    }

    /// As respostas que o hasher pode dar a pergunta "a senha `candidate` gera
    /// o hash `hash`?". Por omissao, qualquer uma.
    open spec fn conferencia_possivel(&self, candidate: Seq<char>, hash: Seq<char>, resposta: bool) -> bool {
        true
    }

    fn hash(&self, password: &PlainPassword) -> (r: HashedPassword)
        ensures
            self.hash_possivel(password@, r@),
    ;

    fn verify(&self, candidate: &PlainPassword, hash: &HashedPassword) -> (r: bool)
        ensures
            self.conferencia_possivel(candidate@, hash@, r),
    ;
}

/// O hasher confere toda senha contra os hashes que pode gerar para ela: a
/// conferencia de uma senha com um hash seu so pode responder `true`.
pub open spec fn hasher_coerente<H: PasswordHasher>(hasher: H) -> bool {
    forall|p: Seq<char>, h: Seq<char>, b: bool|
        hasher.hash_possivel(p, h) && #[trigger] hasher.conferencia_possivel(p, h, b) ==> b
}

} // verus!
