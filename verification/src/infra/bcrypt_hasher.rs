//! Senhas cifradas com bcrypt (crate `bcrypt`).
use vstd::prelude::*;

use crate::domain::password::{hasher_coerente, HashedPassword, PasswordHasher, PlainPassword};

verus! {

/// O que `bcrypt::verify` devolve para uma senha e um hash: `Some` com a
/// resposta, ou `None` quando o hash nao e um hash bcrypt bem formado.
pub uninterp spec fn bcrypt_verifica(password: Seq<char>, hash: Seq<char>) -> Option<bool>;

/// `bcrypt::verify`: recalcula o hash da senha com o custo e o sal lidos do
/// hash dado e compara. O resultado e o valor nomeado `bcrypt_verifica`; o
/// erro do crate (hash mal formado) vira `None`.
#[verifier::external_body]
fn bcrypt_verify(password: &str, hash: &str) -> (r: Option<bool>)
    ensures
        r == bcrypt_verifica(password@, hash@),
{
    match bcrypt::verify(password, hash) {
        Ok(confere) => Some(confere),
        Err(_) => None,
    }
}

/// `bcrypt::hash`: sorteia um sal e devolve o hash no formato `$2b$`. Com um
/// custo entre 4 e 31 o crate so falha se o gerador aleatorio do sistema
/// falhar, e entao esta funcao entra em panico. O contrato diz que
/// `bcrypt::verify` confere a senha contra o hash gerado (mesmo custo, mesmo
/// sal, mesmo calculo); o hash em si e aleatorio e nao e descrito.
#[verifier::external_body]
fn bcrypt_hash(password: &str, cost: u32) -> (r: String)
    requires
        4 <= cost <= 31,
    ensures
        bcrypt_verifica(password@, r@) == Some(true),
{
    bcrypt::hash(password, cost).expect("o gerador aleatorio do sistema deveria fornecer o sal")
}

/// Hasher bcrypt, com o custo (de 4 a 31) escolhido na criacao.
#[derive(Clone, Copy)]
pub struct BcryptPasswordHasher {
    cost: u32,
}

impl BcryptPasswordHasher {
    #[verifier::type_invariant]
    spec fn custo_aceito(&self) -> bool {
        4 <= self.cost <= 31
    }

    pub closed spec fn custo(&self) -> u32 {
        self.cost
    }

    pub fn new(cost: u32) -> (r: BcryptPasswordHasher)
        requires
            4 <= cost <= 31,
        ensures
            r.custo() == cost,
    {
        BcryptPasswordHasher { cost }
    }

    pub fn cost(&self) -> (c: u32)
        ensures
            c == self.custo(),
            4 <= c <= 31,
    {
        proof {
            use_type_invariant(self);
        }
        self.cost
    }
}

impl PasswordHasher for BcryptPasswordHasher {
    /// Os hashes contra os quais `bcrypt::verify` confere a senha.
    open spec fn hash_possivel(&self, password: Seq<char>, hash: Seq<char>) -> bool {
        bcrypt_verifica(password, hash) == Some(true)
    }

    /// A conferencia responde `true` so quando `bcrypt::verify` confere; um
    /// hash mal formado e recusado.
    open spec fn conferencia_possivel(&self, candidate: Seq<char>, hash: Seq<char>, resposta: bool) -> bool {
        resposta == (bcrypt_verifica(candidate, hash) == Some(true))
    }

    fn hash(&self, password: &PlainPassword) -> (r: HashedPassword) {
        let cost = self.cost();
        HashedPassword::from_hash(bcrypt_hash(password.expose(), cost))
    }

    fn verify(&self, candidate: &PlainPassword, hash: &HashedPassword) -> (r: bool) {
        match bcrypt_verify(candidate.expose(), hash.as_str()) {
            Some(confere) => confere,
            None => false,
        }
    }
}

/// O hasher bcrypt confere toda senha contra os hashes que gera para ela.
pub proof fn lemma_bcrypt_coerente(hasher: BcryptPasswordHasher)
    ensures
        hasher_coerente(hasher),
{
}

} // verus!
