//! Porta de emissao e conferencia de tokens de acesso. O formato (JWT, por
//! exemplo) e decisao de quem implementa; do que devolve se diz so que e uma
//! resposta do servico ao pedido feito.
use vstd::prelude::*;

use crate::domain::role::Role;
use crate::ids::{parse_uuid, uuid_parse, UserId};

verus! {

/// Um token de acesso emitido para um usuario.
#[derive(Debug)]
pub struct AccessToken(pub String);

/// O que um token valido diz de quem o apresentou.
#[derive(Debug)]
pub struct TokenClaims {
    pub user_id: UserId,
    pub role: Role,
}

pub trait TokenService {
    /// As respostas que o servico pode dar a um pedido de token para
    /// `user_id` com o papel `role`: o texto do token, ou o da falha. Por
    /// omissao qualquer resposta e possivel (o token pode depender do relogio,
    /// da chave, ...): a implementacao decide, e pode restringir a relacao.
    open spec fn emissao_possivel(&self, user_id: u128, role: Role, resposta: Result<Seq<char>, Seq<char>>) -> bool {
        true
    }

    /// Emite um token para o usuario; o erro descreve a falha.
    fn issue(&self, user_id: UserId, role: Role) -> (r: Result<AccessToken, String>)
        ensures
            self.emissao_possivel(
                user_id.spec_uuid(),
                role,
                match r {
                    Ok(t) => Ok(t.0@),
                    Err(m) => Err(m@),
                },
            ),
    ;

    /// Confere um token e devolve quem ele identifica.
    fn verify(&self, token: &str) -> Result<TokenClaims, String>;
}

/// Quando expira (em segundos desde a epoca) um token emitido no instante
/// `agora` e valido por `ttl` segundos; um instante antes da epoca vira zero.
pub fn expiracao(agora: i64, ttl: i64) -> (r: u64)
    ensures
        r as int == if agora + ttl < 0 {
            0
        } else {
            agora + ttl
        },
{
    let soma: i128 = agora as i128 + ttl as i128;
    if soma < 0 {
        0
    } else {
        soma as u64
    }
}

/// As claims de um token ja conferido: `sub` e o id do usuario (UUID) e
/// `role` o nome do papel; a recusa diz qual dos dois e invalido.
pub fn claims_do_token(sub: &str, role: &str) -> (r: Result<TokenClaims, String>)
    ensures
        match r {
            Ok(c) => uuid_parse(sub@) == Some(c.user_id.spec_uuid()) && Role::spec_parse(role@) == Some(
                c.role,
            ),
            Err(m) => (uuid_parse(sub@) is None && m@ == "token com id invalido"@) || (uuid_parse(
                sub@,
            ) is Some && Role::spec_parse(role@) is None && m@ == "token com papel invalido"@),
        },
{
    let user_id = match parse_uuid(sub) {
        Some(u) => u,
        None => return Err("token com id invalido".to_string()),
    };
    let papel = match Role::parse(role) {
        Some(p) => p,
        None => return Err("token com papel invalido".to_string()),
    };
    Ok(TokenClaims { user_id: UserId::from_uuid(user_id), role: papel })
}

} // verus!
