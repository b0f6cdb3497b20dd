//! Papel do usuario (controle de acesso).
use vstd::prelude::*;

use crate::text::same_text;

verus! {

#[derive(Debug, Clone, Copy, PartialEq, Eq, Structural)]
pub enum Role {
    User,
    Admin,
}

impl Role {
    pub open spec fn spec_as_str(self) -> Seq<char> {
        match self {
            Role::User => "user"@,
            Role::Admin => "admin"@,
        }
    }

    /// O papel cujo nome e exatamente `raw`.
    pub open spec fn spec_parse(raw: Seq<char>) -> Option<Role> {
        if raw == "user"@ {
            Some(Role::User)
        } else if raw == "admin"@ {
            Some(Role::Admin)
        } else {
            None
        }
    }

    pub fn as_str(&self) -> (s: &'static str)
        ensures
            s@ == self.spec_as_str(),
    {
        match self {
            Role::User => "user",
            Role::Admin => "admin",
        }
    }

    pub fn parse(raw: &str) -> (r: Option<Role>)
        ensures
            r == Role::spec_parse(raw@),
    {
        if same_text(raw, "user") {
            Some(Role::User)
        } else if same_text(raw, "admin") {
            Some(Role::Admin)
        } else {
            None
        }
    }

    /// Ler o nome de um papel devolve o proprio papel.
    pub proof fn lemma_parse_as_str(self)
        ensures
            Role::spec_parse(self.spec_as_str()) == Some(self),
    {
        reveal_strlit("user");
        reveal_strlit("admin");
        assert("user"@.len() != "admin"@.len());
    }
}

} // verus!
