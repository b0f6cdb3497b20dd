//! Value object `Quantidade` de um item de pedido.
use vstd::prelude::*;

use crate::domain::errors::DomainError;

verus! {

/// Quantidade de um item de pedido: so existe se for maior que zero.
#[derive(Debug, Clone, Copy, PartialEq, Eq, Structural)]
pub struct Quantidade {
    value: u32,
}

impl Quantidade {
    #[verifier::type_invariant]
    spec fn positiva(self) -> bool {
        self.value > 0
    }

    pub closed spec fn spec_valor(self) -> u32 {
        self.value
    }

    pub fn parse(raw: u32) -> (r: Result<Quantidade, DomainError>)
        ensures
            raw == 0 ==> r == Err::<Quantidade, DomainError>(DomainError::InvalidQuantidade),
            raw > 0 ==> (r matches Ok(q) && q.spec_valor() == raw),
    {
        if raw == 0 {
            return Err(DomainError::InvalidQuantidade);
        }
        Ok(Quantidade { value: raw })
    }

    pub fn valor(&self) -> (v: u32)
        ensures
            v == self.spec_valor(),
            v > 0,
    {
        proof {
            use_type_invariant(self);
        }
        self.value
    }
}

} // verus!
