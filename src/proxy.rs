//! Kinds of proxy delegation and how they nest.
use vstd::prelude::*;

verus! {

/// What a proxy may do on behalf of its delegator.
#[derive(Clone, Copy, Debug, PartialEq, Eq, Structural)]
pub enum ProxyType {
    Any,
    NonTransfer,
    Staking,
    Nomination,
}

/// Kinds nest in a chain: `Nomination` within `Staking` within
/// `NonTransfer` within `Any`.
pub open spec fn proxy_level(p: ProxyType) -> nat {
    match p {
        ProxyType::Any => 3,
        ProxyType::NonTransfer => 2,
        ProxyType::Staking => 1,
        ProxyType::Nomination => 0,
    }
}

impl Default for ProxyType {
    fn default() -> (r: Self)
        ensures
            r == ProxyType::Any,
    {
        ProxyType::Any
    }
}

impl ProxyType {
    /// Whether a proxy of this kind may do all that one of kind `o` may.
    pub fn is_superset(&self, o: &Self) -> (r: bool)
        ensures
            r == (proxy_level(*self) >= proxy_level(*o)),
    {
        match self {
            ProxyType::Any => true,
            ProxyType::NonTransfer => match o {
                ProxyType::Any => false,
                _ => true,
            },
            ProxyType::Staking => match o {
                ProxyType::Any | ProxyType::NonTransfer => false,
                _ => true,
            },
            ProxyType::Nomination => match o {
                ProxyType::Nomination => true,
                _ => false,
            },
        }
    }
}

} // verus!
