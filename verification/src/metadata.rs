//! Human-readable token metadata: a simple holder with no
//! invariant-bearing logic.

use vstd::prelude::*;

verus! {

pub struct Metadata {
    pub name: Option<String>,
    pub symbol: Option<String>,
    pub decimals: u8,
}

impl Metadata {
    pub fn new(name: Option<String>, symbol: Option<String>, decimals: u8) -> (r: Self)
        ensures
            r.name == name,
            r.symbol == symbol,
            r.decimals == decimals,
    {
        Metadata { name, symbol, decimals }
    }

    pub fn token_name(&self) -> (r: Option<String>)
        ensures
            r == self.name,
    {
        match &self.name {
            Some(s) => Some(s.clone()),
            None => None,
        }
    }

    pub fn token_symbol(&self) -> (r: Option<String>)
        ensures
            r == self.symbol,
    {
        match &self.symbol {
            Some(s) => Some(s.clone()),
            None => None,
        }
    }

    pub fn token_decimals(&self) -> (r: u8)
        ensures
            r == self.decimals,
    {
        self.decimals
    }
}

} // verus!
