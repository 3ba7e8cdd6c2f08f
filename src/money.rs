//! Monetary amounts in milliunits (1/1000 of the major currency unit).

use vstd::prelude::*;

verus! {

/// A signed amount of money in milliunits: negative is an expense, positive
/// is income.
#[derive(Debug, Clone, Copy, PartialEq, Eq, PartialOrd, Ord, Hash, Structural)]
pub struct Money {
    pub milliunits: i64,
}

impl View for Money {
    type V = int;

    /// The amount in milliunits.
    open spec fn view(&self) -> int {
        self.milliunits as int
    }
}

impl Money {
    /// Makes an amount from a number of milliunits.
    pub fn from_milliunits(milliunits: i64) -> (r: Money)
        ensures
            r@ == milliunits,
    {
        Money { milliunits }
    }

    /// The amount as a number of milliunits.
    pub fn as_milliunits(&self) -> (r: i64)
        ensures
            r == self@,
    {
        self.milliunits
    }
}

} // verus!
