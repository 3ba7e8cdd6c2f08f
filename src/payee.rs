//! Payees.

use vstd::prelude::*;

verus! {

/// Someone a transaction pays or is paid by.
#[derive(Debug, Clone, PartialEq)]
pub struct Payee {
    pub id: String,
    pub name: String,
}

impl Payee {
    /// Makes the record from its ID and name.
    pub fn new(id: String, name: String) -> (r: Payee)
        ensures
            r == (Payee { id, name }),
    {
        Payee { id, name }
    }

    /// The ID.
    pub fn id(&self) -> (r: &str)
        ensures
            r@ == self.id@,
    {
        self.id.as_str()
    }

    /// The name.
    pub fn name(&self) -> (r: &str)
        ensures
            r@ == self.name@,
    {
        self.name.as_str()
    }
}

} // verus!
