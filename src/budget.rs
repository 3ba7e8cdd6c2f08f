//! Budgets.

use vstd::prelude::*;

verus! {

/// A budget, by ID and name.
#[derive(Debug, Clone, PartialEq)]
pub struct Budget {
    pub id: String,
    pub name: String,
}

impl Budget {
    /// Makes the record from its ID and name.
    pub fn new(id: String, name: String) -> (r: Budget)
        ensures
            r == (Budget { id, name }),
    {
        Budget { id, name }
    }

    /// The ID.
    pub fn id(&self) -> (r: &str)
        ensures
            r@ == self.id@,
    {
        self.id.as_str()
    }

    /// The name.
    pub fn name(&self) -> (r: &str)
        ensures
            r@ == self.name@,
    {
        self.name.as_str()
    }
}

} // verus!
