//! Groups of categories.

use vstd::prelude::*;

verus! {

/// A named group of categories, which can be hidden.
#[derive(Debug, Clone, PartialEq)]
pub struct CategoryGroup {
    pub id: String,
    pub name: String,
    pub hidden: bool,
}

impl CategoryGroup {
    /// A visible group.
    pub fn new(id: String, name: String) -> (r: CategoryGroup)
        ensures
            r == (CategoryGroup { id, name, hidden: false }),
    {
        CategoryGroup { id, name, hidden: false }
    }

    /// A group with the given visibility.
    pub fn new_with_visibility(id: String, name: String, hidden: bool) -> (r: CategoryGroup)
        ensures
            r == (CategoryGroup { id, name, hidden }),
    {
        CategoryGroup { id, name, hidden }
    }

    /// The ID.
    pub fn id(&self) -> (r: &str)
        ensures
            r@ == self.id@,
    {
        self.id.as_str()
    }

    /// The name.
    pub fn name(&self) -> (r: &str)
        ensures
            r@ == self.name@,
    {
        self.name.as_str()
    }

    /// Whether the group is hidden.
    pub fn is_hidden(&self) -> (r: bool)
        ensures
            r == self.hidden,
    {
        self.hidden
    }

    /// Hides or shows the group.
    pub fn set_hidden(&mut self, hidden: bool)
        ensures
            *final(self) == (CategoryGroup { hidden, ..*old(self) }),
    {
        self.hidden = hidden;
    }
}

} // verus!
