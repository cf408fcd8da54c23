use vstd::prelude::*;

verus! {

/// Who may look at the face of a card or a chip.
#[derive(Clone, Copy, PartialEq, Eq, Structural, Debug)]
pub enum Visibility {
    /// Visible to no one (but the administrator).
    Secret,
    /// Visible to its owner.
    Private,
    /// Visible to everyone.
    Public,
}

impl Visibility {
    /// Whether the owner of an object with this visibility may look at it.
    pub fn can_be_viewed_by_owner(&self) -> (r: bool)
        ensures
            r == !(*self is Secret),
    {
        match self {
            Visibility::Secret => false,
            Visibility::Public => true,
            Visibility::Private => true,
        }
    }

    /// Whether someone other than the owner may look at an object with this
    /// visibility.
    pub fn can_be_viewed_by_not_owner(&self) -> (r: bool)
        ensures
            r == (*self is Public),
    {
        match self {
            Visibility::Secret => false,
            Visibility::Public => true,
            Visibility::Private => false,
        }
    }
}

} // verus!
