use vstd::prelude::*;
use crate::player::{Player, ADMIN_ID};
use crate::visibility::Visibility;

verus! {

/// Whether `viewer` may look at an object owned by `owner` with the given
/// visibility: the administrator sees everything, the owner sees what is
/// not secret, and everyone sees what is public.
pub open spec fn may_view(owner: Player, visibility: Visibility, viewer: Player) -> bool {
    ||| viewer == Player(ADMIN_ID)
    ||| viewer == owner && !(visibility is Secret)
    ||| visibility is Public
}

/// An object on the table that belongs to someone and is shown to some.
pub trait Viewable {
    /// The owner, as the contracts speak of it.
    spec fn owner_spec(&self) -> Player;

    /// The visibility, as the contracts speak of it.
    spec fn visibility_spec(&self) -> Visibility;

    /// Current visibility of the object.
    fn visibility(&self) -> (v: Visibility)
        ensures
            v == self.visibility_spec(),
    ;

    /// Current owner of the object.
    fn owner(&self) -> (p: Player)
        ensures
            p == self.owner_spec(),
    ;

    /// Whether `viewer` may look at the face of the object.
    fn can_be_viewed_by(&self, viewer: &Player) -> (r: bool)
        ensures
            r == may_view(self.owner_spec(), self.visibility_spec(), *viewer),
    {
        if viewer.0 == ADMIN_ID {
            true
        } else if *viewer == self.owner() && self.visibility().can_be_viewed_by_owner() {
            true
        } else if self.visibility().can_be_viewed_by_not_owner() {
            true
        } else {
            false
        }
    }
}

/// The administrator may look at everything.
pub proof fn lemma_admin_sees_everything(owner: Player, visibility: Visibility)
    ensures
        may_view(owner, visibility, Player(ADMIN_ID)),
{
}

/// A public object may be looked at by anyone.
pub proof fn lemma_public_seen_by_all(owner: Player, viewer: Player)
    ensures
        may_view(owner, Visibility::Public, viewer),
{
}

/// A secret object may be looked at by the administrator alone.
pub proof fn lemma_secret_seen_by_admin_only(owner: Player, viewer: Player)
    ensures
        may_view(owner, Visibility::Secret, viewer) <==> viewer == Player(ADMIN_ID),
{
}

/// A private object may be looked at by its owner and the administrator,
/// and by no one else.
pub proof fn lemma_private_seen_by_owner_and_admin(owner: Player, viewer: Player)
    ensures
        may_view(owner, Visibility::Private, viewer) <==> (viewer == owner || viewer == Player(ADMIN_ID)),
{
}

/// Widening the visibility never hides an object from someone who saw it:
/// whoever may see it while private may see it once public.
pub proof fn lemma_owner_sees_what_others_see(owner: Player, visibility: Visibility, viewer: Player)
    ensures
        may_view(owner, visibility, viewer) ==> may_view(owner, Visibility::Public, viewer),
        may_view(owner, Visibility::Secret, viewer) ==> may_view(owner, visibility, viewer),
{
}

} // verus!
