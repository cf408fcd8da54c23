use vstd::prelude::*;

verus! {

/// A seat at the table, by number: `0` is the administrator (the table
/// itself), `1..` are players and `-1` is someone who only watches.
#[derive(Clone, Copy, PartialEq, Eq, Structural, Debug)]
pub struct Player(pub i32);

/// Seat number of someone who watches the game and may not touch anything.
pub const WATCHER_ID: i32 = -1;

/// Seat number of the table itself, which owns the shared piles and sees
/// everything.
pub const ADMIN_ID: i32 = 0;

/// Seat number of the first player.
pub const A_ID: i32 = 1;

/// Seat number of the second player.
pub const B_ID: i32 = 2;

impl Player {
    /// The watcher's seat.
    pub fn watcher() -> (p: Player)
        ensures
            p == Player(WATCHER_ID),
    {
        Player(WATCHER_ID)
    }

    /// The administrator's seat.
    pub fn admin() -> (p: Player)
        ensures
            p == Player(ADMIN_ID),
    {
        Player(ADMIN_ID)
    }

    /// The first player's seat.
    pub fn a() -> (p: Player)
        ensures
            p == Player(A_ID),
    {
        Player(A_ID)
    }

    /// The second player's seat.
    pub fn b() -> (p: Player)
        ensures
            p == Player(B_ID),
    {
        Player(B_ID)
    }
}

} // verus!
