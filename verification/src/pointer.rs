use vstd::prelude::*;
use vstd::arithmetic::div_mod::lemma_fundamental_div_mod_converse;
use vstd::arithmetic::div_mod::lemma_fundamental_div_mod;

verus! {

/// The place that an index of a pointer stands for in a sequence of `len`
/// items: `0..` counts from the start, `-1` is the free space after the
/// last item, `-2` the last item, and so on. Indices wrap around the
/// `len + 1` places.
pub open spec fn spec_position(index: int, len: int) -> int {
    index % (len + 1)
}

proof fn lemma_negative_mod(b: int, n: int, r: int)
    requires
        b > 0,
        n > 0,
        r == b % n,
    ensures
        r == 0 ==> (-b) % n == 0,
        r != 0 ==> (-b) % n == n - r,
{
    lemma_fundamental_div_mod(b, n);
    let q = b / n;
    assert(b == n * q + r);
    assert(0 <= r < n);
    if r == 0 {
        assert(-b == (-q) * n + 0) by (nonlinear_arith)
            requires
                b == n * q + r,
                r == 0,
        ;
        lemma_fundamental_div_mod_converse(-b, n, -q, 0);
    } else {
        assert(-b == (-q - 1) * n + (n - r)) by (nonlinear_arith)
            requires
                b == n * q + r,
        ;
        lemma_fundamental_div_mod_converse(-b, n, -q - 1, n - r);
    }
}

/// A number below the modulus is its own remainder.
pub proof fn lemma_small_mod(a: int, n: int)
    requires
        0 <= a < n,
    ensures
        a % n == a,
{
    lemma_fundamental_div_mod_converse(a, n, 0, a);
}

/// The place in `0..=len` that `index` points at among `len` items.
pub fn position(index: i32, len: usize) -> (p: usize)
    ensures
        p == spec_position(index as int, len as int),
        p <= len,
{
    if index >= 0 {
        let i = index as usize;
        if i <= len {
            proof {
                lemma_small_mod(i as int, len + 1);
            }
            i
        } else {
            // here len < i < 2^31, so len + 1 does not overflow
            let n = len + 1;
            proof {
                lemma_fundamental_div_mod(i as int, n as int);
            }
            i % n
        }
    } else {
        let b: u64 = (-(index as i64)) as u64;
        if (b as u128) <= (len as u128) + 1 {
            // -index == b with 1 <= b <= len + 1
            let p = len - ((b - 1) as usize);
            proof {
                let n = len + 1;
                if b == n {
                    lemma_fundamental_div_mod_converse(-(b as int), n as int, -1, 0);
                } else {
                    lemma_fundamental_div_mod_converse(-(b as int), n as int, -1, n - b);
                }
            }
            p
        } else {
            // here len + 1 < b <= 2^31
            let n = (len + 1) as u64;
            let r = b % n;
            proof {
                lemma_fundamental_div_mod(b as int, n as int);
                lemma_negative_mod(b as int, n as int, r as int);
            }
            if r == 0 {
                0
            } else {
                (n - r) as usize
            }
        }
    }
}


/// Which pile of a seat a pointer names: a named pile, or the seat's side
/// of a battlefield.
#[derive(Debug)]
pub enum PileType {
    Name(String),
    Battlefield(i32),
}

impl Clone for PileType {
    fn clone(&self) -> (r: Self)
        ensures
            r == *self,
    {
        match self {
            PileType::Name(name) => PileType::Name(name.clone()),
            PileType::Battlefield(i) => PileType::Battlefield(*i),
        }
    }
}

/// A pile on the table: its seat and which of the seat's piles.
#[derive(Debug)]
pub struct PilePointer {
    pub player: i32,
    pub pile_type: PileType,
}

impl Clone for PilePointer {
    fn clone(&self) -> (r: Self)
        ensures
            r == *self,
    {
        PilePointer { player: self.player, pile_type: self.pile_type.clone() }
    }
}

/// A place in a pile: a card, or the free space after the last card.
#[derive(Debug)]
pub struct CardPointer {
    pub pile: PilePointer,
    pub index: i32,
}

impl Clone for CardPointer {
    fn clone(&self) -> (r: Self)
        ensures
            r == *self,
    {
        CardPointer { pile: self.pile.clone(), index: self.index }
    }
}

/// A board on the table, by name.
#[derive(Debug)]
pub enum BoardPointer {
    Name(String),
}

impl Clone for BoardPointer {
    fn clone(&self) -> (r: Self)
        ensures
            r == *self,
    {
        match self {
            BoardPointer::Name(name) => BoardPointer::Name(name.clone()),
        }
    }
}

/// A place on a board: a chip, or the free space after the last chip.
#[derive(Debug)]
pub struct ChipPointer {
    pub board: BoardPointer,
    pub index: i32,
}

impl Clone for ChipPointer {
    fn clone(&self) -> (r: Self)
        ensures
            r == *self,
    {
        ChipPointer { board: self.board.clone(), index: self.index }
    }
}

/// Normalizing an index twice gives what normalizing it once gives, and a
/// normalized index stands for itself.
pub proof fn lemma_position_idempotent(index: int, len: int)
    requires
        len >= 0,
    ensures
        0 <= spec_position(index, len) <= len,
        spec_position(spec_position(index, len), len) == spec_position(index, len),
{
    lemma_fundamental_div_mod(index, len + 1);
    lemma_small_mod(spec_position(index, len), len + 1);
}

/// Each of the `len + 1` places has exactly one index in `0..=len`, one in
/// `-(len + 1)..=-1`, and indices one turn apart point at the same place.
pub proof fn lemma_position_from_both_ends(i: int, len: int)
    requires
        0 <= i <= len,
    ensures
        spec_position(i, len) == i,
        spec_position(i - (len + 1), len) == i,
        spec_position(i + (len + 1), len) == i,
{
    lemma_small_mod(i, len + 1);
    lemma_fundamental_div_mod_converse(i - (len + 1), len + 1, -1, i);
    lemma_fundamental_div_mod_converse(i + (len + 1), len + 1, 1, i);
}

} // verus!
