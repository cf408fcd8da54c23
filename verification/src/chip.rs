use vstd::prelude::*;
use crate::card::clone_strings;
use crate::player::Player;
use crate::viewable::Viewable;
use crate::visibility::Visibility;

verus! {

/// Where a chip stands on its board. The two coordinates are decimal
/// numbers; the engine only carries them around, so it keeps each as the
/// bit pattern of its 32-bit floating-point value.
#[derive(Clone, Copy, PartialEq, Eq, Structural, Debug)]
pub struct Coordinates {
    pub x_bits: u32,
    pub y_bits: u32,
}

impl Coordinates {
    /// The coordinates with the given bit patterns.
    pub fn from_bits(x_bits: u32, y_bits: u32) -> (r: Coordinates)
        ensures
            r.x_bits == x_bits,
            r.y_bits == y_bits,
    {
        Coordinates { x_bits, y_bits }
    }

    /// The corner `(0.0, 0.0)` of a board; positive zero has the bit
    /// pattern `0`.
    pub fn origin() -> (r: Coordinates)
        ensures
            r.x_bits == 0,
            r.y_bits == 0,
    {
        Coordinates { x_bits: 0, y_bits: 0 }
    }
}

/// A chip as the library describes it.
#[derive(Debug)]
pub struct RawChip {
    pub name: String,
    pub art_url: String,
    pub health: i32,
    pub colors: Vec<String>,
}

impl RawChip {
    /// Whether two raw chips hold the same values, field by field.
    pub open spec fn same_as(self, other: RawChip) -> bool {
        &&& self.name == other.name
        &&& self.art_url == other.art_url
        &&& self.health == other.health
        &&& self.colors@ == other.colors@
    }
}

/// Two raw chips that are the same agree on every printed value.
pub proof fn lemma_same_raw_chips_agree(a: RawChip, b: RawChip)
    requires
        a.same_as(b),
    ensures
        a.name == b.name && a.art_url == b.art_url && a.health == b.health && a.colors@ == b.colors@,
{
}

impl Clone for RawChip {
    fn clone(&self) -> (r: Self)
        ensures
            r.same_as(*self),
    {
        RawChip {
            name: self.name.clone(),
            art_url: self.art_url.clone(),
            health: self.health,
            colors: clone_strings(&self.colors),
        }
    }
}

/// A chip on a board: the raw chip and its current state.
#[derive(Debug)]
pub struct Chip {
    pub raw: RawChip,
    pub health: i32,
    pub coordinates: Coordinates,
    pub owner: Player,
    pub visibility: Visibility,
}

impl Chip {
    /// Puts the raw chip on a board for `owner` at the board's origin, with
    /// its printed health.
    pub fn new_from_raw(raw: RawChip, owner: Player, visibility: Visibility) -> (r: Chip)
        ensures
            r.raw == raw,
            r.health == raw.health,
            r.coordinates == Coordinates::origin_spec(),
            r.owner == owner,
            r.visibility == visibility,
    {
        Chip {
            health: raw.health,
            coordinates: Coordinates::origin(),
            owner: owner,
            visibility: visibility,
            raw,
        }
    }

    /// Whether two chips hold the same values, field by field.
    pub open spec fn same_as(self, other: Chip) -> bool {
        &&& self.raw.same_as(other.raw)
        &&& self.health == other.health
        &&& self.coordinates == other.coordinates
        &&& self.owner == other.owner
        &&& self.visibility == other.visibility
    }
}

impl Coordinates {
    /// The origin, as the contracts speak of it.
    pub open spec fn origin_spec() -> Coordinates {
        Coordinates { x_bits: 0, y_bits: 0 }
    }
}

/// Two chips that are the same agree on their raw chip, health, place,
/// owner and visibility.
pub proof fn lemma_same_chips_agree(a: Chip, b: Chip)
    requires
        a.same_as(b),
    ensures
        a.raw.same_as(b.raw) && a.health == b.health && a.coordinates == b.coordinates,
        a.owner == b.owner && a.visibility == b.visibility,
{
}

impl Clone for Chip {
    fn clone(&self) -> (r: Self)
        ensures
            r.same_as(*self),
    {
        Chip {
            raw: self.raw.clone(),
            health: self.health,
            coordinates: self.coordinates,
            owner: self.owner,
            visibility: self.visibility,
        }
    }
}

impl Viewable for Chip {
    open spec fn owner_spec(&self) -> Player {
        self.owner
    }

    open spec fn visibility_spec(&self) -> Visibility {
        self.visibility
    }

    fn visibility(&self) -> (v: Visibility) {
        self.visibility
    }

    fn owner(&self) -> (p: Player) {
        self.owner
    }
}

/// What a player asks to change on a chip; each field that is given
/// replaces the chip's.
#[derive(Clone, Copy, PartialEq, Eq, Structural, Debug)]
pub struct ChipChange {
    pub visibility: Option<Visibility>,
    pub health: Option<i32>,
    pub coordinates: Option<Coordinates>,
}

/// The value that `change` gives, or `current` where it gives none.
pub open spec fn changed<T>(change: Option<T>, current: T) -> T {
    match change {
        Some(v) => v,
        None => current,
    }
}

/// A value a change gives replaces the current one; with none given the
/// current one stays.
pub proof fn lemma_changed_values<T>(v: T, current: T)
    ensures
        changed(Some(v), current) == v,
        changed(None::<T>, current) == current,
{
}

impl ChipChange {
    /// Applies the change to `chip`.
    pub fn apply_to(&self, chip: &mut Chip)
        ensures
            final(chip).visibility == changed(self.visibility, old(chip).visibility),
            final(chip).health == changed(self.health, old(chip).health),
            final(chip).coordinates == changed(self.coordinates, old(chip).coordinates),
            final(chip).raw == old(chip).raw,
            final(chip).owner == old(chip).owner,
    {
        if let Some(value) = self.visibility {
            chip.visibility = value;
        }
        if let Some(value) = self.health {
            chip.health = value;
        }
        if let Some(value) = self.coordinates {
            chip.coordinates = value;
        }
    }
}

} // verus!
