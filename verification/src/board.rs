use vstd::prelude::*;
use crate::chip::{Chip, ChipChange, changed};
use crate::game::Game;
use crate::pointer::{BoardPointer, ChipPointer, position, spec_position};

verus! {

/// A board as the rules describe it: its size and its first picture.
#[derive(Debug)]
pub struct RawBoard {
    pub height: usize,
    pub width: usize,
    pub img_url: String,
}

impl Clone for RawBoard {
    fn clone(&self) -> (r: Self)
        ensures
            r == *self,
    {
        RawBoard { height: self.height, width: self.width, img_url: self.img_url.clone() }
    }
}

/// A board on the table, with its current picture and the chips on it.
#[derive(Debug)]
pub struct Board {
    pub raw: RawBoard,
    pub img_url: String,
    pub chips: Vec<Chip>,
}

/// The chip that a pointer's index reaches among the given chips, if it
/// reaches one rather than the free space after the last chip.
pub open spec fn chip_reached(chips: Seq<Chip>, index: int) -> Option<Chip> {
    let p = spec_position(index, chips.len() as int);
    if p < chips.len() {
        Some(chips[p])
    } else {
        None
    }
}

impl Board {
    /// A board without chips, showing its first picture.
    pub fn new_empty(raw: RawBoard) -> (r: Board)
        ensures
            r.raw == raw,
            r.img_url == raw.img_url,
            r.chips@ == Seq::<Chip>::empty(),
    {
        Board { img_url: raw.img_url.clone(), chips: Vec::new(), raw }
    }

    /// Number of chips on the board.
    pub fn chips_size(&self) -> (n: usize)
        ensures
            n == self.chips@.len(),
    {
        self.chips.len()
    }

    /// The chip that `index` points at, if it points at a chip.
    pub fn chip_at(&self, index: i32) -> (r: Option<&Chip>)
        ensures
            match r {
                Some(c) => chip_reached(self.chips@, index as int) == Some(*c),
                None => chip_reached(self.chips@, index as int) is None,
            },
    {
        let p = position(index, self.chips.len());
        if p < self.chips.len() {
            Some(&self.chips[p])
        } else {
            None
        }
    }

    /// Puts `chip` at the place that `index` points at.
    pub fn insert_chip(&mut self, index: i32, chip: Chip)
        ensures
            final(self).raw == old(self).raw,
            final(self).img_url == old(self).img_url,
            final(self).chips@ == old(self).chips@.insert(
                spec_position(index as int, old(self).chips@.len() as int),
                chip,
            ),
    {
        let p = position(index, self.chips.len());
        self.chips.insert(p, chip);
    }

    /// Applies `changes` to the chip that `index` points at; tells whether
    /// it points at a chip. Where it does not, nothing changes.
    pub fn change_chip(&mut self, index: i32, changes: &ChipChange) -> (hit: bool)
        ensures
            final(self).raw == old(self).raw,
            final(self).img_url == old(self).img_url,
            hit == (chip_reached(old(self).chips@, index as int) is Some),
            !hit ==> final(self).chips@ == old(self).chips@,
            hit ==> ({
                let p = spec_position(index as int, old(self).chips@.len() as int);
                let before = old(self).chips@[p];
                let after = final(self).chips@[p];
                &&& final(self).chips@.len() == old(self).chips@.len()
                &&& forall|j: int| 0 <= j < old(self).chips@.len() && j != p ==>
                        final(self).chips@[j] == old(self).chips@[j]
                &&& after.visibility == changed(changes.visibility, before.visibility)
                &&& after.health == changed(changes.health, before.health)
                &&& after.coordinates == changed(changes.coordinates, before.coordinates)
                &&& after.raw == before.raw
                &&& after.owner == before.owner
            }),
    {
        let p = position(index, self.chips.len());
        if p < self.chips.len() {
            changes.apply_to(&mut self.chips[p]);
            true
        } else {
            false
        }
    }
}

/// What a player asks to change on a board.
#[derive(Debug)]
pub struct BoardChange {
    pub img_url: Option<String>,
}

impl BoardChange {
    /// Applies the change to `board`: a given picture replaces the board's.
    pub fn apply_to(&self, board: &mut Board)
        ensures
            final(board).raw == old(board).raw,
            final(board).chips == old(board).chips,
            final(board).img_url == changed(self.img_url, old(board).img_url),
    {
        if let Some(img_url) = &self.img_url {
            board.img_url = img_url.clone();
        }
    }
}


/// A place on a board of a game: the board and the index among its chips.
#[derive(Debug)]
pub struct ChipOnBoard {
    pub board: BoardPointer,
    pub index: i32,
}

impl ChipOnBoard {
    /// The pointer to this place.
    pub open spec fn pointer(&self) -> ChipPointer {
        ChipPointer { board: self.board, index: self.index }
    }

    /// The place that `pointer` names, if the game has its board.
    pub fn from_pointer(game: &Game, pointer: &ChipPointer) -> (r: Option<ChipOnBoard>)
        requires
            game.wf(),
        ensures
            r is Some <==> game.board_of(pointer.board) is Some,
            r matches Some(c) ==> c.pointer() == *pointer,
    {
        if game.board(&pointer.board).is_some() {
            Some(ChipOnBoard { board: pointer.board.clone(), index: pointer.index })
        } else {
            None
        }
    }

    /// The chip at this place, if there is one.
    pub fn chip<'a>(&self, game: &'a Game) -> (r: Option<&'a Chip>)
        requires
            game.wf(),
        ensures
            match r {
                Some(c) => game.chip_of(self.pointer()) == Some(*c),
                None => game.chip_of(self.pointer()) is None,
            },
    {
        let pointer = ChipPointer { board: self.board.clone(), index: self.index };
        game.chip(&pointer)
    }

    /// Puts `chip` at this place; tells whether the game has the board.
    pub fn insert(&self, game: &mut Game, chip: Chip) -> (hit: bool)
        requires
            old(game).wf(),
        ensures
            hit == (old(game).board_of(self.board) is Some),
            !hit ==> *final(game) == *old(game),
            hit ==> ({
                let before = old(game).board_of(self.board)->Some_0;
                &&& final(game).board_of(self.board) matches Some(after)
                &&& Game::only_board_changed(*old(game), *final(game), self.board->Name_0@, after)
                &&& after.raw == before.raw
                &&& after.img_url == before.img_url
                &&& after.chips@ == before.chips@.insert(spec_position(self.index as int, before.chips@.len() as int), chip)
            }),
    {
        let pointer = ChipPointer { board: self.board.clone(), index: self.index };
        game.insert_chip(&pointer, chip)
    }
}

} // verus!
