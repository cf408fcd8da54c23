use vstd::prelude::*;
use crate::card::{Card, RawCard, fresh_from_raw};
use crate::player::Player;
use crate::game::{Game, card_moved};
use crate::pointer::{CardPointer, PilePointer, lemma_position_from_both_ends, position, spec_position};
use crate::shuffle::shuffle;
use crate::view::{CardChange, card_changed};
use crate::visibility::Visibility;

verus! {

/// How a pile is set up: who owns it, how its cards are shown by default,
/// whether it only takes printed cards and whether it is shuffled.
#[derive(Clone, Copy, PartialEq, Eq, Structural, Debug)]
pub struct PileConfig {
    pub only_raw_cards: bool,
    pub default_visibility: Visibility,
    pub owner: Player,
    pub shuffled: bool,
}

/// An ordered pile of cards; index `0` is its top.
#[derive(Debug)]
pub struct Pile {
    pub cards: Vec<Card>,
    pub config: PileConfig,
}

impl View for Pile {
    type V = Seq<Card>;

    open spec fn view(&self) -> Seq<Card> {
        self.cards@
    }
}

/// The card that a pointer's index reaches in a pile of the given cards,
/// if it reaches one rather than the free space after the last card.
pub open spec fn card_reached(cards: Seq<Card>, index: int) -> Option<Card> {
    let p = spec_position(index, cards.len() as int);
    if p < cards.len() {
        Some(cards[p])
    } else {
        None
    }
}

/// A card put at a place can be taken back from it: after inserting `card`
/// at `index` (from `-(len + 1)` to `len`), the same place — `index` when
/// counted from the top, `index - 1` when counted from the bottom, since the
/// pile grew by one — holds `card`, and taking it out leaves the pile as it
/// was.
pub proof fn lemma_insert_then_take(cards: Seq<Card>, index: int, card: Card)
    requires
        -(cards.len() + 1) <= index <= cards.len(),
    ensures
        ({
            let after = cards.insert(spec_position(index, cards.len() as int), card);
            let back = if index >= 0 { index } else { index - 1 };
            &&& card_reached(after, back) == Some(card)
            &&& after.remove(spec_position(back, after.len() as int)) == cards
        }),
{
    let n = cards.len() as int;
    let p = if index >= 0 { index } else { index + n + 1 };
    lemma_position_from_both_ends(p, n);
    lemma_position_from_both_ends(p, n + 1);
    let after = cards.insert(spec_position(index, n), card);
    let back = if index >= 0 { index } else { index - 1 };
    assert(spec_position(index, n) == p);
    assert(spec_position(back, n + 1) == p);
    assert(after.remove(p) =~= cards);
}

impl Pile {
    /// An empty pile.
    pub fn new_empty(config: PileConfig) -> (r: Pile)
        ensures
            r@ == Seq::<Card>::empty(),
            r.config == config,
    {
        Pile { cards: Vec::new(), config }
    }

    /// A pile of the printed cards `cards`, in their order, each owned by
    /// the pile's owner and shown with the pile's default visibility.
    pub fn from_raw_cards(config: PileConfig, cards: Vec<RawCard>) -> (r: Pile)
        ensures
            r.config == config,
            r@.len() == cards@.len(),
            forall|i: int| 0 <= i < cards@.len() ==>
                fresh_from_raw(#[trigger] r@[i], cards@[i], config.owner, config.default_visibility),
    {
        let mut made: Vec<Card> = Vec::new();
        for i in 0..cards.len()
            invariant
                made@.len() == i,
                forall|j: int| 0 <= j < i ==>
                    fresh_from_raw(#[trigger] made@[j], cards@[j], config.owner, config.default_visibility),
        {
            made.push(Card::from_raw(&cards[i], config.owner, config.default_visibility));
        }
        Pile { cards: made, config }
    }

    /// A pile of `cards`, shuffled when the configuration asks for it.
    pub fn new(config: PileConfig, cards: Vec<Card>) -> (r: Pile)
        ensures
            r.config == config,
            r@.len() == cards@.len(),
            r@.to_multiset() == cards@.to_multiset(),
            !config.shuffled ==> r@ == cards@,
    {
        let mut cards = cards;
        if config.shuffled {
            shuffle(&mut cards);
        }
        Pile { config, cards }
    }

    /// Copies of the cards, top first.
    pub fn cards(&self) -> (r: Vec<Card>)
        ensures
            r@.len() == self@.len(),
            forall|i: int| 0 <= i < self@.len() ==> (#[trigger] r@[i]).same_as(self@[i]),
    {
        let mut r: Vec<Card> = Vec::new();
        for i in 0..self.cards.len()
            invariant
                r@.len() == i,
                forall|j: int| 0 <= j < i ==> (#[trigger] r@[j]).same_as(self@[j]),
        {
            r.push(self.cards[i].clone());
        }
        r
    }

    /// The cards, top first, without copying them.
    pub fn cards_ref(&self) -> (r: &Vec<Card>)
        ensures
            r@ == self@,
    {
        &self.cards
    }

    /// Number of cards.
    pub fn size(&self) -> (n: usize)
        ensures
            n == self@.len(),
    {
        self.cards.len()
    }

    /// Puts `card` at the place that `index` points at.
    pub fn insert_at(&mut self, index: i32, card: Card)
        ensures
            final(self).config == old(self).config,
            final(self)@ == old(self)@.insert(spec_position(index as int, old(self)@.len() as int), card),
    {
        let p = position(index, self.cards.len());
        self.cards.insert(p, card);
    }

    /// Takes out the card that `index` points at, if it points at a card.
    pub fn take_at(&mut self, index: i32) -> (r: Option<Card>)
        ensures
            final(self).config == old(self).config,
            r == card_reached(old(self)@, index as int),
            r is Some ==> final(self)@ == old(self)@.remove(spec_position(index as int, old(self)@.len() as int)),
            r is None ==> final(self)@ == old(self)@,
    {
        let p = position(index, self.cards.len());
        if p < self.cards.len() {
            Some(self.cards.remove(p))
        } else {
            None
        }
    }

    /// The card that `index` points at, if it points at a card.
    pub fn card_at(&self, index: i32) -> (r: Option<&Card>)
        ensures
            match r {
                Some(c) => card_reached(self@, index as int) == Some(*c),
                None => card_reached(self@, index as int) is None,
            },
    {
        let p = position(index, self.cards.len());
        if p < self.cards.len() {
            Some(&self.cards[p])
        } else {
            None
        }
    }

    /// Applies `changes` to the card that `index` points at; tells whether
    /// `index` points at a card. Where it does not, nothing changes.
    pub fn change_card_at(&mut self, index: i32, changes: &CardChange) -> (hit: bool)
        ensures
            final(self).config == old(self).config,
            hit == (card_reached(old(self)@, index as int) is Some),
            !hit ==> final(self)@ == old(self)@,
            hit ==> ({
                let p = spec_position(index as int, old(self)@.len() as int);
                &&& final(self)@.len() == old(self)@.len()
                &&& forall|j: int| 0 <= j < old(self)@.len() && j != p ==> final(self)@[j] == old(self)@[j]
                &&& card_changed(*changes, old(self)@[p], final(self)@[p])
            }),
    {
        let p = position(index, self.cards.len());
        if p < self.cards.len() {
            changes.apply_to(&mut self.cards[p]);
            true
        } else {
            false
        }
    }
}


/// A place in a pile of a game: the pile and the index in it.
#[derive(Debug)]
pub struct CardInPile {
    pub pile: PilePointer,
    pub index: i32,
}

impl CardInPile {
    /// The pointer to this place.
    pub open spec fn pointer(&self) -> CardPointer {
        CardPointer { pile: self.pile, index: self.index }
    }

    /// The place `index` of the pile `pile`.
    pub fn new(pile: PilePointer, index: i32) -> (r: CardInPile)
        ensures
            r.pile == pile,
            r.index == index,
    {
        CardInPile { pile, index }
    }

    /// The place that `pointer` names, if the game has its pile.
    pub fn from_pointer(game: &Game, pointer: &CardPointer) -> (r: Option<CardInPile>)
        requires
            game.wf(),
        ensures
            r is Some <==> game.pile_of(pointer.pile) is Some,
            r matches Some(c) ==> c.pointer() == *pointer,
    {
        if game.pile(&pointer.pile).is_some() {
            Some(CardInPile::new(pointer.pile.clone(), pointer.index))
        } else {
            None
        }
    }

    /// The top of the pile: index `0`.
    pub fn top_of(pile: PilePointer) -> (r: CardInPile)
        ensures
            r.pile == pile,
            r.index == 0,
    {
        CardInPile { pile, index: 0 }
    }

    /// The free space below the last card of the pile: index `-1`.
    pub fn bottom_of(pile: PilePointer) -> (r: CardInPile)
        ensures
            r.pile == pile,
            r.index == -1,
    {
        CardInPile { pile, index: -1 }
    }

    /// Puts `card` at this place; tells whether the game has the pile.
    pub fn insert(&self, game: &mut Game, card: Card) -> (hit: bool)
        requires
            old(game).wf(),
        ensures
            hit == (old(game).pile_of(self.pile) is Some),
            !hit ==> *final(game) == *old(game),
            hit ==> Game::only_pile_changed(*old(game), *final(game), self.pile),
            hit ==> ({
                let before = old(game).pile_of(self.pile)->Some_0;
                &&& final(game).pile_of(self.pile) matches Some(after)
                &&& after.config == before.config
                &&& after@ == before@.insert(spec_position(self.index as int, before@.len() as int), card)
            }),
    {
        game.insert_card(&self.pile, self.index, card)
    }

    /// Takes out the card at this place, if there is one.
    pub fn take(self, game: &mut Game) -> (r: Option<Card>)
        requires
            old(game).wf(),
        ensures
            r == old(game).card_of(self.pointer()),
            r is None ==> *final(game) == *old(game),
            r is Some ==> Game::only_pile_changed(*old(game), *final(game), self.pile),
            r is Some ==> ({
                let before = old(game).pile_of(self.pile)->Some_0;
                &&& final(game).pile_of(self.pile) matches Some(after)
                &&& after.config == before.config
                &&& after@ == before@.remove(spec_position(self.index as int, before@.len() as int))
            }),
    {
        let pointer = CardPointer { pile: self.pile, index: self.index };
        game.take_card(&pointer)
    }

    /// Moves the card at this place to the place `to`, counted once the
    /// card is taken; hands back a copy of the card moved.
    pub fn move_to(self, to: CardInPile, game: &mut Game) -> (r: Option<Card>)
        requires
            old(game).wf(),
        ensures
            card_moved(*old(game), *final(game), self.pointer(), to.pointer()),
            r is Some <==> (old(game).card_of(self.pointer()) is Some && old(game).pile_of(to.pile) is Some),
            r matches Some(c) ==> c.same_as(old(game).card_of(self.pointer())->Some_0),
    {
        let source = CardPointer { pile: self.pile, index: self.index };
        let dest = CardPointer { pile: to.pile, index: to.index };
        game.move_card(&source, &dest)
    }

    /// The card at this place, if there is one.
    pub fn card<'a>(&self, game: &'a Game) -> (r: Option<&'a Card>)
        requires
            game.wf(),
        ensures
            match r {
                Some(c) => game.card_of(self.pointer()) == Some(*c),
                None => game.card_of(self.pointer()) is None,
            },
    {
        let pointer = CardPointer { pile: self.pile.clone(), index: self.index };
        game.card(&pointer)
    }

    /// The pile of this place.
    pub fn pile(&self) -> (r: PilePointer)
        ensures
            r == self.pile,
    {
        self.pile.clone()
    }
}

} // verus!
