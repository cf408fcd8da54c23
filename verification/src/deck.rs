use vstd::prelude::*;
use crate::card::Card;
use crate::pile::{Pile, PileConfig};
use crate::player::Player;
use crate::pointer::spec_position;
use crate::visibility::Visibility;

verus! {

/// A deck of one owner: a pile drawn from its top.
pub struct Deck {
    pub pile: Pile,
    pub owner: Player,
}

impl Deck {
    /// A deck of `cards`, shuffled if asked.
    pub fn from_cards(cards: Vec<Card>, shuffled: bool, owner: Player, visibility: Visibility, only_raw_cards: bool) -> (r: Deck)
        ensures
            r.owner == owner,
            r.pile.config == (PileConfig { only_raw_cards, default_visibility: visibility, owner, shuffled }),
            r.pile@.to_multiset() == cards@.to_multiset(),
            r.pile@.len() == cards@.len(),
            !shuffled ==> r.pile@ == cards@,
    {
        Deck {
            pile: Pile::new(PileConfig { only_raw_cards, default_visibility: visibility, owner, shuffled }, cards),
            owner,
        }
    }

    /// An empty deck.
    pub fn new_empty(owner: Player, visibility: Visibility, only_raw_cards: bool) -> (r: Deck)
        ensures
            r.owner == owner,
            r.pile.config == (PileConfig { only_raw_cards, default_visibility: visibility, owner, shuffled: false }),
            r.pile@ == Seq::<Card>::empty(),
    {
        Deck {
            pile: Pile::new_empty(PileConfig { only_raw_cards, default_visibility: visibility, owner, shuffled: false }),
            owner,
        }
    }

    /// Copies of the cards, top first.
    pub fn cards(&self) -> (r: Vec<Card>)
        ensures
            r@.len() == self.pile@.len(),
            forall|i: int| 0 <= i < self.pile@.len() ==> (#[trigger] r@[i]).same_as(self.pile@[i]),
    {
        self.pile.cards()
    }

    /// Number of cards.
    pub fn size(&self) -> (n: usize)
        ensures
            n == self.pile@.len(),
    {
        self.pile.size()
    }

    /// Whether the deck has no card.
    pub fn is_empty(&self) -> (r: bool)
        ensures
            r == (self.pile@.len() == 0),
    {
        self.size() == 0
    }

    /// The top card, if any.
    pub fn top_card(&self) -> (r: Option<&Card>)
        ensures
            match r {
                Some(c) => self.pile@.len() > 0 && *c == self.pile@[0],
                None => self.pile@.len() == 0,
            },
    {
        self.pile.card_at(0)
    }

    /// Draws the top card, if any.
    pub fn take_top(&mut self) -> (r: Option<Card>)
        ensures
            final(self).owner == old(self).owner,
            final(self).pile.config == old(self).pile.config,
            old(self).pile@.len() == 0 ==> r is None && final(self).pile@ == old(self).pile@,
            old(self).pile@.len() > 0 ==> r == Some(old(self).pile@[0]) && final(self).pile@ == old(self).pile@.drop_first(),
    {
        let r = self.pile.take_at(0);
        proof {
            if old(self).pile@.len() > 0 {
                assert(spec_position(0, old(self).pile@.len() as int) == 0);
                assert(old(self).pile@.remove(0) =~= old(self).pile@.drop_first());
            }
        }
        r
    }

    /// Puts `card` on top.
    pub fn put_top(&mut self, card: Card)
        ensures
            final(self).owner == old(self).owner,
            final(self).pile.config == old(self).pile.config,
            final(self).pile@ == seq![card] + old(self).pile@,
    {
        self.pile.insert_at(0, card);
        proof {
            assert(spec_position(0, old(self).pile@.len() as int) == 0);
            assert(old(self).pile@.insert(0, card) =~= seq![card] + old(self).pile@);
        }
    }

    /// Draws the top card onto the top of `pile`; nothing happens when the
    /// deck is empty.
    pub fn take_top_to(&mut self, pile: &mut Pile)
        ensures
            final(self).owner == old(self).owner,
            final(self).pile.config == old(self).pile.config,
            final(pile).config == old(pile).config,
            old(self).pile@.len() == 0 ==> final(self).pile@ == old(self).pile@ && final(pile)@ == old(pile)@,
            old(self).pile@.len() > 0 ==> final(self).pile@ == old(self).pile@.drop_first()
                && final(pile)@ == seq![old(self).pile@[0]] + old(pile)@,
    {
        if let Some(card) = self.take_top() {
            pile.insert_at(0, card);
            proof {
                assert(spec_position(0, old(pile)@.len() as int) == 0);
                assert(old(pile)@.insert(0, card) =~= seq![card] + old(pile)@);
            }
        }
    }
}

} // verus!
