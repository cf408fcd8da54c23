use vstd::prelude::*;
use crate::card::Card;
use crate::pile::{Pile, PileConfig};
use crate::player::Player;
use crate::rules::{Rules, pile_layout};
use crate::visibility::Visibility;

verus! {

/// The hand of a player: a pile that only its owner sees.
pub struct Hand {
    pub pile: Pile,
}

/// The configuration of `player`'s hand.
pub open spec fn hand_config(player: Player, shuffled: bool) -> PileConfig {
    PileConfig { only_raw_cards: false, default_visibility: Visibility::Private, owner: player, shuffled }
}

/// Whether the rules named `rules_name` give `player` a shuffled hand.
pub open spec fn hand_shuffled(rules_name: Seq<char>, player: Player) -> bool {
    exists|i: int| 0 <= i < pile_layout(rules_name, player).len()
        && #[trigger] pile_layout(rules_name, player)[i].0 == "hand"@
        && pile_layout(rules_name, player)[i].1.shuffled
}

/// A hand belongs to its player, is private to them and takes any cards.
pub proof fn lemma_hand_is_private(player: Player, shuffled: bool)
    ensures
        hand_config(player, shuffled).owner == player,
        hand_config(player, shuffled).default_visibility == Visibility::Private,
        !hand_config(player, shuffled).only_raw_cards,
        hand_config(player, shuffled).shuffled == shuffled,
{
}

/// Under every game, each seat's hand is shuffled; a watcher has none.
pub proof fn lemma_hands_shuffled(rules_name: Seq<char>, player: Player)
    ensures
        player.0 >= 1 ==> hand_shuffled(rules_name, player),
        player.0 == -1 ==> !hand_shuffled(rules_name, player),
{
    if player.0 >= 1 {
        assert(pile_layout(rules_name, player)[1].0 == "hand"@);
    }
}

fn rules_shuffle_hand(rules: &Rules, player: Player) -> (r: bool)
    ensures
        r == hand_shuffled(rules.name_spec(), player),
{
    let piles = rules.piles(player);
    let hand = String::from_str("hand");
    let ghost layout = pile_layout(rules.name_spec(), player);
    proof {
        crate::rules::lemma_pile_names_distinct(rules.name_spec(), player);
    }
    for i in 0..piles.len()
        invariant
            crate::rules::lists_layout(piles@, layout),
            layout == pile_layout(rules.name_spec(), player),
            crate::rules::names_distinct(layout),
            hand@ == "hand"@,
            forall|j: int| 0 <= j < i ==> #[trigger] layout[j].0 != "hand"@,
    {
        if piles[i].0 == hand {
            proof {
                assert forall|j: int| 0 <= j < layout.len() && #[trigger] layout[j].0 == "hand"@ && layout[j].1.shuffled
                    implies layout[i as int].1.shuffled by {
                    if j != i {
                        if j < i {
                            assert(layout[j].0 != "hand"@);
                        } else {
                            assert(layout[i as int].0 != layout[j].0);
                        }
                    }
                }
            }
            return piles[i].1.shuffled;
        }
    }
    false
}

impl Hand {
    /// A hand of `cards` for `player`, shuffled if the rules shuffle the
    /// player's hand.
    pub fn from_cards(cards: Vec<Card>, player: Player, rules: &Rules) -> (r: Hand)
        ensures
            r.pile.config == hand_config(player, hand_shuffled(rules.name_spec(), player)),
            r.pile@.len() == cards@.len(),
            r.pile@.to_multiset() == cards@.to_multiset(),
            !hand_shuffled(rules.name_spec(), player) ==> r.pile@ == cards@,
    {
        let shuffled = rules_shuffle_hand(rules, player);
        Hand { pile: Pile::new(PileConfig { only_raw_cards: false, default_visibility: Visibility::Private, owner: player, shuffled }, cards) }
    }

    /// An empty hand for `player`.
    pub fn new_empty(player: Player) -> (r: Hand)
        ensures
            r.pile.config == hand_config(player, false),
            r.pile@ == Seq::<Card>::empty(),
    {
        Hand { pile: Pile::new_empty(PileConfig { only_raw_cards: false, default_visibility: Visibility::Private, owner: player, shuffled: false }) }
    }

    /// Copies of the cards in the hand.
    pub fn cards(&self) -> (r: Vec<Card>)
        ensures
            r@.len() == self.pile@.len(),
            forall|i: int| 0 <= i < self.pile@.len() ==> (#[trigger] r@[i]).same_as(self.pile@[i]),
    {
        self.pile.cards()
    }

    /// Number of cards in the hand.
    pub fn size(&self) -> (n: usize)
        ensures
            n == self.pile@.len(),
    {
        self.pile.size()
    }

    /// Whether the hand is empty.
    pub fn is_empty(&self) -> (r: bool)
        ensures
            r == (self.pile@.len() == 0),
    {
        self.size() == 0
    }

    /// Takes out the card at `index`, if there is one.
    pub fn pull_out_at(&mut self, index: usize) -> (r: Option<Card>)
        ensures
            final(self).pile.config == old(self).pile.config,
            index < old(self).pile@.len() ==> r == Some(old(self).pile@[index as int])
                && final(self).pile@ == old(self).pile@.remove(index as int),
            index >= old(self).pile@.len() ==> r is None && final(self).pile@ == old(self).pile@,
    {
        if index < self.pile.size() {
            let i = index;
            Some(self.pile.cards.remove(i))
        } else {
            None
        }
    }

    /// Puts `card` first in the hand.
    pub fn add_card(&mut self, card: Card)
        ensures
            final(self).pile.config == old(self).pile.config,
            final(self).pile@ == seq![card] + old(self).pile@,
    {
        self.pile.cards.insert(0, card);
        proof {
            assert(old(self).pile@.insert(0, card) =~= seq![card] + old(self).pile@);
        }
    }

    /// Moves the card at `index`, if there is one, onto the top of `pile`.
    pub fn pull_out_to(&mut self, index: usize, pile: &mut Pile)
        ensures
            final(self).pile.config == old(self).pile.config,
            final(pile).config == old(pile).config,
            index < old(self).pile@.len() ==> final(self).pile@ == old(self).pile@.remove(index as int)
                && final(pile)@ == seq![old(self).pile@[index as int]] + old(pile)@,
            index >= old(self).pile@.len() ==> final(self).pile@ == old(self).pile@ && final(pile)@ == old(pile)@,
    {
        if let Some(card) = self.pull_out_at(index) {
            pile.cards.insert(0, card);
            proof {
                assert(old(pile)@.insert(0, card) =~= seq![card] + old(pile)@);
            }
        }
    }
}

} // verus!
