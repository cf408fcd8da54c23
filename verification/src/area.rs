use vstd::prelude::*;
use crate::background::PlayerBackground;
use crate::card::{RawCard, fresh_from_raw};
use crate::names::NameMap;
use crate::pile::{Pile, PileConfig};
use crate::player::Player;
use crate::rules::{Rules, pile_layout, lemma_pile_names_distinct};
use crate::visibility::Visibility;

verus! {

/// The piles of one player, by name.
pub struct PlayerArea {
    pub piles: NameMap<Pile>,
}

/// The cards a background brings to the pile `name` (none if it brings
/// nothing there).
pub open spec fn background_cards(background: PlayerBackground, name: Seq<char>) -> Seq<RawCard> {
    if background.piles@.contains_key(name) {
        background.piles@[name]@
    } else {
        Seq::empty()
    }
}

/// Whether `pile` is set up by `config` and holds the cards `raws`, fresh,
/// in their order.
pub open spec fn dealt(pile: Pile, config: PileConfig, raws: Seq<RawCard>) -> bool {
    &&& pile.config == config
    &&& pile@.len() == raws.len()
    &&& forall|i: int| 0 <= i < raws.len() ==>
        fresh_from_raw(#[trigger] pile@[i], raws[i], config.owner, config.default_visibility)
}

/// A pile dealt by a configuration holds the brought cards in the order
/// they were brought, each fresh from its raw card: with the raw card's
/// printed values, owned by the pile's owner, with the pile's default
/// visibility, without comments and untapped.
pub proof fn lemma_dealt_cards(pile: Pile, config: PileConfig, raws: Seq<RawCard>)
    requires
        dealt(pile, config, raws),
    ensures
        pile.config == config,
        pile@.len() == raws.len(),
        forall|i: int| 0 <= i < raws.len() ==> {
            &&& (#[trigger] pile@[i]).name == raws[i].name
            &&& pile@[i].power == raws[i].power
            &&& pile@[i].health == raws[i].health
            &&& pile@[i].cost == raws[i].cost
            &&& pile@[i].owner == config.owner
            &&& pile@[i].visibility == config.default_visibility
            &&& pile@[i].comments@.len() == 0
            &&& !pile@[i].tapped
        },
{
}

/// Whether `area` holds exactly the piles that the rules named
/// `rules_name` give the background's player, each dealt the cards the
/// player brought to it.
pub open spec fn area_for(area: PlayerArea, background: PlayerBackground, rules_name: Seq<char>) -> bool {
    let layout = pile_layout(rules_name, background.player);
    &&& area.piles.wf()
    &&& forall|n: Seq<char>| area.piles@.contains_key(n) <==>
        exists|i: int| 0 <= i < layout.len() && #[trigger] layout[i].0 == n
    &&& forall|i: int| 0 <= i < layout.len() ==> {
        let (n, config) = #[trigger] layout[i];
        &&& area.piles@.contains_key(n)
        &&& dealt(area.piles@[n], config, background_cards(background, n))
    }
}

/// A player's area holds a pile for each pile the rules give the player and
/// no other; each is set up as the rules say and dealt the cards the player
/// brought to it, in order, fresh and owned by the pile's owner (none where
/// the player brought nothing to it).
pub proof fn lemma_area_dealt(area: PlayerArea, background: PlayerBackground, rules_name: Seq<char>)
    requires
        area_for(area, background, rules_name),
    ensures
        forall|i: int| 0 <= i < pile_layout(rules_name, background.player).len() ==> {
            let (n, c) = #[trigger] pile_layout(rules_name, background.player)[i];
            &&& area.piles@.contains_key(n)
            &&& area.piles@[n].config == c
            &&& background.piles@.contains_key(n) ==> area.piles@[n]@.len() == background.piles@[n]@.len()
                && forall|j: int| 0 <= j < background.piles@[n]@.len() ==> {
                    &&& (#[trigger] area.piles@[n]@[j]).name == background.piles@[n]@[j].name
                    &&& area.piles@[n]@[j].power == background.piles@[n]@[j].power
                    &&& area.piles@[n]@[j].owner == c.owner
                    &&& area.piles@[n]@[j].visibility == c.default_visibility
                }
            &&& !background.piles@.contains_key(n) ==> area.piles@[n]@.len() == 0
        },
        forall|n: Seq<char>| #[trigger] area.piles@.contains_key(n) ==>
            exists|i: int| 0 <= i < pile_layout(rules_name, background.player).len() && pile_layout(rules_name, background.player)[i].0 == n,
{
    assert forall|i: int| 0 <= i < pile_layout(rules_name, background.player).len() implies {
            let (n, c) = #[trigger] pile_layout(rules_name, background.player)[i];
            &&& area.piles@.contains_key(n)
            &&& area.piles@[n].config == c
            &&& background.piles@.contains_key(n) ==> area.piles@[n]@.len() == background.piles@[n]@.len()
                && forall|j: int| 0 <= j < background.piles@[n]@.len() ==> {
                    &&& (#[trigger] area.piles@[n]@[j]).name == background.piles@[n]@[j].name
                    &&& area.piles@[n]@[j].power == background.piles@[n]@[j].power
                    &&& area.piles@[n]@[j].owner == c.owner
                    &&& area.piles@[n]@[j].visibility == c.default_visibility
                }
            &&& !background.piles@.contains_key(n) ==> area.piles@[n]@.len() == 0
        } by {
        let (n, c) = pile_layout(rules_name, background.player)[i];
        lemma_dealt_cards(area.piles@[n], c, background_cards(background, n));
    }
}

impl PlayerArea {
    /// The piles that the rules give the background's player, each holding
    /// the cards the player brought to it.
    pub fn new(background: PlayerBackground, rules: &Rules) -> (r: PlayerArea)
        requires
            background.piles.wf(),
        ensures
            area_for(r, background, rules.name_spec()),
    {
        let layout = rules.piles(background.player);
        let ghost spec_layout = pile_layout(rules.name_spec(), background.player);
        proof {
            lemma_pile_names_distinct(rules.name_spec(), background.player);
        }
        let mut piles: NameMap<Pile> = NameMap::new();
        for i in 0..layout.len()
            invariant
                background.piles.wf(),
                spec_layout == pile_layout(rules.name_spec(), background.player),
                layout@.len() == spec_layout.len(),
                forall|j: int| 0 <= j < layout@.len() ==> (#[trigger] layout@[j]).0@ == spec_layout[j].0 && layout@[j].1 == spec_layout[j].1,
                forall|a: int, b: int| 0 <= a < b < spec_layout.len() ==> #[trigger] spec_layout[a].0 != #[trigger] spec_layout[b].0,
                piles.wf(),
                forall|n: Seq<char>| piles@.contains_key(n) <==> exists|j: int| 0 <= j < i && #[trigger] spec_layout[j].0 == n,
                forall|j: int| 0 <= j < i ==> {
                    let (n, config) = #[trigger] spec_layout[j];
                    &&& piles@.contains_key(n)
                    &&& dealt(piles@[n], config, background_cards(background, n))
                },
        {
            let (name, config) = &layout[i];
            let cards = background.cards_pile(name.as_str());
            let pile = Pile::from_raw_cards(*config, cards);
            let ghost before = piles;
            piles.insert(name.clone(), pile);
            proof {
                assert forall|n: Seq<char>| piles@.contains_key(n) <==> exists|j: int| 0 <= j < i + 1 && #[trigger] spec_layout[j].0 == n by {
                    if piles@.contains_key(n) && n != name@ {
                        let j = choose|j: int| 0 <= j < i && #[trigger] spec_layout[j].0 == n;
                        assert(0 <= j < i + 1);
                    }
                    if exists|j: int| 0 <= j < i + 1 && #[trigger] spec_layout[j].0 == n {
                        let j = choose|j: int| 0 <= j < i + 1 && #[trigger] spec_layout[j].0 == n;
                        if j < i {
                            assert(before@.contains_key(n));
                        }
                    }
                }
                assert forall|j: int| 0 <= j < i + 1 implies {
                    let (n, config) = #[trigger] spec_layout[j];
                    &&& piles@.contains_key(n)
                    &&& dealt(piles@[n], config, background_cards(background, n))
                } by {
                    if j < i {
                        assert(spec_layout[j].0 != spec_layout[i as int].0);
                    }
                }
            }
        }
        PlayerArea { piles }
    }
}

/// A battlefield: the pile of its location cards first, then one side for
/// each player.
pub struct Battlefield {
    pub sides: Vec<Pile>,
}

/// The configuration of a player's side of a battlefield.
pub open spec fn side_config(owner: Player) -> PileConfig {
    PileConfig { shuffled: false, only_raw_cards: false, owner: owner, default_visibility: Visibility::Public }
}

impl Battlefield {
    /// A battlefield with the given location cards and an empty public side
    /// for each of `players`, in their order.
    pub fn new(location_cards: Pile, players: Vec<Player>) -> (r: Battlefield)
        ensures
            r.sides@.len() == players@.len() + 1,
            r.sides@[0] == location_cards,
            forall|i: int| 0 <= i < players@.len() ==> {
                &&& (#[trigger] r.sides@[i + 1])@ == Seq::<crate::card::Card>::empty()
                &&& r.sides@[i + 1].config == side_config(players@[i])
            },
    {
        let mut sides: Vec<Pile> = Vec::new();
        sides.push(location_cards);
        for i in 0..players.len()
            invariant
                sides@.len() == i + 1,
                sides@[0] == location_cards,
                forall|j: int| 0 <= j < i ==> {
                    &&& (#[trigger] sides@[j + 1])@ == Seq::<crate::card::Card>::empty()
                    &&& sides@[j + 1].config == side_config(players@[j])
                },
        {
            sides.push(Pile::new_empty(PileConfig {
                shuffled: false,
                only_raw_cards: false,
                owner: players[i],
                default_visibility: Visibility::Public,
            }));
        }
        Battlefield { sides }
    }
}

} // verus!
