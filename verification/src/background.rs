use vstd::prelude::*;
use crate::card::RawCard;
use crate::library::{Error, Library, card_lookup};
use crate::names::entry_of;
use crate::names::NameMap;
use crate::player::Player;

verus! {

/// The cards a player brings to the table, by the pile they start in.
pub struct PlayerBackground {
    pub piles: NameMap<Vec<RawCard>>,
    pub player: Player,
}

/// The names of the cards a player brings, by the pile they start in, as
/// the player sends them.
pub struct PlayerBackgroundNames {
    pub piles: NameMap<Vec<String>>,
}

/// Whether the library can hand out the card `name`.
pub open spec fn loadable(library: Library, name: Seq<char>) -> bool {
    library.cards@.contains_key(name) && library.cards@[name].read is Ok
}

/// Whether `cards` are the library's cards named by `names`, one by one.
pub open spec fn loaded(library: Library, names: Seq<String>, cards: Seq<RawCard>) -> bool {
    &&& cards.len() == names.len()
    &&& forall|i: int| 0 <= i < names.len() ==> {
        &&& loadable(library, (#[trigger] names[i])@)
        &&& cards[i].same_as(library.cards@[names[i]@].read->Ok_0)
    }
}

/// Whether the library can hand out every card that `names` names.
pub open spec fn all_loadable(library: Library, names: PlayerBackgroundNames) -> bool {
    forall|k: Seq<char>, i: int| #[trigger] names.piles@.contains_key(k) && 0 <= i < names.piles@[k]@.len()
        ==> loadable(library, (#[trigger] names.piles@[k]@[i])@)
}

/// Cards loaded for a list of names are one per name, in the names' order,
/// each the raw card that the library files, readable, under that name.
pub proof fn lemma_loaded_in_order(library: Library, names: Seq<String>, cards: Seq<RawCard>)
    requires
        loaded(library, names, cards),
    ensures
        cards.len() == names.len(),
        forall|i: int| 0 <= i < names.len() ==> {
            &&& library.cards@.contains_key((#[trigger] names[i])@)
            &&& library.cards@[names[i]@].read matches Ok(c) && cards[i].same_as(c)
        },
{
}

/// Copies a list of raw cards.
pub fn clone_raw_cards(v: &Vec<RawCard>) -> (r: Vec<RawCard>)
    ensures
        r@.len() == v@.len(),
        forall|i: int| 0 <= i < v@.len() ==> (#[trigger] r@[i]).same_as(v@[i]),
{
    let mut r: Vec<RawCard> = Vec::new();
    for i in 0..v.len()
        invariant
            r@.len() == i,
            forall|j: int| 0 <= j < i ==> (#[trigger] r@[j]).same_as(v@[j]),
    {
        r.push(v[i].clone());
    }
    r
}

/// Takes the cards named by `names` from the library, or the error of the
/// first name it cannot hand out.
pub fn load_cards(library: &Library, names: &Vec<String>) -> (r: Result<Vec<RawCard>, Error>)
    requires
        library.wf(),
    ensures
        r is Ok <==> forall|i: int| 0 <= i < names@.len() ==> loadable(*library, (#[trigger] names@[i])@),
        r matches Ok(cards) ==> loaded(*library, names@, cards@),
        r matches Err(e) ==> exists|i: int| 0 <= i < names@.len() && {
            &&& !loadable(*library, (#[trigger] names@[i])@)
            &&& card_lookup(entry_of(library.cards@, names@[i]@), names@[i]@, Err(e))
        },
{
    let mut cards: Vec<RawCard> = Vec::new();
    for i in 0..names.len()
        invariant
            library.wf(),
            cards@.len() == i,
            forall|j: int| 0 <= j < i ==> {
                &&& loadable(*library, (#[trigger] names@[j])@)
                &&& cards@[j].same_as(library.cards@[names@[j]@].read->Ok_0)
            },
    {
        match library.get_raw_card_by_name(names[i].as_str()) {
            Ok(card) => {
                cards.push(card);
            },
            Err(e) => {
                return Err(e);
            },
        }
    }
    Ok(cards)
}

impl PlayerBackground {
    /// A copy of the cards the player brings to the pile `name`; none if
    /// the player brings nothing there.
    pub fn cards_pile(&self, name: &str) -> (r: Vec<RawCard>)
        requires
            self.piles.wf(),
        ensures
            !self.piles@.contains_key(name@) ==> r@.len() == 0,
            self.piles@.contains_key(name@) ==> {
                &&& r@.len() == self.piles@[name@]@.len()
                &&& forall|i: int| 0 <= i < r@.len() ==> (#[trigger] r@[i]).same_as(self.piles@[name@]@[i])
            },
    {
        match self.piles.get(&String::from_str(name)) {
            Some(cards) => clone_raw_cards(cards),
            None => Vec::new(),
        }
    }

    /// Whether the library can hand out every card that `names` names, so
    /// that `load_from_library` may take them.
    pub fn loadable_from(library: &Library, names: &PlayerBackgroundNames) -> (r: bool)
        requires
            library.wf(),
            names.piles.wf(),
        ensures
            r == all_loadable(*library, *names),
    {
        proof {
            names.piles.lemma_keys_values();
        }
        let n = names.piles.len();
        for i in 0..n
            invariant
                library.wf(),
                names.piles.wf(),
                n == names.piles.keys().len(),
                names.piles.keys().len() == names.piles.values().len(),
                forall|j: int| 0 <= j < names.piles.keys().len() ==> #[trigger] names.piles@.contains_key(names.piles.keys()[j]),
                forall|j: int| 0 <= j < names.piles.keys().len() ==> names.piles@[names.piles.keys()[j]] == #[trigger] names.piles.values()[j],
                forall|k: Seq<char>| #[trigger] names.piles@.contains_key(k) ==> names.piles.keys().contains(k),
                forall|j: int, c: int| 0 <= j < i && 0 <= c < names.piles.values()[j]@.len()
                    ==> loadable(*library, (#[trigger] names.piles.values()[j]@[c])@),
        {
            let card_names = names.piles.value_at(i);
            if load_cards(library, card_names).is_err() {
                proof {
                    let c = choose|c: int| 0 <= c < card_names@.len() && !loadable(*library, (#[trigger] card_names@[c])@);
                    let k = names.piles.keys()[i as int];
                    assert(names.piles@.contains_key(k));
                    assert(names.piles@[k]@[c] == card_names@[c]);
                }
                return false;
            }
        }
        proof {
            assert forall|k: Seq<char>, c: int| #[trigger] names.piles@.contains_key(k) && 0 <= c < names.piles@[k]@.len()
                implies loadable(*library, (#[trigger] names.piles@[k]@[c])@) by {
                let j = choose|j: int| 0 <= j < names.piles.keys().len() && names.piles.keys()[j] == k;
                assert(names.piles.values()[j]@[c] == names.piles@[k]@[c]);
            }
        }
        true
    }

    /// Takes from the library the cards that `names` names, for `player`,
    /// pile by pile and in order. Every name must be one the library can
    /// hand out (see `loadable_from`).
    pub fn load_from_library(library: &Library, names: PlayerBackgroundNames, player: Player) -> (r: PlayerBackground)
        requires
            library.wf(),
            names.piles.wf(),
            all_loadable(*library, names),
        ensures
            r.player == player,
            r.piles.wf(),
            r.piles@.dom() == names.piles@.dom(),
            forall|k: Seq<char>| #[trigger] r.piles@.contains_key(k) ==> loaded(*library, names.piles@[k]@, r.piles@[k]@),
    {
        let mut piles: NameMap<Vec<RawCard>> = NameMap::new();
        proof {
            names.piles.lemma_keys_values();
        }
        let n = names.piles.len();
        for i in 0..n
            invariant
                library.wf(),
                names.piles.wf(),
                all_loadable(*library, names),
                n == names.piles.keys().len(),
                names.piles.keys().len() == names.piles.values().len(),
                forall|j: int| 0 <= j < names.piles.keys().len() ==> #[trigger] names.piles@.contains_key(names.piles.keys()[j]),
                forall|j: int| 0 <= j < names.piles.keys().len() ==> names.piles@[names.piles.keys()[j]] == #[trigger] names.piles.values()[j],
                forall|k: Seq<char>| #[trigger] names.piles@.contains_key(k) ==> names.piles.keys().contains(k),
                piles.wf(),
                forall|k: Seq<char>| piles@.contains_key(k) <==> exists|j: int| 0 <= j < i && #[trigger] names.piles.keys()[j] == k,
                forall|k: Seq<char>| #[trigger] piles@.contains_key(k) ==> loaded(*library, names.piles@[k]@, piles@[k]@),
        {
            let name = names.piles.key_at(i);
            let card_names = names.piles.value_at(i);
            match load_cards(library, card_names) {
                Ok(cards) => {
                    let ghost before = piles;
                    piles.insert(name.clone(), cards);
                    proof {
                        assert forall|k: Seq<char>| piles@.contains_key(k) <==> exists|j: int| 0 <= j < i + 1 && #[trigger] names.piles.keys()[j] == k by {
                            if piles@.contains_key(k) && k != name@ {
                                assert(before@.contains_key(k));
                                let j = choose|j: int| 0 <= j < i && #[trigger] names.piles.keys()[j] == k;
                                assert(0 <= j < i + 1 && names.piles.keys()[j] == k);
                            }
                            if exists|j: int| 0 <= j < i + 1 && #[trigger] names.piles.keys()[j] == k {
                                let j = choose|j: int| 0 <= j < i + 1 && #[trigger] names.piles.keys()[j] == k;
                                if j < i {
                                    assert(before@.contains_key(k));
                                }
                            }
                        }
                    }
                },
                Err(_) => {
                    proof {
                        let c = choose|c: int| 0 <= c < card_names@.len() && !loadable(*library, (#[trigger] card_names@[c])@);
                        let k = names.piles.keys()[i as int];
                        assert(names.piles@.contains_key(k));
                        assert(names.piles@[k]@[c] == card_names@[c]);
                    }
                    return vstd::pervasive::unreached();
                },
            }
        }
        proof {
            assert forall|k: Seq<char>| #[trigger] names.piles@.contains_key(k) implies piles@.contains_key(k) by {
                let j = choose|j: int| 0 <= j < names.piles.keys().len() && names.piles.keys()[j] == k;
                assert(names.piles.keys()[j] == k);
            }
            assert(piles@.dom() =~= names.piles@.dom());
        }
        PlayerBackground { piles, player }
    }
}

} // verus!
