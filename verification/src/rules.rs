use vstd::prelude::*;
use crate::board::RawBoard;
use crate::pile::PileConfig;
use crate::player::{Player, ADMIN_ID, WATCHER_ID};
use crate::visibility::Visibility;

verus! {

/// Picture of the board that the "unmatched" game is played on.
pub const UNMATCHED_BOARD_URL: &'static str = "https://external-content.duckduckgo.com/iu/?u=https%3A%2F%2Fyptpnirqgfmxphjvsdjz.supabase.co%2Fstorage%2Fv1%2Fobject%2Fpublic%2Fmaps%2FztVO81E93axYHrNsmlAWX.webp&f=1&nofb=1&ipt=7a7b8690e923a354760746172e9aab055d14e5530c33ef7091e37b95254809cf";

/// The rules of a game, chosen by its name ("riftbound", "unmatched", ...).
pub struct Rules {
    name: String,
}

/// Whether `player` may touch a card owned by `card_owner` in a pile owned
/// by `pile_owner`: a watcher never may; the administrator always may; a
/// player may touch the cards of their own piles and their own cards in
/// the shared piles.
pub open spec fn may_touch(player: Player, pile_owner: Player, card_owner: Player) -> bool {
    &&& player != Player(WATCHER_ID)
    &&& {
        ||| player == Player(ADMIN_ID)
        ||| pile_owner == Player(ADMIN_ID) && card_owner == player
        ||| player == pile_owner
    }
}

/// Someone who only watches never touches a card.
pub proof fn lemma_watcher_never_touches(pile_owner: Player, card_owner: Player)
    ensures
        !may_touch(Player(WATCHER_ID), pile_owner, card_owner),
{
}

/// The administrator may touch every card of every pile.
pub proof fn lemma_admin_touches_everything(pile_owner: Player, card_owner: Player)
    ensures
        may_touch(Player(ADMIN_ID), pile_owner, card_owner),
{
}

/// A player may touch every card of their own piles, and in the shared
/// piles exactly their own cards; in another player's pile, nothing.
pub proof fn lemma_player_touches(player: Player, pile_owner: Player, card_owner: Player)
    requires
        player.0 >= 1,
    ensures
        pile_owner == player ==> may_touch(player, pile_owner, card_owner),
        pile_owner == Player(ADMIN_ID) ==> (may_touch(player, pile_owner, card_owner) <==> card_owner == player),
        pile_owner != player && pile_owner != Player(ADMIN_ID) ==> !may_touch(player, pile_owner, card_owner),
{
}

/// A pile configuration.
pub open spec fn config(only_raw_cards: bool, default_visibility: Visibility, shuffled: bool, owner: Player) -> PileConfig {
    PileConfig { only_raw_cards, default_visibility, shuffled, owner }
}

/// The piles of a player in the "unmatched" game.
pub open spec fn unmatched_player_piles(p: Player) -> Seq<(Seq<char>, PileConfig)> {
    seq![
        ("heroes"@, config(false, Visibility::Public, false, p)),
        ("hand"@, config(false, Visibility::Private, true, p)),
        ("main_deck"@, config(true, Visibility::Secret, true, p)),
        ("additional_deck"@, config(true, Visibility::Secret, true, p)),
        ("trash_deck"@, config(true, Visibility::Public, false, p)),
    ]
}

/// The piles of a player in every other game ("riftbound" first of all).
pub open spec fn riftbound_player_piles(p: Player) -> Seq<(Seq<char>, PileConfig)> {
    seq![
        ("heroes"@, config(false, Visibility::Public, false, p)),
        ("hand"@, config(false, Visibility::Private, true, p)),
        ("main_deck"@, config(true, Visibility::Secret, true, p)),
        ("mana_deck"@, config(true, Visibility::Secret, true, p)),
        ("trash_deck"@, config(true, Visibility::Public, false, p)),
        ("mana_pool"@, config(false, Visibility::Public, true, p)),
        ("base"@, config(false, Visibility::Public, false, p)),
        ("special_zone"@, config(true, Visibility::Public, false, p)),
    ]
}

/// The shared piles of the table in every game but "unmatched".
pub open spec fn riftbound_admin_piles() -> Seq<(Seq<char>, PileConfig)> {
    seq![("spell_queue"@, config(false, Visibility::Public, false, Player(ADMIN_ID)))]
}

/// The piles, by name, that the rules named `rules_name` give `player`.
pub open spec fn pile_layout(rules_name: Seq<char>, player: Player) -> Seq<(Seq<char>, PileConfig)> {
    if player == Player(WATCHER_ID) {
        Seq::empty()
    } else if rules_name == "unmatched"@ {
        if player == Player(ADMIN_ID) {
            Seq::empty()
        } else {
            unmatched_player_piles(player)
        }
    } else if player == Player(ADMIN_ID) {
        riftbound_admin_piles()
    } else {
        riftbound_player_piles(player)
    }
}

/// The boards, by name, of the rules named `rules_name`: the "unmatched"
/// game has one board of 100 by 100, the others none.
pub open spec fn board_layout(rules_name: Seq<char>) -> Seq<(Seq<char>, usize, usize, Seq<char>)> {
    if rules_name == "unmatched"@ {
        seq![("board"@, 100usize, 100usize, UNMATCHED_BOARD_URL@)]
    } else {
        Seq::empty()
    }
}

/// Whether a list of named things holds exactly the given layout.
pub open spec fn lists_layout<T>(list: Seq<(String, T)>, layout: Seq<(Seq<char>, T)>) -> bool {
    &&& list.len() == layout.len()
    &&& forall|i: int| 0 <= i < list.len() ==> (#[trigger] list[i]).0@ == layout[i].0 && list[i].1 == layout[i].1
}

/// Every pile the rules give a seat belongs to that seat, and a watcher
/// gets none.
pub proof fn lemma_piles_owned_by_seat(rules_name: Seq<char>, player: Player)
    ensures
        forall|i: int| 0 <= i < pile_layout(rules_name, player).len() ==> (#[trigger] pile_layout(rules_name, player)[i]).1.owner == player,
        player == Player(WATCHER_ID) ==> pile_layout(rules_name, player).len() == 0,
{
}

/// Under every game but "unmatched", each seat gets, in this order, piles of
/// its own: its heroes (public, in order), its hand (private, in no order),
/// its main deck and its mana deck (dealt face down: secret, shuffled, raw
/// cards only), its trash (public, in order, raw cards only), its mana pool
/// (public, in no order), its base (public, in order) and its special zone
/// (public, in order, raw cards only).
pub proof fn lemma_riftbound_seat_piles(rules_name: Seq<char>, p: Player)
    requires
        rules_name != "unmatched"@,
        p.0 >= 1,
    ensures
        pile_layout(rules_name, p).len() == 8,
        pile_layout(rules_name, p)[0] == ("heroes"@, PileConfig { only_raw_cards: false, default_visibility: Visibility::Public, shuffled: false, owner: p }),
        pile_layout(rules_name, p)[1] == ("hand"@, PileConfig { only_raw_cards: false, default_visibility: Visibility::Private, shuffled: true, owner: p }),
        pile_layout(rules_name, p)[2] == ("main_deck"@, PileConfig { only_raw_cards: true, default_visibility: Visibility::Secret, shuffled: true, owner: p }),
        pile_layout(rules_name, p)[3] == ("mana_deck"@, PileConfig { only_raw_cards: true, default_visibility: Visibility::Secret, shuffled: true, owner: p }),
        pile_layout(rules_name, p)[4] == ("trash_deck"@, PileConfig { only_raw_cards: true, default_visibility: Visibility::Public, shuffled: false, owner: p }),
        pile_layout(rules_name, p)[5] == ("mana_pool"@, PileConfig { only_raw_cards: false, default_visibility: Visibility::Public, shuffled: true, owner: p }),
        pile_layout(rules_name, p)[6] == ("base"@, PileConfig { only_raw_cards: false, default_visibility: Visibility::Public, shuffled: false, owner: p }),
        pile_layout(rules_name, p)[7] == ("special_zone"@, PileConfig { only_raw_cards: true, default_visibility: Visibility::Public, shuffled: false, owner: p }),
{
}

/// Under every game but "unmatched", the table itself has one shared pile,
/// the spell queue: public, in order, of any cards, owned by the
/// administrator.
pub proof fn lemma_riftbound_table_piles(rules_name: Seq<char>)
    requires
        rules_name != "unmatched"@,
    ensures
        pile_layout(rules_name, Player(0)).len() == 1,
        pile_layout(rules_name, Player(0))[0] == ("spell_queue"@, PileConfig { only_raw_cards: false, default_visibility: Visibility::Public, shuffled: false, owner: Player(0) }),
{
}

/// In the "unmatched" game each seat gets, in this order, piles of its own:
/// its heroes (public, in order), its hand (private, in no order), its main
/// deck and its additional deck (dealt face down: secret, shuffled, raw
/// cards only) and its trash (public, in order, raw cards only); the table
/// itself has no shared pile.
pub proof fn lemma_unmatched_piles(p: Player)
    requires
        p.0 >= 1,
    ensures
        pile_layout("unmatched"@, Player(0)).len() == 0,
        pile_layout("unmatched"@, p).len() == 5,
        pile_layout("unmatched"@, p)[0] == ("heroes"@, PileConfig { only_raw_cards: false, default_visibility: Visibility::Public, shuffled: false, owner: p }),
        pile_layout("unmatched"@, p)[1] == ("hand"@, PileConfig { only_raw_cards: false, default_visibility: Visibility::Private, shuffled: true, owner: p }),
        pile_layout("unmatched"@, p)[2] == ("main_deck"@, PileConfig { only_raw_cards: true, default_visibility: Visibility::Secret, shuffled: true, owner: p }),
        pile_layout("unmatched"@, p)[3] == ("additional_deck"@, PileConfig { only_raw_cards: true, default_visibility: Visibility::Secret, shuffled: true, owner: p }),
        pile_layout("unmatched"@, p)[4] == ("trash_deck"@, PileConfig { only_raw_cards: true, default_visibility: Visibility::Public, shuffled: false, owner: p }),
{
}

/// Only the "unmatched" game has a board: one, named "board", of 100 by 100,
/// with its picture.
pub proof fn lemma_boards(rules_name: Seq<char>)
    ensures
        rules_name != "unmatched"@ ==> board_layout(rules_name).len() == 0,
        board_layout("unmatched"@).len() == 1,
        board_layout("unmatched"@)[0] == ("board"@, 100usize, 100usize, UNMATCHED_BOARD_URL@),
{
}

/// No two entries of a layout share a name.
pub open spec fn names_distinct<T>(layout: Seq<(Seq<char>, T)>) -> bool {
    forall|i: int, j: int| 0 <= i < j < layout.len() ==> #[trigger] layout[i].0 != #[trigger] layout[j].0
}

/// The rules never give a seat two piles of one name.
pub proof fn lemma_pile_names_distinct(rules_name: Seq<char>, player: Player)
    ensures
        names_distinct(pile_layout(rules_name, player)),
{
    reveal_strlit("heroes");
    reveal_strlit("hand");
    reveal_strlit("main_deck");
    reveal_strlit("additional_deck");
    reveal_strlit("trash_deck");
    reveal_strlit("mana_deck");
    reveal_strlit("mana_pool");
    reveal_strlit("base");
    reveal_strlit("special_zone");
    reveal_strlit("spell_queue");
    let l = pile_layout(rules_name, player);
    assert forall|i: int, j: int| 0 <= i < j < l.len() implies #[trigger] l[i].0 != #[trigger] l[j].0 by {
        if l[i].0 == l[j].0 {
            assert(l[i].0.len() == l[j].0.len());
            assert(l[i].0[0] == l[j].0[0]);
            assert(l[i].0[2] == l[j].0[2]);
            assert(l[i].0[l[i].0.len() - 1] == l[j].0[l[j].0.len() - 1]);
        }
    }
}

fn push_pile(piles: &mut Vec<(String, PileConfig)>, name: &str, only_raw_cards: bool, default_visibility: Visibility, shuffled: bool, owner: Player)
    ensures
        final(piles)@.len() == old(piles)@.len() + 1,
        forall|i: int| 0 <= i < old(piles)@.len() ==> final(piles)@[i] == old(piles)@[i],
        final(piles)@.last().0@ == name@,
        final(piles)@.last().1 == config(only_raw_cards, default_visibility, shuffled, owner),
{
    piles.push((String::from_str(name), PileConfig { only_raw_cards, default_visibility, shuffled, owner }));
}

impl Rules {
    /// The name of the game, as the contracts speak of it.
    pub closed spec fn name_spec(&self) -> Seq<char> {
        self.name@
    }

    /// The rules of the game called `name`.
    pub fn new(name: &str) -> (r: Rules)
        ensures
            r.name_spec() == name@,
    {
        Rules { name: String::from_str(name) }
    }

    /// The name of the game.
    pub fn name(&self) -> (r: &String)
        ensures
            r@ == self.name_spec(),
    {
        &self.name
    }

    fn is_unmatched(&self) -> (r: bool)
        ensures
            r == (self.name_spec() == "unmatched"@),
    {
        self.name == String::from_str("unmatched")
    }

    /// Number of battlefields on the table: two in every game.
    pub fn battlefields_count(&self) -> (n: usize)
        ensures
            n == 2,
    {
        2
    }

    /// Whether `player` may touch a card owned by `card_owner` in a pile
    /// owned by `pile_owner`.
    pub fn rights_to_touch_ones_pile(&self, player: &Player, pile_owner: &Player, card_owner: &Player) -> (r: bool)
        ensures
            r == may_touch(*player, *pile_owner, *card_owner),
    {
        if player.0 == WATCHER_ID {
            return false;
        }
        player.0 == ADMIN_ID || pile_owner.0 == ADMIN_ID && *card_owner == *player || *player == *pile_owner
    }

    /// The piles that these rules give `player`, by name.
    pub fn piles(&self, player: Player) -> (r: Vec<(String, PileConfig)>)
        ensures
            lists_layout(r@, pile_layout(self.name_spec(), player)),
    {
        let mut piles: Vec<(String, PileConfig)> = Vec::new();
        if player.0 == WATCHER_ID {
        } else if self.is_unmatched() {
            if player.0 == ADMIN_ID {
            } else {
                push_pile(&mut piles, "heroes", false, Visibility::Public, false, player);
                push_pile(&mut piles, "hand", false, Visibility::Private, true, player);
                push_pile(&mut piles, "main_deck", true, Visibility::Secret, true, player);
                push_pile(&mut piles, "additional_deck", true, Visibility::Secret, true, player);
                push_pile(&mut piles, "trash_deck", true, Visibility::Public, false, player);
            }
        } else if player.0 == ADMIN_ID {
            push_pile(&mut piles, "spell_queue", false, Visibility::Public, false, Player(ADMIN_ID));
        } else {
            push_pile(&mut piles, "heroes", false, Visibility::Public, false, player);
            push_pile(&mut piles, "hand", false, Visibility::Private, true, player);
            push_pile(&mut piles, "main_deck", true, Visibility::Secret, true, player);
            push_pile(&mut piles, "mana_deck", true, Visibility::Secret, true, player);
            push_pile(&mut piles, "trash_deck", true, Visibility::Public, false, player);
            push_pile(&mut piles, "mana_pool", false, Visibility::Public, true, player);
            push_pile(&mut piles, "base", false, Visibility::Public, false, player);
            push_pile(&mut piles, "special_zone", true, Visibility::Public, false, player);
        }
        piles
    }

    /// The boards of these rules, by name.
    pub fn boards(&self) -> (r: Vec<(String, RawBoard)>)
        ensures
            r@.len() == board_layout(self.name_spec()).len(),
            forall|i: int| 0 <= i < r@.len() ==> {
                let l = #[trigger] board_layout(self.name_spec())[i];
                &&& r@[i].0@ == l.0
                &&& r@[i].1.height == l.1
                &&& r@[i].1.width == l.2
                &&& r@[i].1.img_url@ == l.3
            },
    {
        let mut boards: Vec<(String, RawBoard)> = Vec::new();
        if self.is_unmatched() {
            boards.push((
                String::from_str("board"),
                RawBoard { height: 100, width: 100, img_url: String::from_str(UNMATCHED_BOARD_URL) },
            ));
        }
        boards
    }
}

} // verus!
