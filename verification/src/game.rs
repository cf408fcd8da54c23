use vstd::prelude::*;
use crate::area::{Battlefield, PlayerArea, area_for, side_config};
use crate::background::PlayerBackground;
use crate::board::{Board, BoardChange, RawBoard, chip_reached};
use crate::chip::{Chip, ChipChange, changed};
use crate::library::Library;
use crate::names::{NameMap, entry_of};
use crate::card::Card;
use crate::pile::{Pile, PileConfig, card_reached};
use crate::player::{Player, ADMIN_ID};
use crate::pointer::{BoardPointer, CardPointer, ChipPointer, PilePointer, PileType, lemma_small_mod, position, spec_position};
use vstd::arithmetic::div_mod::{lemma_fundamental_div_mod, lemma_fundamental_div_mod_converse};
use crate::view::{CardChange, card_changed};
use crate::visibility::Visibility;
use crate::rules::{Rules, board_layout, config, lemma_pile_names_distinct, names_distinct, pile_layout};

verus! {

/// A game in progress: the areas of the players, the battlefields, the
/// shared piles and boards, whose turn it is and where cards come from.
pub struct Game {
    pub player_areas: Vec<PlayerArea>,
    pub players_count: usize,
    pub rules: Rules,
    pub battlefields: Vec<Battlefield>,
    pub active_player: Player,
    pub card_library: Library,
    pub piles: NameMap<Pile>,
    pub boards: NameMap<Board>,
}

/// Whether two pile pointers name the same pile.
pub open spec fn same_pile(p: PilePointer, q: PilePointer) -> bool {
    &&& p.player == q.player
    &&& match (p.pile_type, q.pile_type) {
        (PileType::Name(a), PileType::Name(b)) => a@ == b@,
        (PileType::Battlefield(x), PileType::Battlefield(y)) => x == y,
        _ => false,
    }
}

/// Whether `new` is `old` after the card at the place `source` was taken
/// and put at the place `dest` (counted after the taking); where `dest`
/// names no pile of the game or `source` no card, nothing happens.
pub open spec fn card_moved(old: Game, new: Game, source: CardPointer, dest: CardPointer) -> bool {
    if old.card_of(source) is Some && old.pile_of(dest.pile) is Some {
        let src = old.pile_of(source.pile)->Some_0;
        let dst = old.pile_of(dest.pile)->Some_0;
        let p = spec_position(source.index as int, src@.len() as int);
        let card = src@[p];
        let rest = src@.remove(p);
        &&& new.wf()
        &&& new.players_count == old.players_count
        &&& new.rules == old.rules
        &&& new.active_player == old.active_player
        &&& new.card_library == old.card_library
        &&& new.boards == old.boards
        &&& forall|q: PilePointer| !same_pile(q, source.pile) && !same_pile(q, dest.pile)
            ==> #[trigger] new.pile_of(q) == old.pile_of(q)
        &&& if same_pile(source.pile, dest.pile) {
            &&& new.pile_of(dest.pile) matches Some(np)
            &&& np.config == src.config
            &&& np@ == rest.insert(spec_position(dest.index as int, rest.len() as int), card)
        } else {
            &&& new.pile_of(source.pile) matches Some(ns)
            &&& ns.config == src.config
            &&& ns@ == rest
            &&& new.pile_of(dest.pile) matches Some(nd)
            &&& nd.config == dst.config
            &&& nd@ == dst@.insert(spec_position(dest.index as int, dst@.len() as int), card)
        }
    } else {
        new == old
    }
}

impl Game {
    /// No collection of the game names two things alike.
    pub open spec fn wf(&self) -> bool {
        &&& self.piles.wf()
        &&& self.boards.wf()
        &&& self.card_library.wf()
        &&& forall|i: int| 0 <= i < self.player_areas@.len() ==> (#[trigger] self.player_areas@[i]).piles.wf()
    }

    /// The pile that `ptr` names, if the game has it: seat `0` names the
    /// shared piles, a seat `k > 0` the piles of the `k`-th player, and a
    /// battlefield pointer the seat's side of that battlefield (side `0`
    /// being its location cards).
    pub open spec fn pile_of(&self, ptr: PilePointer) -> Option<Pile> {
        match ptr.pile_type {
            PileType::Name(n) => if ptr.player == 0 {
                entry_of(self.piles@, n@)
            } else if 1 <= ptr.player <= self.player_areas@.len() {
                entry_of(self.player_areas@[ptr.player - 1].piles@, n@)
            } else {
                None
            },
            PileType::Battlefield(b) => if 0 <= b < self.battlefields@.len() && 0 <= ptr.player
                < self.battlefields@[b as int].sides@.len() {
                Some(self.battlefields@[b as int].sides@[ptr.player as int])
            } else {
                None
            },
        }
    }

    /// The board that `ptr` names, if the game has it.
    pub open spec fn board_of(&self, ptr: BoardPointer) -> Option<Board> {
        match ptr {
            BoardPointer::Name(n) => entry_of(self.boards@, n@),
        }
    }

    /// Sets up the table for the players who brought `players_background`,
    /// under `rules`: each player's area dealt the cards they brought, the
    /// battlefields with an empty side per player, the empty shared piles
    /// and the fresh boards of the rules; the first player begins.
    pub fn new(players_background: Vec<PlayerBackground>, rules: Rules, card_library: Library) -> (r: Game)
        requires
            players_background@.len() > 0,
            forall|i: int| 0 <= i < players_background@.len() ==> (#[trigger] players_background@[i]).piles.wf(),
            card_library.wf(),
        ensures
            r.wf(),
            r.players_count == players_background@.len(),
            r.active_player == players_background@[0].player,
            r.rules == rules,
            r.card_library == card_library,
            r.player_areas@.len() == players_background@.len(),
            forall|k: int| 0 <= k < players_background@.len() ==>
                area_for(#[trigger] r.player_areas@[k], players_background@[k], rules.name_spec()),
            r.battlefields@.len() == 2,
            forall|b: int| 0 <= b < 2 ==> fresh_battlefield(#[trigger] r.battlefields@[b], seats_of(players_background@)),
            empty_piles_for(r.piles, pile_layout(rules.name_spec(), Player(ADMIN_ID))),
            fresh_boards_for(r.boards, board_layout(rules.name_spec())),
    {
        let ghost bgs = players_background@;
        let mut players: Vec<Player> = Vec::new();
        for i in 0..players_background.len()
            invariant
                players@ == seats_of(players_background@).take(i as int),
        {
            players.push(players_background[i].player);
            assert(players@ == seats_of(players_background@).take(i + 1));
        }
        assert(players@ == seats_of(bgs));
        let active_player = players_background[0].player;
        let players_count = players_background.len();

        let mut rest = players_background;
        let mut player_areas: Vec<PlayerArea> = Vec::new();
        let ghost mut k: int = 0;
        while rest.len() > 0
            invariant
                0 <= k <= bgs.len(),
                rest@ == bgs.skip(k),
                forall|i: int| 0 <= i < bgs.len() ==> (#[trigger] bgs[i]).piles.wf(),
                player_areas@.len() == k,
                forall|j: int| 0 <= j < k ==> area_for(#[trigger] player_areas@[j], bgs[j], rules.name_spec()),
            decreases rest@.len(),
        {
            let background = rest.remove(0);
            proof {
                assert(background == bgs[k]);
            }
            player_areas.push(PlayerArea::new(background, &rules));
            proof {
                k = k + 1;
                assert(rest@ =~= bgs.skip(k));
            }
        }

        let mut battlefields: Vec<Battlefield> = Vec::new();
        let count = rules.battlefields_count();
        for b in 0..count
            invariant
                count == 2,
                players@ == seats_of(bgs),
                battlefields@.len() == b,
                forall|j: int| 0 <= j < b ==> fresh_battlefield(#[trigger] battlefields@[j], seats_of(bgs)),
        {
            let location = Pile::new_empty(PileConfig {
                default_visibility: Visibility::Public,
                owner: Player(ADMIN_ID),
                only_raw_cards: false,
                shuffled: false,
            });
            battlefields.push(Battlefield::new(location, copy_players(&players)));
        }

        let admin_layout = rules.piles(Player(ADMIN_ID));
        proof {
            lemma_pile_names_distinct(rules.name_spec(), Player(ADMIN_ID));
        }
        let piles = empty_piles(admin_layout, Ghost(pile_layout(rules.name_spec(), Player(ADMIN_ID))));
        let board_list = rules.boards();
        let boards = fresh_boards(board_list, Ghost(board_layout(rules.name_spec())));
        let r = Game {
            player_areas,
            players_count,
            rules,
            battlefields,
            active_player,
            card_library,
            piles,
            boards,
        };
        proof {
            assert forall|i: int| 0 <= i < r.player_areas@.len() implies (#[trigger] r.player_areas@[i]).piles.wf() by {
                assert(area_for(r.player_areas@[i], bgs[i], r.rules.name_spec()));
            }
        }
        r
    }

    /// Whether `new` is `old` with at most the pile `ptr` changed.
    pub open spec fn only_pile_changed(old: Game, new: Game, ptr: PilePointer) -> bool {
        &&& new.wf()
        &&& new.players_count == old.players_count
        &&& new.rules == old.rules
        &&& new.active_player == old.active_player
        &&& new.card_library == old.card_library
        &&& new.boards == old.boards
        &&& forall|q: PilePointer| !same_pile(q, ptr) ==> #[trigger] new.pile_of(q) == old.pile_of(q)
    }

    /// Pointers to the same pile reach the same pile.
    pub proof fn lemma_same_pile(&self, p: PilePointer, q: PilePointer)
        requires
            same_pile(p, q),
        ensures
            self.pile_of(p) == self.pile_of(q),
    {
    }

    /// The area of `player`, if `player` is one of the players.
    pub fn get_player_area(&self, player: &Player) -> (r: Option<&PlayerArea>)
        ensures
            match r {
                Some(a) => 1 <= player.0 <= self.player_areas@.len() && *a == self.player_areas@[player.0 - 1],
                None => !(1 <= player.0 <= self.player_areas@.len()),
            },
    {
        if player.0 > 0 && (player.0 as usize) <= self.player_areas.len() {
            Some(&self.player_areas[(player.0 - 1) as usize])
        } else {
            None
        }
    }

    /// The pile that `ptr` names, if the game has it.
    pub fn pile(&self, ptr: &PilePointer) -> (r: Option<&Pile>)
        requires
            self.wf(),
        ensures
            match r {
                Some(p) => self.pile_of(*ptr) == Some(*p),
                None => self.pile_of(*ptr) is None,
            },
    {
        match &ptr.pile_type {
            PileType::Name(name) => {
                if ptr.player == 0 {
                    self.piles.get(name)
                } else if ptr.player > 0 && (ptr.player as usize) <= self.player_areas.len() {
                    let area = &self.player_areas[(ptr.player - 1) as usize];
                    area.piles.get(name)
                } else {
                    None
                }
            },
            PileType::Battlefield(b) => {
                if *b >= 0 && (*b as usize) < self.battlefields.len() {
                    let field = &self.battlefields[*b as usize];
                    if ptr.player >= 0 && (ptr.player as usize) < field.sides.len() {
                        Some(&field.sides[ptr.player as usize])
                    } else {
                        None
                    }
                } else {
                    None
                }
            },
        }
    }

    /// The board that `ptr` names, if the game has it.
    pub fn board(&self, ptr: &BoardPointer) -> (r: Option<&Board>)
        requires
            self.wf(),
        ensures
            match r {
                Some(b) => self.board_of(*ptr) == Some(*b),
                None => self.board_of(*ptr) is None,
            },
    {
        match ptr {
            BoardPointer::Name(name) => self.boards.get(name),
        }
    }

    /// The card at the place `ptr`, if the game has its pile and the place
    /// holds a card.
    pub open spec fn card_of(&self, ptr: CardPointer) -> Option<Card> {
        match self.pile_of(ptr.pile) {
            Some(p) => card_reached(p@, ptr.index as int),
            None => None,
        }
    }

    /// The card at the place `ptr`, if any.
    pub fn card(&self, ptr: &CardPointer) -> (r: Option<&Card>)
        requires
            self.wf(),
        ensures
            match r {
                Some(c) => self.card_of(*ptr) == Some(*c),
                None => self.card_of(*ptr) is None,
            },
    {
        match self.pile(&ptr.pile) {
            Some(pile) => pile.card_at(ptr.index),
            None => None,
        }
    }

    /// Puts `card` at the place `index` of the pile `ptr`; tells whether
    /// the game has that pile. Where it has not, nothing changes.
    pub fn insert_card(&mut self, ptr: &PilePointer, index: i32, card: Card) -> (hit: bool)
        requires
            old(self).wf(),
        ensures
            hit == (old(self).pile_of(*ptr) is Some),
            !hit ==> *final(self) == *old(self),
            hit ==> Game::only_pile_changed(*old(self), *final(self), *ptr),
            hit ==> ({
                let before = old(self).pile_of(*ptr)->Some_0;
                &&& final(self).pile_of(*ptr) matches Some(after)
                &&& after.config == before.config
                &&& after@ == before@.insert(spec_position(index as int, before@.len() as int), card)
            }),
    {
        if self.pile(ptr).is_none() {
            return false;
        }
        let mut pile = Pile::new_empty(placeholder_config());
        let _ = self.swap_pile(ptr, &mut pile);
        pile.insert_at(index, card);
        let _ = self.swap_pile(ptr, &mut pile);
        true
    }

    /// Takes out the card at the place `ptr`, if the game has its pile and
    /// the place holds a card. Where it does not, nothing changes.
    pub fn take_card(&mut self, ptr: &CardPointer) -> (r: Option<Card>)
        requires
            old(self).wf(),
        ensures
            r == old(self).card_of(*ptr),
            r is None ==> *final(self) == *old(self),
            r is Some ==> Game::only_pile_changed(*old(self), *final(self), ptr.pile),
            r is Some ==> ({
                let before = old(self).pile_of(ptr.pile)->Some_0;
                &&& final(self).pile_of(ptr.pile) matches Some(after)
                &&& after.config == before.config
                &&& after@ == before@.remove(spec_position(ptr.index as int, before@.len() as int))
            }),
    {
        match self.pile(&ptr.pile) {
            None => {
                return None;
            },
            Some(pile) => {
                if pile.card_at(ptr.index).is_none() {
                    return None;
                }
            },
        }
        let mut pile = Pile::new_empty(placeholder_config());
        let _ = self.swap_pile(&ptr.pile, &mut pile);
        let taken = pile.take_at(ptr.index);
        let _ = self.swap_pile(&ptr.pile, &mut pile);
        taken
    }

    /// Applies `changes` to the card at the place `ptr`; tells whether
    /// there is such a card. Where there is not, nothing changes.
    pub fn change_card(&mut self, ptr: &CardPointer, changes: &CardChange) -> (hit: bool)
        requires
            old(self).wf(),
        ensures
            hit == (old(self).card_of(*ptr) is Some),
            !hit ==> *final(self) == *old(self),
            hit ==> Game::only_pile_changed(*old(self), *final(self), ptr.pile),
            hit ==> ({
                let before = old(self).pile_of(ptr.pile)->Some_0;
                let p = spec_position(ptr.index as int, before@.len() as int);
                &&& final(self).pile_of(ptr.pile) matches Some(after)
                &&& after.config == before.config
                &&& after@.len() == before@.len()
                &&& forall|j: int| 0 <= j < before@.len() && j != p ==> after@[j] == before@[j]
                &&& card_changed(*changes, before@[p], after@[p])
            }),
    {
        match self.pile(&ptr.pile) {
            None => {
                return false;
            },
            Some(pile) => {
                if pile.card_at(ptr.index).is_none() {
                    return false;
                }
            },
        }
        let mut pile = Pile::new_empty(placeholder_config());
        let _ = self.swap_pile(&ptr.pile, &mut pile);
        let _ = pile.change_card_at(ptr.index, changes);
        let _ = self.swap_pile(&ptr.pile, &mut pile);
        true
    }

    /// Moves the card at the place `source` to the place `dest`, counted
    /// once the card is taken; hands back a copy of the card moved.
    pub fn move_card(&mut self, source: &CardPointer, dest: &CardPointer) -> (r: Option<Card>)
        requires
            old(self).wf(),
        ensures
            card_moved(*old(self), *final(self), *source, *dest),
            r is Some <==> (old(self).card_of(*source) is Some && old(self).pile_of(dest.pile) is Some),
            r matches Some(c) ==> c.same_as(old(self).card_of(*source)->Some_0),
    {
        if self.pile(&dest.pile).is_none() {
            return None;
        }
        let ghost pre = *self;
        match self.take_card(source) {
            None => None,
            Some(card) => {
                let ghost mid = *self;
                proof {
                    if !same_pile(dest.pile, source.pile) {
                        assert(mid.pile_of(dest.pile) == pre.pile_of(dest.pile));
                    } else {
                        mid.lemma_same_pile(dest.pile, source.pile);
                        pre.lemma_same_pile(dest.pile, source.pile);
                    }
                }
                let copy = card.clone();
                let _ = self.insert_card(&dest.pile, dest.index, card);
                proof {
                    if same_pile(dest.pile, source.pile) {
                        pre.lemma_same_pile(dest.pile, source.pile);
                        mid.lemma_same_pile(dest.pile, source.pile);
                    } else {
                        self.lemma_same_pile(source.pile, source.pile);
                        assert(self.pile_of(source.pile) == mid.pile_of(source.pile));
                    }
                    assert forall|q: PilePointer| !same_pile(q, source.pile) && !same_pile(q, dest.pile)
                        implies #[trigger] self.pile_of(q) == pre.pile_of(q) by {
                        assert(mid.pile_of(q) == pre.pile_of(q));
                    }
                }
                Some(copy)
            },
        }
    }

    /// The chip at the place `ptr`, if the game has its board and the
    /// place holds a chip.
    pub open spec fn chip_of(&self, ptr: ChipPointer) -> Option<Chip> {
        match self.board_of(ptr.board) {
            Some(b) => chip_reached(b.chips@, ptr.index as int),
            None => None,
        }
    }

    /// Whether `new` is `old` with at most the board named `name` changed,
    /// into `board`.
    pub open spec fn only_board_changed(old: Game, new: Game, name: Seq<char>, board: Board) -> bool {
        &&& new.wf()
        &&& new.player_areas == old.player_areas
        &&& new.players_count == old.players_count
        &&& new.rules == old.rules
        &&& new.battlefields == old.battlefields
        &&& new.active_player == old.active_player
        &&& new.card_library == old.card_library
        &&& new.piles == old.piles
        &&& new.boards.keys() == old.boards.keys()
        &&& new.boards@ == old.boards@.insert(name, board)
    }

    /// The chip at the place `ptr`, if any.
    pub fn chip(&self, ptr: &ChipPointer) -> (r: Option<&Chip>)
        requires
            self.wf(),
        ensures
            match r {
                Some(c) => self.chip_of(*ptr) == Some(*c),
                None => self.chip_of(*ptr) is None,
            },
    {
        match self.board(&ptr.board) {
            Some(board) => board.chip_at(ptr.index),
            None => None,
        }
    }

    fn board_name(ptr: &BoardPointer) -> (r: &String)
        ensures
            ptr matches BoardPointer::Name(n) && r == n,
    {
        match ptr {
            BoardPointer::Name(name) => name,
        }
    }

    /// Puts `chip` at the place `ptr` of its board; tells whether the game
    /// has that board. Where it has not, nothing changes.
    pub fn insert_chip(&mut self, ptr: &ChipPointer, chip: Chip) -> (hit: bool)
        requires
            old(self).wf(),
        ensures
            hit == (old(self).board_of(ptr.board) is Some),
            !hit ==> *final(self) == *old(self),
            hit ==> ({
                let before = old(self).board_of(ptr.board)->Some_0;
                let name = ptr.board->Name_0@;
                &&& final(self).board_of(ptr.board) matches Some(after)
                &&& Game::only_board_changed(*old(self), *final(self), name, after)
                &&& after.raw == before.raw
                &&& after.img_url == before.img_url
                &&& after.chips@ == before.chips@.insert(spec_position(ptr.index as int, before.chips@.len() as int), chip)
            }),
    {
        let name = Game::board_name(&ptr.board);
        if self.boards.get(name).is_none() {
            return false;
        }
        let mut board = placeholder_board();
        let ghost pre = *self;
        let _ = self.boards.swap_value(name, &mut board);
        board.insert_chip(ptr.index, chip);
        let ghost modified = board;
        let _ = self.boards.swap_value(name, &mut board);
        proof {
            assert(self.boards@ =~= pre.boards@.insert(name@, modified));
        }
        true
    }

    /// Applies `changes` to the chip at the place `ptr`; tells whether there
    /// is such a chip. Where there is not, nothing changes.
    pub fn change_chip(&mut self, ptr: &ChipPointer, changes: &ChipChange) -> (hit: bool)
        requires
            old(self).wf(),
        ensures
            hit == (old(self).chip_of(*ptr) is Some),
            !hit ==> *final(self) == *old(self),
            hit ==> ({
                let before = old(self).board_of(ptr.board)->Some_0;
                let name = ptr.board->Name_0@;
                let p = spec_position(ptr.index as int, before.chips@.len() as int);
                &&& final(self).board_of(ptr.board) matches Some(after)
                &&& Game::only_board_changed(*old(self), *final(self), name, after)
                &&& after.raw == before.raw
                &&& after.img_url == before.img_url
                &&& after.chips@.len() == before.chips@.len()
                &&& forall|j: int| 0 <= j < before.chips@.len() && j != p ==> after.chips@[j] == before.chips@[j]
                &&& after.chips@[p].visibility == changed(changes.visibility, before.chips@[p].visibility)
                &&& after.chips@[p].health == changed(changes.health, before.chips@[p].health)
                &&& after.chips@[p].coordinates == changed(changes.coordinates, before.chips@[p].coordinates)
                &&& after.chips@[p].raw == before.chips@[p].raw
                &&& after.chips@[p].owner == before.chips@[p].owner
            }),
    {
        let name = Game::board_name(&ptr.board);
        match self.boards.get(name) {
            None => {
                return false;
            },
            Some(board) => {
                if board.chip_at(ptr.index).is_none() {
                    return false;
                }
            },
        }
        let mut board = placeholder_board();
        let ghost pre = *self;
        let _ = self.boards.swap_value(name, &mut board);
        let _ = board.change_chip(ptr.index, changes);
        let ghost modified = board;
        let _ = self.boards.swap_value(name, &mut board);
        proof {
            assert(self.boards@ =~= pre.boards@.insert(name@, modified));
        }
        true
    }

    /// Applies `changes` to the board `ptr`; tells whether the game has that
    /// board. Where it has not, nothing changes.
    pub fn change_board(&mut self, ptr: &BoardPointer, changes: &BoardChange) -> (hit: bool)
        requires
            old(self).wf(),
        ensures
            hit == (old(self).board_of(*ptr) is Some),
            !hit ==> *final(self) == *old(self),
            hit ==> ({
                let before = old(self).board_of(*ptr)->Some_0;
                &&& final(self).board_of(*ptr) matches Some(after)
                &&& Game::only_board_changed(*old(self), *final(self), ptr->Name_0@, after)
                &&& after.raw == before.raw
                &&& after.chips == before.chips
                &&& after.img_url == changed(changes.img_url, before.img_url)
            }),
    {
        let name = Game::board_name(ptr);
        if self.boards.get(name).is_none() {
            return false;
        }
        let mut board = placeholder_board();
        let ghost pre = *self;
        let _ = self.boards.swap_value(name, &mut board);
        changes.apply_to(&mut board);
        let ghost modified = board;
        let _ = self.boards.swap_value(name, &mut board);
        proof {
            assert(self.boards@ =~= pre.boards@.insert(name@, modified));
        }
        true
    }

    /// Passes the turn to the next seat.
    pub fn next_active_player(&mut self)
        requires
            1 <= old(self).players_count <= i32::MAX,
        ensures
            final(self).active_player.0 == next_seat(old(self).active_player.0 as int, old(self).players_count as int),
            final(self).player_areas == old(self).player_areas,
            final(self).players_count == old(self).players_count,
            final(self).rules == old(self).rules,
            final(self).battlefields == old(self).battlefields,
            final(self).card_library == old(self).card_library,
            final(self).piles == old(self).piles,
            final(self).boards == old(self).boards,
    {
        let n = self.players_count as u64;
        let a = self.active_player.0;
        if a >= 0 {
            let r = (a as u64) % n;
            self.active_player = Player((r + 1) as i32);
        } else {
            let r = ((-(a as i64)) as u64) % n;
            self.active_player = Player((1 - (r as i64)) as i32);
        }
    }

    /// Exchanges the pile that `ptr` names with `pile`; tells whether the
    /// game has that pile. Where it has not, nothing changes.
    fn swap_pile(&mut self, ptr: &PilePointer, pile: &mut Pile) -> (hit: bool)
        requires
            old(self).wf(),
        ensures
            Game::only_pile_changed(*old(self), *final(self), *ptr),
            hit == (old(self).pile_of(*ptr) is Some),
            hit ==> old(self).pile_of(*ptr) == Some(*final(pile)),
            hit ==> final(self).pile_of(*ptr) == Some(*old(pile)),
            !hit ==> final(self).pile_of(*ptr) == old(self).pile_of(*ptr) && *final(pile) == *old(pile),
    {
        let ghost pre = *self;
        match &ptr.pile_type {
            PileType::Name(name) => {
                if ptr.player == 0 {
                    let hit = self.piles.swap_value(name, pile);
                    proof {
                        assert forall|q: PilePointer| !same_pile(q, *ptr) implies #[trigger] self.pile_of(q) == pre.pile_of(q) by {
                        }
                    }
                    hit
                } else if ptr.player > 0 && (ptr.player as usize) <= self.player_areas.len() {
                    let k = (ptr.player - 1) as usize;
                    let hit = self.player_areas[k].piles.swap_value(name, pile);
                    proof {
                        assert forall|i: int| 0 <= i < self.player_areas@.len() implies (#[trigger] self.player_areas@[i]).piles.wf() by {
                            if i != k {
                                assert(self.player_areas@[i] == pre.player_areas@[i]);
                            }
                        }
                        assert forall|q: PilePointer| !same_pile(q, *ptr) implies #[trigger] self.pile_of(q) == pre.pile_of(q) by {
                            if q.pile_type is Name && 1 <= q.player <= self.player_areas@.len() && q.player - 1 != k {
                                assert(self.player_areas@[q.player - 1] == pre.player_areas@[q.player - 1]);
                            }
                        }
                    }
                    hit
                } else {
                    false
                }
            },
            PileType::Battlefield(b) => {
                if *b >= 0 && (*b as usize) < self.battlefields.len() {
                    let bi = *b as usize;
                    if ptr.player >= 0 && (ptr.player as usize) < self.battlefields[bi].sides.len() {
                        let si = ptr.player as usize;
                        std::mem::swap(&mut self.battlefields[bi].sides[si], pile);
                        proof {
                            assert forall|q: PilePointer| !same_pile(q, *ptr) implies #[trigger] self.pile_of(q) == pre.pile_of(q) by {
                                if q.pile_type is Battlefield {
                                    let qb = q.pile_type->Battlefield_0;
                                    if 0 <= qb < self.battlefields@.len() && qb != bi {
                                        assert(self.battlefields@[qb as int] == pre.battlefields@[qb as int]);
                                    }
                                }
                            }
                        }
                        true
                    } else {
                        false
                    }
                } else {
                    false
                }
            },
        }
    }
}

/// The seat whose turn follows the turn of `seat` among `n` players; seats
/// run from `1` to `n` and the last is followed by the first. (For a seat
/// outside that range it is what the remainder of the division of `seat`
/// by `n`, rounded towards zero, gives.)
pub open spec fn next_seat(seat: int, n: int) -> int {
    if seat >= 0 {
        seat % n + 1
    } else {
        1 - ((-seat) % n)
    }
}

/// The seat whose turn comes `k` turns after that of `seat`.
pub open spec fn seat_after(seat: int, n: int, k: nat) -> int
    decreases k,
{
    if k == 0 {
        seat
    } else {
        next_seat(seat_after(seat, n, (k - 1) as nat), n)
    }
}

/// Every pile of the table is reached by its pointer, and nothing else is:
/// a shared pile by seat 0 and its name; a pile of the `k`-th player (`k`
/// from 1) by seat `k` and its name; each side of each battlefield by the
/// battlefield's index and the side's number, side 0 being the battlefield's
/// location cards. A name that is not filed, a seat with no player, or a
/// battlefield or side that does not exist reaches no pile.
pub proof fn lemma_pointers_reach_piles(g: Game)
    ensures
        forall|n: String| #[trigger] g.pile_of(PilePointer { player: 0, pile_type: PileType::Name(n) })
            == if g.piles@.contains_key(n@) { Some(g.piles@[n@]) } else { None::<Pile> },
        forall|k: i32, n: String| 1 <= k <= g.player_areas@.len() ==>
            #[trigger] g.pile_of(PilePointer { player: k, pile_type: PileType::Name(n) })
            == if g.player_areas@[k - 1].piles@.contains_key(n@) { Some(g.player_areas@[k - 1].piles@[n@]) } else { None::<Pile> },
        forall|k: i32, n: String| (k < 0 || k > g.player_areas@.len()) ==>
            #[trigger] g.pile_of(PilePointer { player: k, pile_type: PileType::Name(n) }) is None,
        forall|b: i32, s: i32| 0 <= b < g.battlefields@.len() && 0 <= s < g.battlefields@[b as int].sides@.len() ==>
            #[trigger] g.pile_of(PilePointer { player: s, pile_type: PileType::Battlefield(b) })
            == Some(g.battlefields@[b as int].sides@[s as int]),
        forall|b: i32, s: i32| !(0 <= b < g.battlefields@.len() && 0 <= s < g.battlefields@[b as int].sides@.len()) ==>
            #[trigger] g.pile_of(PilePointer { player: s, pile_type: PileType::Battlefield(b) }) is None,
{
}

/// Moving a card neither makes nor loses a card: within one pile the pile
/// keeps the same cards, each as often as before; between two piles the two
/// piles together keep the same cards; and the card moved is at the place
/// asked for.
pub proof fn lemma_move_keeps_cards(old: Game, new: Game, source: CardPointer, dest: CardPointer)
    requires
        card_moved(old, new, source, dest),
        old.card_of(source) is Some,
        old.pile_of(dest.pile) is Some,
    ensures
        ({
            let src = old.pile_of(source.pile)->Some_0;
            let dst = old.pile_of(dest.pile)->Some_0;
            let card = old.card_of(source)->Some_0;
            let nsrc = new.pile_of(source.pile)->Some_0;
            let ndst = new.pile_of(dest.pile)->Some_0;
            let free = if same_pile(source.pile, dest.pile) { (src@.len() - 1) as int } else { dst@.len() as int };
            &&& new.pile_of(source.pile) is Some
            &&& new.pile_of(dest.pile) is Some
            &&& ndst@[spec_position(dest.index as int, free)] == card
            &&& same_pile(source.pile, dest.pile) ==> ndst@.to_multiset() == src@.to_multiset()
            &&& !same_pile(source.pile, dest.pile) ==>
                nsrc@.to_multiset().add(ndst@.to_multiset()) == src@.to_multiset().add(dst@.to_multiset())
        }),
{
    broadcast use vstd::multiset::group_multiset_axioms;

    let src = old.pile_of(source.pile)->Some_0;
    let dst = old.pile_of(dest.pile)->Some_0;
    let p = spec_position(source.index as int, src@.len() as int);
    let card = src@[p];
    let rest = src@.remove(p);
    vstd::seq_lib::to_multiset_remove(src@, p);
    assert(src@.contains(card));
    vstd::seq_lib::to_multiset_contains(src@, card);
    assert(src@.to_multiset().count(card) > 0);
    if same_pile(source.pile, dest.pile) {
        new.lemma_same_pile(source.pile, dest.pile);
        let q = spec_position(dest.index as int, rest.len() as int);
        crate::pointer::lemma_position_idempotent(dest.index as int, rest.len() as int);
        vstd::seq_lib::to_multiset_insert(rest, q, card);
        assert(src@.to_multiset().remove(card).insert(card) =~= src@.to_multiset());
    } else {
        let q = spec_position(dest.index as int, dst@.len() as int);
        crate::pointer::lemma_position_idempotent(dest.index as int, dst@.len() as int);
        vstd::seq_lib::to_multiset_insert(dst@, q, card);
        assert(rest.to_multiset().add(dst@.to_multiset().insert(card)) =~= src@.to_multiset().add(dst@.to_multiset()));
    }
}

proof fn lemma_seat_after(seat: int, n: int, k: nat)
    requires
        n >= 1,
        1 <= seat <= n,
    ensures
        seat_after(seat, n, k) == (seat - 1 + k) % n + 1,
    decreases k,
{
    if k == 0 {
        lemma_small_mod(seat - 1, n);
    } else {
        lemma_seat_after(seat, n, (k - 1) as nat);
        let t = seat - 1 + k - 1;
        let q = t / n;
        let r = t % n;
        lemma_fundamental_div_mod(t, n);
        if r + 1 < n {
            lemma_small_mod(r + 1, n);
            assert(t + 1 == q * n + (r + 1)) by (nonlinear_arith)
                requires
                    t == n * q + r,
            ;
            lemma_fundamental_div_mod_converse(t + 1, n, q, r + 1);
        } else {
            lemma_fundamental_div_mod_converse(r + 1, n, 1, 0);
            assert(t + 1 == (q + 1) * n + 0) by (nonlinear_arith)
                requires
                    t == n * q + r,
                    r + 1 == n,
            ;
            lemma_fundamental_div_mod_converse(t + 1, n, q + 1, 0);
        }
    }
}

/// Turns pass around the table: from a seat of the table the next turn
/// is again a seat of the table, `k` turns later it is seat
/// `(seat - 1 + k) % n + 1`, after `n` turns it is the same seat again,
/// and with more than one player the turn always passes to someone else.
pub proof fn lemma_turns_cycle(seat: int, n: int, k: nat)
    requires
        n >= 1,
        1 <= seat <= n,
    ensures
        1 <= next_seat(seat, n) <= n,
        n > 1 ==> next_seat(seat, n) != seat,
        seat_after(seat, n, k) == (seat - 1 + k) % n + 1,
        seat_after(seat, n, n as nat) == seat,
{
    if seat < n {
        lemma_small_mod(seat, n);
    } else {
        lemma_fundamental_div_mod_converse(seat, n, 1, 0);
    }
    lemma_seat_after(seat, n, k);
    lemma_seat_after(seat, n, n as nat);
    lemma_fundamental_div_mod_converse(seat - 1 + n, n, 1, seat - 1);
}

impl CardPointer {
    /// Brings the index into `0..=len` for the `len` cards of the pile:
    /// the place it points at stays the same.
    pub fn normalize(&mut self, game: &Game)
        requires
            game.wf(),
            game.pile_of(old(self).pile) is Some,
            game.pile_of(old(self).pile)->Some_0@.len() <= i32::MAX,
        ensures
            final(self).pile == old(self).pile,
            final(self).index == spec_position(old(self).index as int, game.pile_of(old(self).pile)->Some_0@.len() as int),
    {
        let len = match game.pile(&self.pile) {
            Some(pile) => pile.size(),
            None => 0,
        };
        self.index = position(self.index, len) as i32;
    }
}

impl ChipPointer {
    /// Brings the index into `0..=len` for the `len` chips of the board:
    /// the place it points at stays the same.
    pub fn normalize(&mut self, game: &Game)
        requires
            game.wf(),
            game.board_of(old(self).board) is Some,
            game.board_of(old(self).board)->Some_0.chips@.len() <= i32::MAX,
        ensures
            final(self).board == old(self).board,
            final(self).index == spec_position(
                old(self).index as int,
                game.board_of(old(self).board)->Some_0.chips@.len() as int,
            ),
    {
        let len = match game.board(&self.board) {
            Some(board) => board.chips_size(),
            None => 0,
        };
        self.index = position(self.index, len) as i32;
    }
}

/// Whether `field` is a fresh battlefield for `players`: an empty pile of
/// location cards owned by the table, then an empty public side for each
/// player in order.
pub open spec fn fresh_battlefield(field: Battlefield, players: Seq<Player>) -> bool {
    &&& field.sides@.len() == players.len() + 1
    &&& field.sides@[0]@ == Seq::<Card>::empty()
    &&& field.sides@[0].config == config(false, Visibility::Public, false, Player(ADMIN_ID))
    &&& forall|i: int| 0 <= i < players.len() ==> {
        &&& (#[trigger] field.sides@[i + 1])@ == Seq::<Card>::empty()
        &&& field.sides@[i + 1].config == side_config(players[i])
    }
}

/// A fresh battlefield has one side more than there are players, all empty
/// and public and in order: side 0 holds the location cards and belongs to
/// the administrator; side `i + 1` belongs to the `i`-th player; every side
/// takes any cards.
pub proof fn lemma_fresh_battlefield_sides(field: Battlefield, players: Seq<Player>)
    requires
        fresh_battlefield(field, players),
    ensures
        field.sides@.len() == players.len() + 1,
        field.sides@[0]@.len() == 0,
        field.sides@[0].config == (PileConfig { only_raw_cards: false, default_visibility: Visibility::Public, shuffled: false, owner: Player(0) }),
        forall|i: int| 0 <= i < players.len() ==> (#[trigger] field.sides@[i + 1])@.len() == 0
            && field.sides@[i + 1].config == (PileConfig { only_raw_cards: false, default_visibility: Visibility::Public, shuffled: false, owner: players[i] }),
{
    assert forall|i: int| 0 <= i < players.len() implies (#[trigger] field.sides@[i + 1])@.len() == 0
        && field.sides@[i + 1].config == (PileConfig { only_raw_cards: false, default_visibility: Visibility::Public, shuffled: false, owner: players[i] }) by {
    }
}

/// Whether `piles` holds exactly an empty pile for each entry of `layout`.
pub open spec fn empty_piles_for(piles: NameMap<Pile>, layout: Seq<(Seq<char>, PileConfig)>) -> bool {
    &&& piles.wf()
    &&& forall|n: Seq<char>| piles@.contains_key(n) <==> exists|i: int| 0 <= i < layout.len() && #[trigger] layout[i].0 == n
    &&& forall|i: int| 0 <= i < layout.len() ==> {
        let (n, c) = #[trigger] layout[i];
        &&& piles@.contains_key(n)
        &&& piles@[n]@ == Seq::<Card>::empty()
        &&& piles@[n].config == c
    }
}

/// Whether `boards` holds exactly a fresh board for each entry of `layout`.
pub open spec fn fresh_boards_for(boards: NameMap<Board>, layout: Seq<(Seq<char>, usize, usize, Seq<char>)>) -> bool {
    &&& boards.wf()
    &&& forall|n: Seq<char>| boards@.contains_key(n) <==> exists|i: int| 0 <= i < layout.len() && #[trigger] layout[i].0 == n
    &&& forall|i: int| 0 <= i < layout.len() ==> {
        let (n, h, w, url) = #[trigger] layout[i];
        &&& boards@.contains_key(n)
        &&& boards@[n].raw.height == h
        &&& boards@[n].raw.width == w
        &&& boards@[n].raw.img_url@ == url
        &&& boards@[n].img_url@ == url
        &&& boards@[n].chips@ == Seq::<Chip>::empty()
    }
}

/// The shared piles of a new table are exactly those of the layout, each
/// empty and set up as the layout says.
pub proof fn lemma_empty_piles(piles: NameMap<Pile>, layout: Seq<(Seq<char>, PileConfig)>)
    requires
        empty_piles_for(piles, layout),
    ensures
        forall|i: int| 0 <= i < layout.len() ==> piles@.contains_key((#[trigger] layout[i]).0)
            && piles@[layout[i].0]@.len() == 0 && piles@[layout[i].0].config == layout[i].1,
        forall|n: Seq<char>| #[trigger] piles@.contains_key(n) ==> exists|i: int| 0 <= i < layout.len() && layout[i].0 == n,
{
}

/// The boards of a new table are exactly those of the layout, each of the
/// layout's size and picture, showing that picture, without chips.
pub proof fn lemma_fresh_boards(boards: NameMap<Board>, layout: Seq<(Seq<char>, usize, usize, Seq<char>)>)
    requires
        fresh_boards_for(boards, layout),
    ensures
        forall|i: int| 0 <= i < layout.len() ==> {
            let n = (#[trigger] layout[i]).0;
            &&& boards@.contains_key(n)
            &&& boards@[n].raw.height == layout[i].1
            &&& boards@[n].raw.width == layout[i].2
            &&& boards@[n].raw.img_url@ == layout[i].3
            &&& boards@[n].img_url@ == layout[i].3
            &&& boards@[n].chips@.len() == 0
        },
        forall|n: Seq<char>| #[trigger] boards@.contains_key(n) ==> exists|i: int| 0 <= i < layout.len() && layout[i].0 == n,
{
}

fn empty_piles(list: Vec<(String, PileConfig)>, layout: Ghost<Seq<(Seq<char>, PileConfig)>>) -> (r: NameMap<Pile>)
    requires
        crate::rules::lists_layout(list@, layout@),
        names_distinct(layout@),
    ensures
        empty_piles_for(r, layout@),
{
    let mut piles: NameMap<Pile> = NameMap::new();
    for i in 0..list.len()
        invariant
            crate::rules::lists_layout(list@, layout@),
            names_distinct(layout@),
            piles.wf(),
            forall|n: Seq<char>| piles@.contains_key(n) <==> exists|j: int| 0 <= j < i && #[trigger] layout@[j].0 == n,
            forall|j: int| 0 <= j < i ==> {
                let (n, c) = #[trigger] layout@[j];
                &&& piles@.contains_key(n)
                &&& piles@[n]@ == Seq::<Card>::empty()
                &&& piles@[n].config == c
            },
    {
        let name = list[i].0.clone();
        let ghost before = piles;
        piles.insert(name, Pile::new_empty(list[i].1));
        proof {
            assert forall|n: Seq<char>| piles@.contains_key(n) <==> exists|j: int| 0 <= j < i + 1 && #[trigger] layout@[j].0 == n by {
                if piles@.contains_key(n) && n != layout@[i as int].0 {
                    let j = choose|j: int| 0 <= j < i && #[trigger] layout@[j].0 == n;
                    assert(0 <= j < i + 1);
                }
                if exists|j: int| 0 <= j < i + 1 && #[trigger] layout@[j].0 == n {
                    let j = choose|j: int| 0 <= j < i + 1 && #[trigger] layout@[j].0 == n;
                    if j < i {
                        assert(before@.contains_key(n));
                    }
                }
            }
            assert forall|j: int| 0 <= j < i + 1 implies {
                let (n, c) = #[trigger] layout@[j];
                &&& piles@.contains_key(n)
                &&& piles@[n]@ == Seq::<Card>::empty()
                &&& piles@[n].config == c
            } by {
                if j < i {
                    assert(layout@[j].0 != layout@[i as int].0);
                }
            }
        }
    }
    piles
}

fn fresh_boards(list: Vec<(String, crate::board::RawBoard)>, layout: Ghost<Seq<(Seq<char>, usize, usize, Seq<char>)>>) -> (r: NameMap<Board>)
    requires
        list@.len() == layout@.len(),
        forall|i: int| 0 <= i < list@.len() ==> {
            let l = #[trigger] layout@[i];
            &&& list@[i].0@ == l.0
            &&& list@[i].1.height == l.1
            &&& list@[i].1.width == l.2
            &&& list@[i].1.img_url@ == l.3
        },
        forall|a: int, b: int| 0 <= a < b < layout@.len() ==> #[trigger] layout@[a].0 != #[trigger] layout@[b].0,
    ensures
        fresh_boards_for(r, layout@),
{
    let mut boards: NameMap<Board> = NameMap::new();
    for i in 0..list.len()
        invariant
            list@.len() == layout@.len(),
            forall|i: int| 0 <= i < list@.len() ==> {
                let l = #[trigger] layout@[i];
                &&& list@[i].0@ == l.0
                &&& list@[i].1.height == l.1
                &&& list@[i].1.width == l.2
                &&& list@[i].1.img_url@ == l.3
            },
            forall|a: int, b: int| 0 <= a < b < layout@.len() ==> #[trigger] layout@[a].0 != #[trigger] layout@[b].0,
            boards.wf(),
            forall|n: Seq<char>| boards@.contains_key(n) <==> exists|j: int| 0 <= j < i && #[trigger] layout@[j].0 == n,
            forall|j: int| 0 <= j < i ==> {
                let (n, h, w, url) = #[trigger] layout@[j];
                &&& boards@.contains_key(n)
                &&& boards@[n].raw.height == h
                &&& boards@[n].raw.width == w
                &&& boards@[n].raw.img_url@ == url
                &&& boards@[n].img_url@ == url
                &&& boards@[n].chips@ == Seq::<Chip>::empty()
            },
    {
        let name = list[i].0.clone();
        let ghost before = boards;
        boards.insert(name, Board::new_empty(list[i].1.clone()));
        proof {
            assert forall|n: Seq<char>| boards@.contains_key(n) <==> exists|j: int| 0 <= j < i + 1 && #[trigger] layout@[j].0 == n by {
                if boards@.contains_key(n) && n != layout@[i as int].0 {
                    let j = choose|j: int| 0 <= j < i && #[trigger] layout@[j].0 == n;
                    assert(0 <= j < i + 1);
                }
                if exists|j: int| 0 <= j < i + 1 && #[trigger] layout@[j].0 == n {
                    let j = choose|j: int| 0 <= j < i + 1 && #[trigger] layout@[j].0 == n;
                    if j < i {
                        assert(before@.contains_key(n));
                    }
                }
            }
            assert forall|j: int| 0 <= j < i + 1 implies {
                let (n, h, w, url) = #[trigger] layout@[j];
                &&& boards@.contains_key(n)
                &&& boards@[n].raw.height == h
                &&& boards@[n].raw.width == w
                &&& boards@[n].raw.img_url@ == url
                &&& boards@[n].img_url@ == url
                &&& boards@[n].chips@ == Seq::<Chip>::empty()
            } by {
                if j < i {
                    assert(layout@[j].0 != layout@[i as int].0);
                }
            }
        }
    }
    boards
}

fn copy_players(players: &Vec<Player>) -> (r: Vec<Player>)
    ensures
        r@ == players@,
{
    let mut r: Vec<Player> = Vec::new();
    for i in 0..players.len()
        invariant
            r@ == players@.take(i as int),
    {
        r.push(players[i]);
        assert(r@ == players@.take(i + 1));
    }
    assert(players@.take(players@.len() as int) == players@);
    r
}

/// The seats of the players, in order.
pub open spec fn seats_of(backgrounds: Seq<PlayerBackground>) -> Seq<Player> {
    backgrounds.map_values(|b: PlayerBackground| b.player)
}

/// A board that only stands in for a moment: of no size, without
/// picture and without chips.
fn placeholder_board() -> (b: Board)
    ensures
        b.raw.height == 0,
        b.raw.width == 0,
        b.raw.img_url@ == Seq::<char>::empty(),
        b.img_url@ == Seq::<char>::empty(),
        b.chips@ == Seq::<Chip>::empty(),
{
    Board { raw: RawBoard { height: 0, width: 0, img_url: String::new() }, img_url: String::new(), chips: Vec::new() }
}

/// A configuration for a pile that only stands in for a moment: a public,
/// unshuffled pile of the table that takes any card.
fn placeholder_config() -> (c: PileConfig)
    ensures
        c == config(false, Visibility::Public, false, Player(ADMIN_ID)),
{
    PileConfig {
        only_raw_cards: false,
        default_visibility: Visibility::Public,
        owner: Player(ADMIN_ID),
        shuffled: false,
    }
}

} // verus!
