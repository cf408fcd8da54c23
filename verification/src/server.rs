use vstd::prelude::*;
use crate::board::{BoardChange, ChipOnBoard};
use crate::card::{Card, fresh_from_raw};
use crate::chip::{Chip, ChipChange, Coordinates, changed};
use crate::game::{Game, card_moved, next_seat};
use crate::names::entry_of;
use crate::pile::CardInPile;
use crate::player::{Player, WATCHER_ID};
use crate::pointer::{BoardPointer, CardPointer, ChipPointer, PilePointer, spec_position};
use crate::rules::may_touch;
use crate::viewable::may_view;
use crate::shuffle::shuffle;
use crate::view::{
    BoardView, CardChange, CardView, ChipView, PileView, board_shown, card_changed, card_shown, chip_shown,
    lemma_change_to_raw_restores, pile_shown, restored_to_raw,
};
use crate::visibility::Visibility;

verus! {

/// What a player asks of the game server.
#[derive(Debug)]
#[allow(inconsistent_fields)]
pub enum PlayerMessage {
    MoveCard { source: CardPointer, destination: CardPointer },
    ShuffleCardToPile { source: CardPointer, destination: PilePointer },
    ShufflePile { target: PilePointer },
    ChangeCardToRaw { target: CardPointer },
    ChangeCard { target: CardPointer, changes: CardChange },
    CreateCard { destination: CardPointer, name: String },
    CreateChip { destination: ChipPointer, coordinates: Coordinates, name: String },
    ChangeChip { target: ChipPointer, changes: ChipChange },
    ChangeBoard { target: BoardPointer, changes: BoardChange },
    TurnEnd,
    Surrender,
    ViewPile(PilePointer),
    ViewBoard(BoardPointer),
    ViewCard(CardPointer),
    ViewChip(ChipPointer),
    GameInfo,
}

/// What the game server tells a player.
#[derive(Debug)]
#[allow(inconsistent_fields)]
pub enum Action {
    CardMoved { source: CardPointer, destination: CardPointer },
    CardShuffledToPile { source: CardPointer, destination: PilePointer },
    PileShuffled { target: PilePointer },
    CardCreated { destination: CardPointer, card: CardView },
    CardChanged { target: CardPointer, new_card: CardView },
    GameInfo { your_number: i32, players_count: usize, battlefields_count: usize },
    ViewPile { target: PilePointer, pile: PileView },
    ViewCard { target: CardPointer, card: CardView },
    ViewBoard { target: BoardPointer, board: BoardView },
    ViewChip { target: ChipPointer, chip: ChipView },
    ChipCreated { destination: ChipPointer, chip: ChipView },
    ChipChanged { target: ChipPointer, new_chip: ChipView },
    BoardChanged { target: BoardPointer, new_board: BoardView },
    NextTurn(Player),
    BackgroundRequest,
}

/// Whom the server answers after a message, and with what: nobody, the
/// sender alone, or every client, each seeing the cards and chips as their
/// seat may.
#[derive(Debug)]
#[allow(inconsistent_fields)]
pub enum Reply {
    Nothing,
    ToSender(Action),
    CardMoved { source: CardPointer, destination: CardPointer },
    CardCreated { destination: CardPointer, card: Card },
    CardChanged { target: CardPointer, card: Card },
    ChipCreated { destination: ChipPointer, chip: Chip },
    ChipChanged { target: ChipPointer, chip: Chip },
    NextTurn(Player),
}

/// Whether the action `a` is what `viewer` is told of the reply `r` sent
/// to every client (`None` for a reply that is not).
pub open spec fn told(r: Reply, viewer: Player, a: Option<Action>) -> bool {
    match r {
        Reply::Nothing => a is None,
        Reply::ToSender(_) => a is None,
        Reply::CardMoved { source, destination } => a == Some(Action::CardMoved { source, destination }),
        Reply::CardCreated { destination, card } => a matches Some(Action::CardCreated { destination: d, card: v })
            && d == destination && card_shown(v, card, viewer),
        Reply::CardChanged { target, card } => a matches Some(Action::CardChanged { target: t, new_card: v })
            && t == target && card_shown(v, card, viewer),
        Reply::ChipCreated { destination, chip } => a matches Some(Action::ChipCreated { destination: d, chip: v })
            && d == destination && chip_shown(v, chip, viewer),
        Reply::ChipChanged { target, chip } => a matches Some(Action::ChipChanged { target: t, new_chip: v })
            && t == target && chip_shown(v, chip, viewer),
        Reply::NextTurn(p) => a == Some(Action::NextTurn(p)),
    }
}

/// A reply for everyone is told to every seat, and one for the sender alone
/// (or none) to no seat: a move or a new turn as it is; a created or changed
/// card or chip as that seat may see it, at the same place.
pub proof fn lemma_every_seat_told(r: Reply, viewer: Player, a: Option<Action>)
    requires
        told(r, viewer, a),
    ensures
        (r is Nothing || r is ToSender) ==> a is None,
        r matches Reply::CardMoved { source, destination } ==> a == Some(Action::CardMoved { source, destination }),
        r matches Reply::NextTurn(p) ==> a == Some(Action::NextTurn(p)),
        r matches Reply::CardCreated { destination, card } ==> (a matches Some(Action::CardCreated { destination: d, card: v })
            && d == destination && v.tapped == card.tapped && v.owner == card.owner
            && (v.visible_to_me <==> may_view(card.owner, card.visibility, viewer))),
        r matches Reply::CardChanged { target, card } ==> (a matches Some(Action::CardChanged { target: t, new_card: v })
            && t == target && v.tapped == card.tapped && v.owner == card.owner
            && (v.visible_to_me <==> may_view(card.owner, card.visibility, viewer))),
        r matches Reply::ChipCreated { destination, chip } ==> (a matches Some(Action::ChipCreated { destination: d, chip: v })
            && d == destination && v.owner == chip.owner && v.coordinates == chip.coordinates),
        r matches Reply::ChipChanged { target, chip } ==> (a matches Some(Action::ChipChanged { target: t, new_chip: v })
            && t == target && v.owner == chip.owner && v.coordinates == chip.coordinates),
{
}

impl Reply {
    /// Whether the reply goes to every client.
    pub open spec fn for_everyone(self) -> bool {
        !(self is Nothing) && !(self is ToSender)
    }

    /// Whether the reply goes to every client.
    pub fn is_for_everyone(&self) -> (r: bool)
        ensures
            r == self.for_everyone(),
    {
        match self {
            Reply::Nothing => false,
            Reply::ToSender(_) => false,
            _ => true,
        }
    }

    /// What `viewer` is told of a reply that goes to every client.
    pub fn action_for(&self, viewer: &Player) -> (a: Option<Action>)
        ensures
            told(*self, *viewer, a),
    {
        match self {
            Reply::Nothing => None,
            Reply::ToSender(_) => None,
            Reply::CardMoved { source, destination } => Some(
                Action::CardMoved { source: source.clone(), destination: destination.clone() },
            ),
            Reply::CardCreated { destination, card } => Some(
                Action::CardCreated { destination: destination.clone(), card: CardView::from_card(card, viewer) },
            ),
            Reply::CardChanged { target, card } => Some(
                Action::CardChanged { target: target.clone(), new_card: CardView::from_card(card, viewer) },
            ),
            Reply::ChipCreated { destination, chip } => Some(
                Action::ChipCreated { destination: destination.clone(), chip: ChipView::from_chip(chip, viewer) },
            ),
            Reply::ChipChanged { target, chip } => Some(
                Action::ChipChanged { target: target.clone(), new_chip: ChipView::from_chip(chip, viewer) },
            ),
            Reply::NextTurn(p) => Some(Action::NextTurn(*p)),
        }
    }
}

/// Whether `new` is `old` with the card at `target` rewritten by `f`
/// (from the card before to the card after) and nothing else changed.
pub open spec fn card_rewritten(old: Game, new: Game, target: CardPointer, f: spec_fn(Card, Card) -> bool) -> bool {
    let before = old.pile_of(target.pile)->Some_0;
    let p = spec_position(target.index as int, before@.len() as int);
    &&& Game::only_pile_changed(old, new, target.pile)
    &&& new.pile_of(target.pile) matches Some(after)
    &&& after.config == before.config
    &&& after@.len() == before@.len()
    &&& forall|j: int| 0 <= j < before@.len() && j != p ==> after@[j] == before@[j]
    &&& f(before@[p], after@[p])
}

/// Whether `sender` may touch the card at `target` of `game` (there being
/// one).
pub open spec fn may_touch_card(game: Game, sender: Player, target: CardPointer) -> bool {
    &&& game.card_of(target) is Some
    &&& may_touch(sender, game.pile_of(target.pile)->Some_0.config.owner, game.card_of(target)->Some_0.owner)
}

/// Whether `new` and `reply` are what the server makes of `old` and
/// `reply` when `sender` sends `message`.
pub open spec fn handled(old: Game, new: Game, sender: Player, message: PlayerMessage, reply: Reply) -> bool {
    match message {
        PlayerMessage::MoveCard { source, destination } => {
            if may_touch_card(old, sender, source) && old.pile_of(destination.pile) is Some {
                card_moved(old, new, source, destination) && reply == Reply::CardMoved { source, destination }
            } else {
                new == old && reply is Nothing
            }
        },
        PlayerMessage::ChangeCard { target, changes } => {
            if may_touch_card(old, sender, target) {
                &&& card_rewritten(old, new, target, |b: Card, a: Card| card_changed(changes, b, a))
                &&& reply matches Reply::CardChanged { target: t, card: c }
                &&& t == target && c.same_as(new.card_of(target)->Some_0)
            } else {
                new == old && reply is Nothing
            }
        },
        PlayerMessage::ChangeCardToRaw { target } => {
            if may_touch_card(old, sender, target) {
                &&& card_rewritten(old, new, target, |b: Card, a: Card| restored_to_raw(b, a))
                &&& reply matches Reply::CardChanged { target: t, card: c }
                &&& t == target && c.same_as(new.card_of(target)->Some_0)
            } else {
                new == old && reply is Nothing
            }
        },
        PlayerMessage::CreateCard { destination, name } => {
            let entry = entry_of(old.card_library.cards@, name@);
            if entry matches Some(e) && e.read is Ok && old.pile_of(destination.pile) is Some {
                let before = old.pile_of(destination.pile)->Some_0;
                let raw = entry->Some_0.read->Ok_0;
                let p = spec_position(destination.index as int, before@.len() as int);
                &&& Game::only_pile_changed(old, new, destination.pile)
                &&& new.pile_of(destination.pile) matches Some(after)
                &&& after.config == before.config
                &&& after@.len() == before@.len() + 1
                &&& after@.remove(p) == before@
                &&& fresh_from_raw(after@[p], raw, sender, Visibility::Public)
                &&& reply matches Reply::CardCreated { destination: d, card: c }
                &&& d == destination && c.same_as(after@[p])
            } else {
                new == old && reply is Nothing
            }
        },
        PlayerMessage::CreateChip { destination, coordinates, name } => {
            let entry = entry_of(old.card_library.chips@, name@);
            if entry matches Some(e) && e.read is Ok && old.board_of(destination.board) is Some {
                let before = old.board_of(destination.board)->Some_0;
                let raw = entry->Some_0.read->Ok_0;
                let p = spec_position(destination.index as int, before.chips@.len() as int);
                &&& new.board_of(destination.board) matches Some(after)
                &&& Game::only_board_changed(old, new, destination.board->Name_0@, after)
                &&& after.raw == before.raw
                &&& after.img_url == before.img_url
                &&& after.chips@.len() == before.chips@.len() + 1
                &&& after.chips@.remove(p) == before.chips@
                &&& after.chips@[p].raw.same_as(raw)
                &&& after.chips@[p].health == raw.health
                &&& after.chips@[p].coordinates == coordinates
                &&& after.chips@[p].owner == sender
                &&& after.chips@[p].visibility == Visibility::Public
                &&& reply matches Reply::ChipCreated { destination: d, chip: c }
                &&& d == destination && c.same_as(after.chips@[p])
            } else {
                new == old && reply is Nothing
            }
        },
        PlayerMessage::ChangeChip { target, changes } => {
            if old.chip_of(target) is Some {
                let before = old.board_of(target.board)->Some_0;
                let p = spec_position(target.index as int, before.chips@.len() as int);
                let b = before.chips@[p];
                &&& new.board_of(target.board) matches Some(after)
                &&& Game::only_board_changed(old, new, target.board->Name_0@, after)
                &&& after.raw == before.raw
                &&& after.img_url == before.img_url
                &&& after.chips@.len() == before.chips@.len()
                &&& forall|j: int| 0 <= j < before.chips@.len() && j != p ==> after.chips@[j] == before.chips@[j]
                &&& after.chips@[p].visibility == changed(changes.visibility, b.visibility)
                &&& after.chips@[p].health == changed(changes.health, b.health)
                &&& after.chips@[p].coordinates == changed(changes.coordinates, b.coordinates)
                &&& after.chips@[p].raw == b.raw
                &&& after.chips@[p].owner == b.owner
                &&& reply matches Reply::ChipChanged { target: t, chip: c }
                &&& t == target && c.same_as(after.chips@[p])
            } else {
                new == old && reply is Nothing
            }
        },
        PlayerMessage::ViewChip(target) => {
            &&& new == old
            &&& match old.chip_of(target) {
                Some(chip) => reply matches Reply::ToSender(Action::ViewChip { target: t, chip: v })
                    && t == target && chip_shown(v, chip, sender),
                None => reply is Nothing,
            }
        },
        PlayerMessage::ViewBoard(target) => {
            &&& new == old
            &&& match old.board_of(target) {
                Some(board) => reply matches Reply::ToSender(Action::ViewBoard { target: t, board: v })
                    && t == target && board_shown(v, board, sender),
                None => reply is Nothing,
            }
        },
        PlayerMessage::ViewPile(target) => {
            &&& new == old
            &&& match old.pile_of(target) {
                Some(pile) => reply matches Reply::ToSender(Action::ViewPile { target: t, pile: v })
                    && t == target && pile_shown(v, pile, sender),
                None => reply is Nothing,
            }
        },
        PlayerMessage::ViewCard(target) => {
            &&& new == old
            &&& match old.card_of(target) {
                Some(card) => reply matches Reply::ToSender(Action::ViewCard { target: t, card: v })
                    && t == target && card_shown(v, card, sender),
                None => reply is Nothing,
            }
        },
        PlayerMessage::TurnEnd => {
            if old.active_player == sender && 1 <= old.players_count <= i32::MAX {
                &&& new.active_player.0 == next_seat(old.active_player.0 as int, old.players_count as int)
                &&& new.player_areas == old.player_areas
                &&& new.players_count == old.players_count
                &&& new.rules == old.rules
                &&& new.battlefields == old.battlefields
                &&& new.card_library == old.card_library
                &&& new.piles == old.piles
                &&& new.boards == old.boards
                &&& reply == Reply::NextTurn(new.active_player)
            } else {
                new == old && reply is Nothing
            }
        },
        PlayerMessage::GameInfo => {
            &&& new == old
            &&& reply == Reply::ToSender(Action::GameInfo {
                your_number: sender.0,
                players_count: old.players_count,
                battlefields_count: old.battlefields@.len() as usize,
            })
        },
        PlayerMessage::Surrender => new == old && reply is Nothing,
        PlayerMessage::ShuffleCardToPile { .. } => new == old && reply is Nothing,
        PlayerMessage::ShufflePile { .. } => new == old && reply is Nothing,
        PlayerMessage::ChangeBoard { .. } => new == old && reply is Nothing,
    }
}

/// No one changes a card they may not touch: moving, changing or returning
/// to raw a card that the sender may not touch (or that is not there)
/// leaves the game as it was and tells no one anything; a watcher never
/// touches a card.
pub proof fn lemma_untouchable_cards_stay(old: Game, new: Game, sender: Player, message: PlayerMessage, reply: Reply)
    requires
        handled(old, new, sender, message, reply),
    ensures
        message matches PlayerMessage::MoveCard { source, .. } ==> (!may_touch_card(old, sender, source)
            ==> new == old && reply is Nothing),
        message matches PlayerMessage::ChangeCard { target, .. } ==> (!may_touch_card(old, sender, target)
            ==> new == old && reply is Nothing),
        message matches PlayerMessage::ChangeCardToRaw { target } ==> (!may_touch_card(old, sender, target)
            ==> new == old && reply is Nothing),
        sender == Player(WATCHER_ID) && (message is MoveCard || message is ChangeCard || message is ChangeCardToRaw)
            ==> new == old && reply is Nothing,
{
}

/// Looking changes nothing: asking to see a card, a pile, a chip, a board or
/// the game, and the messages the server does not act on (surrender,
/// shuffles, board changes), leave the game as it was.
pub proof fn lemma_looking_changes_nothing(old: Game, new: Game, sender: Player, message: PlayerMessage, reply: Reply)
    requires
        handled(old, new, sender, message, reply),
        message is ViewCard || message is ViewPile || message is ViewChip || message is ViewBoard
            || message is GameInfo || message is Surrender || message is ShuffleCardToPile
            || message is ShufflePile || message is ChangeBoard,
    ensures
        new == old,
        !(reply is CardMoved || reply is CardCreated || reply is CardChanged || reply is ChipCreated
            || reply is ChipChanged || reply is NextTurn),
{
}

/// Only the player whose turn it is ends it: then the turn passes to the
/// next seat round the table (seat `a` of `n` to `a % n + 1`), everyone is
/// told whose turn it is, and nothing else changes; from anyone else the
/// message changes nothing.
pub proof fn lemma_turn_end(old: Game, new: Game, sender: Player, reply: Reply)
    requires
        handled(old, new, sender, PlayerMessage::TurnEnd, reply),
    ensures
        sender != old.active_player ==> new == old && reply is Nothing,
        sender == old.active_player && 1 <= old.players_count <= i32::MAX && 1 <= sender.0 <= old.players_count ==> {
            &&& new.active_player.0 == (sender.0 as int) % (old.players_count as int) + 1
            &&& reply == Reply::NextTurn(new.active_player)
            &&& new.player_areas == old.player_areas
            &&& new.battlefields == old.battlefields
            &&& new.piles == old.piles
            &&& new.boards == old.boards
            &&& new.players_count == old.players_count
        },
{
}

/// A change of a card the sender may touch rewrites that card and no other:
/// the card then at the same place holds each value the change gives and
/// keeps each one it does not give, and everyone is told the new card.
pub proof fn lemma_card_change_lands(old: Game, new: Game, sender: Player, target: CardPointer, changes: CardChange, reply: Reply)
    requires
        handled(old, new, sender, PlayerMessage::ChangeCard { target, changes }, reply),
        may_touch_card(old, sender, target),
    ensures
        new.card_of(target) matches Some(after) && {
            let before = old.card_of(target)->Some_0;
            &&& (changes.power matches Some(v) ==> after.power == v)
            &&& (changes.power is None ==> after.power == before.power)
            &&& (changes.health matches Some(v) ==> after.health == v)
            &&& (changes.health is None ==> after.health == before.health)
            &&& (changes.cost matches Some(v) ==> after.cost == v)
            &&& (changes.cost is None ==> after.cost == before.cost)
            &&& (changes.description matches Some(v) ==> after.description == v)
            &&& (changes.description is None ==> after.description == before.description)
            &&& (changes.visibility matches Some(v) ==> after.visibility == v)
            &&& (changes.visibility is None ==> after.visibility == before.visibility)
            &&& (changes.comments matches Some(v) ==> after.comments == v)
            &&& (changes.comments is None ==> after.comments == before.comments)
            &&& (changes.tapped matches Some(v) ==> after.tapped == v)
            &&& (changes.tapped is None ==> after.tapped == before.tapped)
            &&& after.raw == before.raw
            &&& after.owner == before.owner
        },
        reply is CardChanged,
{
    let before_pile = old.pile_of(target.pile)->Some_0;
    let p = spec_position(target.index as int, before_pile@.len() as int);
    let after_pile = new.pile_of(target.pile)->Some_0;
    crate::view::lemma_change_sets_given_values(changes, before_pile@[p], after_pile@[p]);
}

/// Returning to raw a card the sender may touch gives the card then at the
/// same place its raw card's power, health, cost, description and tags, no
/// comments and an untapped state, and everyone is told the new card.
pub proof fn lemma_card_back_to_raw(old: Game, new: Game, sender: Player, target: CardPointer, reply: Reply)
    requires
        handled(old, new, sender, PlayerMessage::ChangeCardToRaw { target }, reply),
        may_touch_card(old, sender, target),
    ensures
        new.card_of(target) matches Some(after) && {
            let before = old.card_of(target)->Some_0;
            &&& after.power == before.raw.power
            &&& after.health == before.raw.health
            &&& after.cost == before.raw.cost
            &&& after.description == before.raw.description
            &&& after.tags@ == before.raw.tags@
            &&& after.color_cost@ == before.raw.color_cost@
            &&& after.comments@.len() == 0
            &&& !after.tapped
            &&& after.raw == before.raw
            &&& after.owner == before.owner
        },
        reply is CardChanged,
{
    let before_pile = old.pile_of(target.pile)->Some_0;
    let p = spec_position(target.index as int, before_pile@.len() as int);
    let after_pile = new.pile_of(target.pile)->Some_0;
    crate::view::lemma_restored_values(before_pile@[p], after_pile@[p]);
}

/// Creating a card that the library can hand out, in a pile of the game,
/// puts one card more into that pile at the place asked for, fresh from the
/// library's raw card: with its printed values, owned by the sender, public,
/// without comments and untapped; the other cards stay in order. A card the
/// library cannot hand out, or a pile that is not there, changes nothing.
pub proof fn lemma_card_created(old: Game, new: Game, sender: Player, destination: CardPointer, name: String, reply: Reply)
    requires
        handled(old, new, sender, PlayerMessage::CreateCard { destination, name }, reply),
    ensures
        !(old.card_library.cards@.contains_key(name@) && old.card_library.cards@[name@].read is Ok
            && old.pile_of(destination.pile) is Some) ==> new == old && reply is Nothing,
        old.card_library.cards@.contains_key(name@) && old.card_library.cards@[name@].read is Ok
            && old.pile_of(destination.pile) is Some ==> {
            let raw = old.card_library.cards@[name@].read->Ok_0;
            let before = old.pile_of(destination.pile)->Some_0;
            let p = spec_position(destination.index as int, before@.len() as int);
            &&& new.pile_of(destination.pile) matches Some(after) && {
                &&& after@.len() == before@.len() + 1
                &&& after@.remove(p) == before@
                &&& after@[p].name == raw.name
                &&& after@[p].power == raw.power
                &&& after@[p].health == raw.health
                &&& after@[p].cost == raw.cost
                &&& after@[p].owner == sender
                &&& after@[p].visibility == Visibility::Public
                &&& after@[p].comments@.len() == 0
                &&& !after@[p].tapped
            }
            &&& reply is CardCreated
        },
{
    if old.card_library.cards@.contains_key(name@) && old.card_library.cards@[name@].read is Ok
        && old.pile_of(destination.pile) is Some {
        let raw = old.card_library.cards@[name@].read->Ok_0;
        let before = old.pile_of(destination.pile)->Some_0;
        let p = spec_position(destination.index as int, before@.len() as int);
        let after = new.pile_of(destination.pile)->Some_0;
        crate::card::lemma_fresh_card_values(after@[p], raw, sender, Visibility::Public);
    }
}

/// Changing a chip that is there sets each value the change gives (health,
/// visibility, place) and keeps the others, on the chip then at the same
/// place; its raw chip and owner stay. A chip that is not there changes
/// nothing.
pub proof fn lemma_chip_change_lands(old: Game, new: Game, sender: Player, target: ChipPointer, changes: ChipChange, reply: Reply)
    requires
        handled(old, new, sender, PlayerMessage::ChangeChip { target, changes }, reply),
    ensures
        old.chip_of(target) is None ==> new == old && reply is Nothing,
        old.chip_of(target) matches Some(before) ==> {
            &&& new.chip_of(target) matches Some(after) && {
                &&& (changes.health matches Some(v) ==> after.health == v)
                &&& (changes.health is None ==> after.health == before.health)
                &&& (changes.visibility matches Some(v) ==> after.visibility == v)
                &&& (changes.visibility is None ==> after.visibility == before.visibility)
                &&& (changes.coordinates matches Some(v) ==> after.coordinates == v)
                &&& (changes.coordinates is None ==> after.coordinates == before.coordinates)
                &&& after.raw == before.raw
                &&& after.owner == before.owner
            }
            &&& reply is ChipChanged
        },
{
}

/// Seats the players who came for a game in a random order: the `i`-th
/// of the result gets seat `i + 1`; every client gets exactly one seat.
pub fn seat_players<T>(clients: Vec<T>) -> (r: Vec<(Player, T)>)
    requires
        clients@.len() <= i32::MAX,
    ensures
        r@.len() == clients@.len(),
        forall|i: int| 0 <= i < r@.len() ==> (#[trigger] r@[i]).0 == Player((i + 1) as i32),
        r@.map_values(|e: (Player, T)| e.1).to_multiset() == clients@.to_multiset(),
{
    let mut clients = clients;
    shuffle(&mut clients);
    let ghost shuffled = clients@;
    let mut seated: Vec<(Player, T)> = Vec::new();
    while clients.len() > 0
        invariant
            shuffled.len() <= i32::MAX,
            seated@.len() + clients@.len() == shuffled.len(),
            clients@ == shuffled.skip(seated@.len() as int),
            seated@.map_values(|e: (Player, T)| e.1) == shuffled.take(seated@.len() as int),
            forall|i: int| 0 <= i < seated@.len() ==> (#[trigger] seated@[i]).0 == Player((i + 1) as i32),
        decreases clients@.len(),
    {
        let client = clients.remove(0);
        let ghost k = seated@.len() as int;
        let seat = (seated.len() + 1) as i32;
        seated.push((Player(seat), client));
        proof {
            assert(shuffled.take(k + 1) =~= shuffled.take(k).push(shuffled[k]));
            assert(seated@.map_values(|e: (Player, T)| e.1) =~= shuffled.take(k + 1));
            assert(clients@ =~= shuffled.skip(k + 1));
        }
    }
    proof {
        assert(shuffled.take(seated@.len() as int) =~= shuffled);
    }
    seated
}

/// The seat of a connected client.
#[derive(Debug)]
pub struct Client {
    pub player: Player,
}

impl Client {
    /// Whether this client may touch the card at `target`.
    fn may_touch_card(&self, game: &Game, target: &CardPointer) -> (r: bool)
        requires
            game.wf(),
        ensures
            r == may_touch_card(*game, self.player, *target),
    {
        let card_owner = match game.card(target) {
            Some(card) => card.owner,
            None => {
                return false;
            },
        };
        let pile_owner = match game.pile(&target.pile) {
            Some(pile) => pile.config.owner,
            None => {
                return false;
            },
        };
        game.rules.rights_to_touch_ones_pile(&self.player, &pile_owner, &card_owner)
    }

    /// Does what the message asks of the game and says whom to tell what.
    pub fn handle_message(&self, game: &mut Game, message: PlayerMessage) -> (reply: Reply)
        requires
            old(game).wf(),
        ensures
            final(game).wf(),
            handled(*old(game), *final(game), self.player, message, reply),
    {
        match message {
            PlayerMessage::MoveCard { source, destination } => {
                if !self.may_touch_card(game, &source) {
                    return Reply::Nothing;
                }
                let Some(source_card_in_pile) = CardInPile::from_pointer(game, &source) else {
                    return Reply::Nothing;
                };
                let Some(destination_space_in_pile) = CardInPile::from_pointer(game, &destination) else {
                    return Reply::Nothing;
                };
                let _ = source_card_in_pile.move_to(destination_space_in_pile, game);
                Reply::CardMoved { source, destination }
            },
            PlayerMessage::ChangeCard { target, changes } => {
                if !self.may_touch_card(game, &target) {
                    return Reply::Nothing;
                }
                let _ = game.change_card(&target, &changes);
                let card = match game.card(&target) {
                    Some(card) => card.clone(),
                    None => {
                        return Reply::Nothing;
                    },
                };
                Reply::CardChanged { target, card }
            },
            PlayerMessage::ChangeCardToRaw { target } => {
                if !self.may_touch_card(game, &target) {
                    return Reply::Nothing;
                }
                let changes = match game.card(&target) {
                    Some(card) => CardChange::from_raw_card(&card.raw),
                    None => {
                        return Reply::Nothing;
                    },
                };
                let ghost before = game.card_of(target)->Some_0;
                let ghost pre = *game;
                let _ = game.change_card(&target, &changes);
                proof {
                    let p = spec_position(target.index as int, pre.pile_of(target.pile)->Some_0@.len() as int);
                    let after = game.pile_of(target.pile)->Some_0@[p];
                    lemma_change_to_raw_restores(changes, before, after);
                }
                let card = match game.card(&target) {
                    Some(card) => card.clone(),
                    None => {
                        return Reply::Nothing;
                    },
                };
                Reply::CardChanged { target, card }
            },
            PlayerMessage::CreateCard { destination, name } => {
                let raw_card = match game.card_library.get_raw_card_by_name(name.as_str()) {
                    Ok(raw_card) => raw_card,
                    Err(_) => {
                        return Reply::Nothing;
                    },
                };
                let card = Card::from_raw(&raw_card, self.player, Visibility::Public);
                let Some(destination_space_in_pile) = CardInPile::from_pointer(game, &destination) else {
                    return Reply::Nothing;
                };
                let copy = card.clone();
                let ghost pre = *game;
                let _ = destination_space_in_pile.insert(game, card);
                proof {
                    let before = pre.pile_of(destination.pile)->Some_0;
                    let p = spec_position(destination.index as int, before@.len() as int);
                    crate::pointer::lemma_position_idempotent(destination.index as int, before@.len() as int);
                    let after = game.pile_of(destination.pile)->Some_0;
                    assert(after@.remove(p) =~= before@);
                }
                Reply::CardCreated { destination, card: copy }
            },
            PlayerMessage::CreateChip { destination, coordinates, name } => {
                let raw_chip = match game.card_library.get_raw_chip_by_name(name.as_str()) {
                    Ok(raw_chip) => raw_chip,
                    Err(_) => {
                        return Reply::Nothing;
                    },
                };
                let mut chip = Chip::new_from_raw(raw_chip, self.player, Visibility::Public);
                chip.coordinates = coordinates;
                let Some(destination_space_on_board) = ChipOnBoard::from_pointer(game, &destination) else {
                    return Reply::Nothing;
                };
                let copy = chip.clone();
                let ghost pre = *game;
                let _ = destination_space_on_board.insert(game, chip);
                proof {
                    let before = pre.board_of(destination.board)->Some_0;
                    let p = spec_position(destination.index as int, before.chips@.len() as int);
                    crate::pointer::lemma_position_idempotent(destination.index as int, before.chips@.len() as int);
                    let after = game.board_of(destination.board)->Some_0;
                    assert(after.chips@.remove(p) =~= before.chips@);
                }
                Reply::ChipCreated { destination, chip: copy }
            },
            PlayerMessage::ChangeChip { target, changes } => {
                if game.chip(&target).is_none() {
                    return Reply::Nothing;
                }
                let _ = game.change_chip(&target, &changes);
                let chip = match game.chip(&target) {
                    Some(chip) => chip.clone(),
                    None => {
                        return Reply::Nothing;
                    },
                };
                Reply::ChipChanged { target, chip }
            },
            PlayerMessage::ViewChip(target) => {
                match game.chip(&target) {
                    Some(chip) => {
                        let chip = ChipView::from_chip(chip, &self.player);
                        Reply::ToSender(Action::ViewChip { target, chip })
                    },
                    None => Reply::Nothing,
                }
            },
            PlayerMessage::ViewBoard(target) => {
                match game.board(&target) {
                    Some(board) => {
                        let board = BoardView::from_board(board, &self.player);
                        Reply::ToSender(Action::ViewBoard { target, board })
                    },
                    None => Reply::Nothing,
                }
            },
            PlayerMessage::ViewPile(target) => {
                match game.pile(&target) {
                    Some(pile) => {
                        let pile = PileView::from_pile(pile, &self.player);
                        Reply::ToSender(Action::ViewPile { target, pile })
                    },
                    None => Reply::Nothing,
                }
            },
            PlayerMessage::ViewCard(target) => {
                match game.card(&target) {
                    Some(card) => {
                        let card = CardView::from_card(card, &self.player);
                        Reply::ToSender(Action::ViewCard { target, card })
                    },
                    None => Reply::Nothing,
                }
            },
            PlayerMessage::TurnEnd => {
                if game.active_player == self.player && 1 <= game.players_count && game.players_count <= i32::MAX as usize {
                    game.next_active_player();
                    Reply::NextTurn(game.active_player)
                } else {
                    Reply::Nothing
                }
            },
            PlayerMessage::GameInfo => {
                Reply::ToSender(Action::GameInfo {
                    your_number: self.player.0,
                    players_count: game.players_count,
                    battlefields_count: game.battlefields.len(),
                })
            },
            PlayerMessage::Surrender => Reply::Nothing,
            PlayerMessage::ShuffleCardToPile { .. } => Reply::Nothing,
            PlayerMessage::ShufflePile { .. } => Reply::Nothing,
            PlayerMessage::ChangeBoard { .. } => Reply::Nothing,
        }
    }
}

} // verus!
