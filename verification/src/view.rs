use vstd::prelude::*;
use crate::board::{Board, RawBoard};
use crate::card::{Card, RawCard, clone_strings};
use crate::chip::{Chip, Coordinates, RawChip, changed};
use crate::pile::Pile;
use crate::player::Player;
use crate::viewable::{Viewable, may_view};
use crate::visibility::Visibility;

verus! {

/// How a player sees a card. What the player may not look at is left out;
/// what lies on the table for all to see (its back, whether it is tapped,
/// its comments) is always there.
#[derive(Debug)]
pub struct CardView {
    pub raw: Option<RawCard>,
    pub card_type: Option<String>,
    pub rarity: Option<String>,
    pub name: Option<String>,
    pub power: Option<i32>,
    pub health: Option<i32>,
    pub cost: Option<i32>,
    pub color_cost: Option<Vec<String>>,
    pub description: Option<String>,
    pub tags: Option<Vec<String>>,
    pub colors: Option<Vec<String>>,
    pub visibility: Visibility,
    pub tapped: bool,
    pub owner: Player,
    pub art_url: Option<String>,
    pub card_picture_url: Option<String>,
    pub comments: String,
    pub nature: String,
    pub visible_to_me: bool,
    pub back_side_url: String,
}

/// The contents of an optional list of strings.
pub open spec fn opt_seq(o: Option<Vec<String>>) -> Option<Seq<String>> {
    match o {
        Some(v) => Some(v@),
        None => None,
    }
}

/// Whether `view` is how `viewer` sees `card`.
pub open spec fn card_shown(view: CardView, card: Card, viewer: Player) -> bool {
    let visible = may_view(card.owner, card.visibility, viewer);
    &&& view.visible_to_me == visible
    &&& view.visibility == card.visibility
    &&& view.tapped == card.tapped
    &&& view.owner == card.owner
    &&& view.comments == card.comments
    &&& view.nature == card.raw.nature
    &&& view.back_side_url == card.raw.back_side_url
    &&& visible ==> {
        &&& view.raw matches Some(r) && r.same_as(card.raw)
        &&& view.card_type == Some(card.raw.card_type)
        &&& view.rarity == Some(card.raw.rarity)
        &&& view.name == Some(card.name)
        &&& view.power == Some(card.power)
        &&& view.health == Some(card.health)
        &&& view.cost == Some(card.cost)
        &&& opt_seq(view.color_cost) == Some(card.color_cost@)
        &&& view.description == Some(card.description)
        &&& opt_seq(view.tags) == Some(card.tags@)
        &&& opt_seq(view.colors) == Some(card.colors@)
        &&& view.art_url == Some(card.raw.art_url)
        &&& view.card_picture_url == Some(card.raw.card_picture_url)
    }
    &&& !visible ==> {
        &&& view.raw is None
        &&& view.card_type is None
        &&& view.rarity is None
        &&& view.name is None
        &&& view.power is None
        &&& view.health is None
        &&& view.cost is None
        &&& view.color_cost is None
        &&& view.description is None
        &&& view.tags is None
        &&& view.colors is None
        &&& view.art_url is None
        &&& view.card_picture_url is None
    }
}

/// What a seat sees of a card: everyone sees whether it is tapped, its
/// owner, its visibility and its comments; the administrator, everyone for a
/// public card, and the owner for a private card also see its name, power,
/// health, cost, description and raw card; anyone else (everyone but the
/// administrator for a secret card, everyone but the owner and the
/// administrator for a private one) sees none of those.
pub proof fn lemma_what_a_seat_sees(view: CardView, card: Card, viewer: Player)
    requires
        card_shown(view, card, viewer),
    ensures
        view.tapped == card.tapped,
        view.owner == card.owner,
        view.visibility == card.visibility,
        view.comments == card.comments,
        viewer == Player(0) || card.visibility == Visibility::Public
            || (viewer == card.owner && card.visibility == Visibility::Private) ==> {
            &&& view.visible_to_me
            &&& view.name == Some(card.name)
            &&& view.power == Some(card.power)
            &&& view.health == Some(card.health)
            &&& view.cost == Some(card.cost)
            &&& view.description == Some(card.description)
            &&& view.raw matches Some(r) && r.same_as(card.raw)
        },
        viewer != Player(0) && (card.visibility == Visibility::Secret
            || (card.visibility == Visibility::Private && viewer != card.owner)) ==> {
            &&& !view.visible_to_me
            &&& view.name is None
            &&& view.power is None
            &&& view.health is None
            &&& view.cost is None
            &&& view.description is None
            &&& view.tags is None
            &&& view.color_cost is None
            &&& view.raw is None
        },
{
}

impl CardView {
    /// How `viewer` sees `card`.
    pub fn from_card(card: &Card, viewer: &Player) -> (r: CardView)
        ensures
            card_shown(r, *card, *viewer),
    {
        if card.can_be_viewed_by(viewer) {
            CardView {
                raw: Some(card.raw.clone()),
                card_type: Some(card.raw.card_type.clone()),
                name: Some(card.name.clone()),
                power: Some(card.power),
                health: Some(card.health),
                cost: Some(card.cost),
                color_cost: Some(clone_strings(&card.color_cost)),
                description: Some(card.description.clone()),
                tags: Some(clone_strings(&card.tags)),
                colors: Some(clone_strings(&card.colors)),
                visibility: card.visibility,
                owner: card.owner,
                rarity: Some(card.raw.rarity.clone()),
                art_url: Some(card.raw.art_url.clone()),
                card_picture_url: Some(card.raw.card_picture_url.clone()),
                comments: card.comments.clone(),
                nature: card.raw.nature.clone(),
                tapped: card.tapped,
                back_side_url: card.raw.back_side_url.clone(),
                visible_to_me: true,
            }
        } else {
            CardView {
                raw: None,
                card_type: None,
                name: None,
                power: None,
                health: None,
                cost: None,
                color_cost: None,
                description: None,
                tags: None,
                colors: None,
                rarity: None,
                art_url: None,
                card_picture_url: None,
                visibility: card.visibility,
                owner: card.owner,
                comments: card.comments.clone(),
                nature: card.raw.nature.clone(),
                tapped: card.tapped,
                back_side_url: card.raw.back_side_url.clone(),
                visible_to_me: false,
            }
        }
    }
}

/// What a player asks to change on a card; each field that is given
/// replaces the card's.
#[derive(Debug)]
pub struct CardChange {
    pub power: Option<i32>,
    pub health: Option<i32>,
    pub cost: Option<i32>,
    pub color_cost: Option<Vec<String>>,
    pub description: Option<String>,
    pub tags: Option<Vec<String>>,
    pub visibility: Option<Visibility>,
    pub comments: Option<String>,
    pub tapped: Option<bool>,
}

/// Whether `change` returns a card to how `raw` is printed: power, health,
/// cost, color cost, description and tags put back, comments cleared and the
/// card untapped. Visibility is left alone: a card does not record the
/// visibility it was put on the table with.
pub open spec fn is_raw_change(change: CardChange, raw: RawCard) -> bool {
    &&& change.power == Some(raw.power)
    &&& change.health == Some(raw.health)
    &&& change.cost == Some(raw.cost)
    &&& opt_seq(change.color_cost) == Some(raw.color_cost@)
    &&& change.description == Some(raw.description)
    &&& opt_seq(change.tags) == Some(raw.tags@)
    &&& change.comments matches Some(c) && c@ == Seq::<char>::empty()
    &&& change.tapped == Some(false)
    &&& change.visibility is None
}

/// Whether `after` is `before` with `change` applied.
pub open spec fn card_changed(change: CardChange, before: Card, after: Card) -> bool {
    &&& after.tags@ == changed(opt_seq(change.tags), before.tags@)
    &&& after.description == changed(change.description, before.description)
    &&& after.cost == changed(change.cost, before.cost)
    &&& after.color_cost@ == changed(opt_seq(change.color_cost), before.color_cost@)
    &&& after.health == changed(change.health, before.health)
    &&& after.power == changed(change.power, before.power)
    &&& after.visibility == changed(change.visibility, before.visibility)
    &&& after.comments == changed(change.comments, before.comments)
    &&& after.tapped == changed(change.tapped, before.tapped)
    &&& after.raw == before.raw
    &&& after.name == before.name
    &&& after.colors == before.colors
    &&& after.owner == before.owner
}

impl CardChange {
    /// The change that returns a card to its printed state `card`: printed
    /// values back, no comments, untapped.
    pub fn from_raw_card(card: &RawCard) -> (r: CardChange)
        ensures
            is_raw_change(r, *card),
            r.power == Some(card.power),
            r.health == Some(card.health),
            r.cost == Some(card.cost),
            r.color_cost matches Some(v) && v@ == card.color_cost@,
            r.description == Some(card.description),
            r.tags matches Some(v) && v@ == card.tags@,
            r.comments matches Some(c) && c@.len() == 0,
            r.tapped == Some(false),
            r.visibility is None,
    {
        CardChange {
            power: Some(card.power),
            health: Some(card.health),
            cost: Some(card.cost),
            color_cost: Some(clone_strings(&card.color_cost)),
            description: Some(card.description.clone()),
            tags: Some(clone_strings(&card.tags)),
            comments: Some(String::new()),
            visibility: None,
            tapped: Some(false),
        }
    }

    /// Applies the change to `card`.
    pub fn apply_to(&self, card: &mut Card)
        ensures
            card_changed(*self, *old(card), *final(card)),
    {
        if let Some(val) = &self.tags {
            card.tags = clone_strings(val);
        }
        if let Some(val) = &self.description {
            card.description = val.clone();
        }
        if let Some(val) = &self.cost {
            card.cost = *val;
        }
        if let Some(val) = &self.color_cost {
            card.color_cost = clone_strings(val);
        }
        if let Some(val) = &self.health {
            card.health = *val;
        }
        if let Some(val) = &self.power {
            card.power = *val;
        }
        if let Some(val) = &self.visibility {
            card.visibility = *val;
        }
        if let Some(val) = &self.comments {
            card.comments = val.clone();
        }
        if let Some(val) = &self.tapped {
            card.tapped = *val;
        }
    }
}

/// Whether `after` is `before` returned to its raw card: the printed power,
/// health, cost, color cost, description and tags put back, no comments, not
/// tapped; name, colors, owner and visibility as they were.
pub open spec fn restored_to_raw(before: Card, after: Card) -> bool {
    &&& after.power == before.raw.power
    &&& after.health == before.raw.health
    &&& after.cost == before.raw.cost
    &&& after.color_cost@ == before.raw.color_cost@
    &&& after.description == before.raw.description
    &&& after.tags@ == before.raw.tags@
    &&& after.raw == before.raw
    &&& after.name == before.name
    &&& after.colors == before.colors
    &&& after.visibility == before.visibility
    &&& after.owner == before.owner
    &&& after.comments@ == Seq::<char>::empty()
    &&& !after.tapped
}

/// Changing a card to raw makes its power, health, cost, color cost,
/// description and tags those of its raw card again, clears its comments and
/// untaps it, and leaves its name, colors, owner and visibility as they were.
pub proof fn lemma_change_to_raw_restores(change: CardChange, before: Card, after: Card)
    requires
        is_raw_change(change, before.raw),
        card_changed(change, before, after),
    ensures
        restored_to_raw(before, after),
{
}

/// A change sets each value it gives and leaves each value it does not
/// give as it was; it never touches the card's raw card, name, colors or
/// owner.
pub proof fn lemma_change_sets_given_values(change: CardChange, before: Card, after: Card)
    requires
        card_changed(change, before, after),
    ensures
        change.power matches Some(v) ==> after.power == v,
        change.power is None ==> after.power == before.power,
        change.health matches Some(v) ==> after.health == v,
        change.health is None ==> after.health == before.health,
        change.cost matches Some(v) ==> after.cost == v,
        change.cost is None ==> after.cost == before.cost,
        change.color_cost matches Some(v) ==> after.color_cost@ == v@,
        change.color_cost is None ==> after.color_cost@ == before.color_cost@,
        change.description matches Some(v) ==> after.description == v,
        change.description is None ==> after.description == before.description,
        change.tags matches Some(v) ==> after.tags@ == v@,
        change.tags is None ==> after.tags@ == before.tags@,
        change.visibility matches Some(v) ==> after.visibility == v,
        change.visibility is None ==> after.visibility == before.visibility,
        change.comments matches Some(v) ==> after.comments == v,
        change.comments is None ==> after.comments == before.comments,
        change.tapped matches Some(v) ==> after.tapped == v,
        change.tapped is None ==> after.tapped == before.tapped,
        after.raw == before.raw,
        after.name == before.name,
        after.colors == before.colors,
        after.owner == before.owner,
{
}

/// Changing a card to its raw card gives it back the raw card's power,
/// health, cost, color cost, description and tags, no comments and an
/// untapped state; its raw card, name, colors, owner and visibility stay.
pub proof fn lemma_changed_to_raw(change: CardChange, before: Card, after: Card)
    requires
        is_raw_change(change, before.raw),
        card_changed(change, before, after),
    ensures
        after.power == before.raw.power,
        after.health == before.raw.health,
        after.cost == before.raw.cost,
        after.color_cost@ == before.raw.color_cost@,
        after.description == before.raw.description,
        after.tags@ == before.raw.tags@,
        after.comments@.len() == 0,
        !after.tapped,
        after.raw == before.raw,
        after.name == before.name,
        after.colors == before.colors,
        after.owner == before.owner,
        after.visibility == before.visibility,
{
}

/// A card returned to its raw card has the raw card's power, health, cost,
/// color cost, description and tags, no comments and is untapped; its raw
/// card, name, colors, owner and visibility stay.
pub proof fn lemma_restored_values(before: Card, after: Card)
    requires
        restored_to_raw(before, after),
    ensures
        after.power == before.raw.power,
        after.health == before.raw.health,
        after.cost == before.raw.cost,
        after.color_cost@ == before.raw.color_cost@,
        after.description == before.raw.description,
        after.tags@ == before.raw.tags@,
        after.comments@.len() == 0,
        !after.tapped,
        after.raw == before.raw,
        after.name == before.name,
        after.colors == before.colors,
        after.owner == before.owner,
        after.visibility == before.visibility,
{
}

/// Applying a change a second time changes nothing more.
pub proof fn lemma_change_idempotent(change: CardChange, c0: Card, c1: Card, c2: Card)
    requires
        card_changed(change, c0, c1),
        card_changed(change, c1, c2),
    ensures
        c2.same_as(c1),
        c2.raw == c1.raw,
{
}

/// How a player sees a pile: all its cards, each as the player sees it.
#[derive(Debug)]
pub struct PileView {
    pub cards: Vec<CardView>,
    pub ordered: bool,
    pub only_raw_cards: bool,
    pub default_visibility: Visibility,
}

/// Whether `view` is how `viewer` sees `pile`.
pub open spec fn pile_shown(view: PileView, pile: Pile, viewer: Player) -> bool {
    &&& view.ordered == !pile.config.shuffled
    &&& view.only_raw_cards == pile.config.only_raw_cards
    &&& view.default_visibility == pile.config.default_visibility
    &&& view.cards@.len() == pile@.len()
    &&& forall|i: int| 0 <= i < pile@.len() ==> card_shown(#[trigger] view.cards@[i], pile@[i], viewer)
}

/// A seat sees a pile that is not shuffled in order, and a shuffled one
/// out of order; it sees how the pile is set up and every card of it, in
/// the pile's order, each as the seat may see that card.
pub proof fn lemma_what_a_seat_sees_of_a_pile(view: PileView, pile: Pile, viewer: Player)
    requires
        pile_shown(view, pile, viewer),
    ensures
        pile.config.shuffled ==> !view.ordered,
        !pile.config.shuffled ==> view.ordered,
        view.only_raw_cards == pile.config.only_raw_cards,
        view.default_visibility == pile.config.default_visibility,
        view.cards@.len() == pile@.len(),
        forall|i: int| 0 <= i < pile@.len() ==> (#[trigger] view.cards@[i]).tapped == pile@[i].tapped
            && view.cards@[i].owner == pile@[i].owner
            && (view.cards@[i].visible_to_me <==> may_view(pile@[i].owner, pile@[i].visibility, viewer)),
{
    assert forall|i: int| 0 <= i < pile@.len() implies (#[trigger] view.cards@[i]).tapped == pile@[i].tapped
        && view.cards@[i].owner == pile@[i].owner
        && (view.cards@[i].visible_to_me <==> may_view(pile@[i].owner, pile@[i].visibility, viewer)) by {
        assert(card_shown(view.cards@[i], pile@[i], viewer));
    }
}

impl PileView {
    /// How `viewer` sees `pile`; a pile that is not shuffled is ordered.
    pub fn from_pile(pile: &Pile, viewer: &Player) -> (r: PileView)
        ensures
            pile_shown(r, *pile, *viewer),
    {
        let cards = pile.cards_ref();
        let mut views: Vec<CardView> = Vec::new();
        for i in 0..cards.len()
            invariant
                cards@ == pile@,
                views@.len() == i,
                forall|j: int| 0 <= j < i ==> card_shown(#[trigger] views@[j], pile@[j], *viewer),
        {
            views.push(CardView::from_card(&cards[i], viewer));
        }
        PileView {
            ordered: !pile.config.shuffled,
            only_raw_cards: pile.config.only_raw_cards,
            default_visibility: pile.config.default_visibility,
            cards: views,
        }
    }
}

/// How a player sees a chip: its raw chip and health only where the player
/// may look at it; its owner and place always.
#[derive(Debug)]
pub struct ChipView {
    pub raw: Option<RawChip>,
    pub health: Option<i32>,
    pub owner: Player,
    pub coordinates: Coordinates,
}

/// Whether `view` is how `viewer` sees `chip`.
pub open spec fn chip_shown(view: ChipView, chip: Chip, viewer: Player) -> bool {
    let visible = may_view(chip.owner, chip.visibility, viewer);
    &&& view.owner == chip.owner
    &&& view.coordinates == chip.coordinates
    &&& visible ==> (view.raw matches Some(r) && r.same_as(chip.raw)) && view.health == Some(chip.health)
    &&& !visible ==> view.raw is None && view.health is None
}

/// What a seat sees of a chip: everyone sees its owner and where it stands;
/// the administrator, everyone for a public chip, and the owner for a
/// private chip also see its raw chip and health; anyone else sees neither.
pub proof fn lemma_what_a_seat_sees_of_a_chip(view: ChipView, chip: Chip, viewer: Player)
    requires
        chip_shown(view, chip, viewer),
    ensures
        view.owner == chip.owner,
        view.coordinates == chip.coordinates,
        viewer == Player(0) || chip.visibility == Visibility::Public
            || (viewer == chip.owner && chip.visibility == Visibility::Private)
            ==> view.health == Some(chip.health) && view.raw is Some,
        viewer != Player(0) && (chip.visibility == Visibility::Secret
            || (chip.visibility == Visibility::Private && viewer != chip.owner))
            ==> view.health is None && view.raw is None,
{
}

impl ChipView {
    /// How `viewer` sees `chip`.
    pub fn from_chip(chip: &Chip, viewer: &Player) -> (r: ChipView)
        ensures
            chip_shown(r, *chip, *viewer),
    {
        if chip.can_be_viewed_by(viewer) {
            ChipView {
                raw: Some(chip.raw.clone()),
                health: Some(chip.health),
                owner: chip.owner,
                coordinates: chip.coordinates,
            }
        } else {
            ChipView { raw: None, health: None, owner: chip.owner, coordinates: chip.coordinates }
        }
    }
}

/// How a player sees a board: its description, its current picture and
/// its chips, each as the player sees it.
#[derive(Debug)]
pub struct BoardView {
    pub raw: RawBoard,
    pub img_url: String,
    pub chips: Vec<ChipView>,
}

/// Whether `view` is how `viewer` sees `board`.
pub open spec fn board_shown(view: BoardView, board: Board, viewer: Player) -> bool {
    &&& view.raw == board.raw
    &&& view.img_url == board.img_url
    &&& view.chips@.len() == board.chips@.len()
    &&& forall|i: int| 0 <= i < board.chips@.len() ==> chip_shown(#[trigger] view.chips@[i], board.chips@[i], viewer)
}

/// A seat sees a board's description and current picture, and every chip
/// on it, in order, each as the seat may see that chip.
pub proof fn lemma_what_a_seat_sees_of_a_board(view: BoardView, board: Board, viewer: Player)
    requires
        board_shown(view, board, viewer),
    ensures
        view.raw == board.raw,
        view.img_url == board.img_url,
        view.chips@.len() == board.chips@.len(),
        forall|i: int| 0 <= i < board.chips@.len() ==> (#[trigger] view.chips@[i]).owner == board.chips@[i].owner
            && view.chips@[i].coordinates == board.chips@[i].coordinates,
{
    assert forall|i: int| 0 <= i < board.chips@.len() implies (#[trigger] view.chips@[i]).owner == board.chips@[i].owner
        && view.chips@[i].coordinates == board.chips@[i].coordinates by {
        assert(chip_shown(view.chips@[i], board.chips@[i], viewer));
    }
}

impl BoardView {
    /// How `viewer` sees `board`.
    pub fn from_board(board: &Board, viewer: &Player) -> (r: BoardView)
        ensures
            board_shown(r, *board, *viewer),
    {
        let mut views: Vec<ChipView> = Vec::new();
        for i in 0..board.chips.len()
            invariant
                views@.len() == i,
                forall|j: int| 0 <= j < i ==> chip_shown(#[trigger] views@[j], board.chips@[j], *viewer),
        {
            views.push(ChipView::from_chip(&board.chips[i], viewer));
        }
        BoardView { raw: board.raw.clone(), img_url: board.img_url.clone(), chips: views }
    }
}

} // verus!
