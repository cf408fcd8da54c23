use vstd::prelude::*;
use crate::player::Player;
use crate::visibility::Visibility;
use crate::viewable::Viewable;

verus! {

/// Copies a list of strings.
pub fn clone_strings(v: &Vec<String>) -> (r: Vec<String>)
    ensures
        r@ == v@,
{
    let mut r: Vec<String> = Vec::new();
    for i in 0..v.len()
        invariant
            r@ == v@.take(i as int),
    {
        r.push(v[i].clone());
        assert(r@ == v@.take(i + 1));
    }
    assert(v@.take(v.len() as int) == v@);
    r
}

/// A card as the library describes it, before anything in a game changed it.
#[derive(Debug)]
pub struct RawCard {
    pub card_type: String,
    pub name: String,
    pub cost: i32,
    pub color_cost: Vec<String>,
    pub power: i32,
    pub health: i32,
    pub description: String,
    pub tags: Vec<String>,
    pub colors: Vec<String>,
    pub rarity: String,
    pub art_url: String,
    pub card_picture_url: String,
    pub nature: String,
    pub back_side_url: String,
    pub set: String,
    pub set_index: String,
    pub language: String,
}

impl RawCard {
    /// Whether two raw cards hold the same values, field by field.
    pub open spec fn same_as(self, other: RawCard) -> bool {
        &&& self.card_type == other.card_type
        &&& self.name == other.name
        &&& self.cost == other.cost
        &&& self.color_cost@ == other.color_cost@
        &&& self.power == other.power
        &&& self.health == other.health
        &&& self.description == other.description
        &&& self.tags@ == other.tags@
        &&& self.colors@ == other.colors@
        &&& self.rarity == other.rarity
        &&& self.art_url == other.art_url
        &&& self.card_picture_url == other.card_picture_url
        &&& self.nature == other.nature
        &&& self.back_side_url == other.back_side_url
        &&& self.set == other.set
        &&& self.set_index == other.set_index
        &&& self.language == other.language
    }
}

/// Two raw cards that are the same agree on every printed value.
pub proof fn lemma_same_raw_cards_agree(a: RawCard, b: RawCard)
    requires
        a.same_as(b),
    ensures
        a.card_type == b.card_type && a.name == b.name && a.cost == b.cost && a.power == b.power,
        a.health == b.health && a.description == b.description && a.rarity == b.rarity,
        a.color_cost@ == b.color_cost@ && a.tags@ == b.tags@ && a.colors@ == b.colors@,
        a.art_url == b.art_url && a.card_picture_url == b.card_picture_url && a.nature == b.nature,
        a.back_side_url == b.back_side_url && a.set == b.set && a.set_index == b.set_index && a.language == b.language,
{
}

impl Clone for RawCard {
    fn clone(&self) -> (r: Self)
        ensures
            r.same_as(*self),
    {
        RawCard {
            card_type: self.card_type.clone(),
            name: self.name.clone(),
            cost: self.cost,
            color_cost: clone_strings(&self.color_cost),
            power: self.power,
            health: self.health,
            description: self.description.clone(),
            tags: clone_strings(&self.tags),
            colors: clone_strings(&self.colors),
            rarity: self.rarity.clone(),
            art_url: self.art_url.clone(),
            card_picture_url: self.card_picture_url.clone(),
            nature: self.nature.clone(),
            back_side_url: self.back_side_url.clone(),
            set: self.set.clone(),
            set_index: self.set_index.clone(),
            language: self.language.clone(),
        }
    }
}

/// The language a card is printed in when the library does not say.
pub fn default_language() -> (r: String)
    ensures
        r@ == "EN"@,
{
    String::from_str("EN")
}

/// A card on the table: the raw card it was made from and its current,
/// changeable state.
#[derive(Debug)]
pub struct Card {
    pub raw: RawCard,
    pub name: String,
    pub power: i32,
    pub health: i32,
    pub cost: i32,
    pub color_cost: Vec<String>,
    pub description: String,
    pub tags: Vec<String>,
    pub colors: Vec<String>,
    pub visibility: Visibility,
    pub owner: Player,
    pub comments: String,
    pub tapped: bool,
}

impl Card {
    /// Whether two cards hold the same values, field by field.
    pub open spec fn same_as(self, other: Card) -> bool {
        &&& self.raw.same_as(other.raw)
        &&& self.name == other.name
        &&& self.power == other.power
        &&& self.health == other.health
        &&& self.cost == other.cost
        &&& self.color_cost@ == other.color_cost@
        &&& self.description == other.description
        &&& self.tags@ == other.tags@
        &&& self.colors@ == other.colors@
        &&& self.visibility == other.visibility
        &&& self.owner == other.owner
        &&& self.comments == other.comments
        &&& self.tapped == other.tapped
    }
}

/// Two cards that are the same agree on their raw card and on every value
/// of their own.
pub proof fn lemma_same_cards_agree(a: Card, b: Card)
    requires
        a.same_as(b),
    ensures
        a.raw.same_as(b.raw) && a.name == b.name && a.power == b.power && a.health == b.health,
        a.cost == b.cost && a.color_cost@ == b.color_cost@ && a.description == b.description,
        a.tags@ == b.tags@ && a.colors@ == b.colors@ && a.visibility == b.visibility,
        a.owner == b.owner && a.comments == b.comments && a.tapped == b.tapped,
{
}

impl Clone for Card {
    fn clone(&self) -> (r: Self)
        ensures
            r.same_as(*self),
    {
        Card {
            raw: self.raw.clone(),
            name: self.name.clone(),
            power: self.power,
            health: self.health,
            cost: self.cost,
            color_cost: clone_strings(&self.color_cost),
            description: self.description.clone(),
            tags: clone_strings(&self.tags),
            colors: clone_strings(&self.colors),
            visibility: self.visibility,
            owner: self.owner,
            comments: self.comments.clone(),
            tapped: self.tapped,
        }
    }
}

/// Whether `card` is `raw` just put on the table for `owner`: its state is
/// the printed one, without comments, untapped.
pub open spec fn fresh_from_raw(card: Card, raw: RawCard, owner: Player, visibility: Visibility) -> bool {
    &&& card.raw.same_as(raw)
    &&& card.name == raw.name
    &&& card.power == raw.power
    &&& card.health == raw.health
    &&& card.cost == raw.cost
    &&& card.color_cost@ == raw.color_cost@
    &&& card.description == raw.description
    &&& card.tags@ == raw.tags@
    &&& card.colors@ == raw.colors@
    &&& card.visibility == visibility
    &&& card.owner == owner
    &&& card.comments@ == Seq::<char>::empty()
    &&& !card.tapped
}

/// A card put on the table from a raw card shows the raw card's name,
/// power, health, cost, color cost, description, tags and colors, belongs
/// to the given owner with the given visibility, has no comments and is not
/// tapped.
pub proof fn lemma_fresh_card_values(card: Card, raw: RawCard, owner: Player, visibility: Visibility)
    requires
        fresh_from_raw(card, raw, owner, visibility),
    ensures
        card.raw.same_as(raw),
        card.name == raw.name,
        card.power == raw.power,
        card.health == raw.health,
        card.cost == raw.cost,
        card.color_cost@ == raw.color_cost@,
        card.description == raw.description,
        card.tags@ == raw.tags@,
        card.colors@ == raw.colors@,
        card.owner == owner,
        card.visibility == visibility,
        card.comments@.len() == 0,
        !card.tapped,
{
}

impl Card {
    /// Puts the raw card on the table for `owner`, with the given visibility.
    pub fn from_raw(raw_card: &RawCard, owner: Player, visibility: Visibility) -> (r: Card)
        ensures
            fresh_from_raw(r, *raw_card, owner, visibility),
    {
        Card {
            raw: raw_card.clone(),
            name: raw_card.name.clone(),
            power: raw_card.power,
            health: raw_card.health,
            cost: raw_card.cost,
            color_cost: clone_strings(&raw_card.color_cost),
            description: raw_card.description.clone(),
            tags: clone_strings(&raw_card.tags),
            colors: clone_strings(&raw_card.colors),
            owner: owner,
            visibility: visibility,
            comments: String::new(),
            tapped: false,
        }
    }
}

impl Viewable for Card {
    open spec fn owner_spec(&self) -> Player {
        self.owner
    }

    open spec fn visibility_spec(&self) -> Visibility {
        self.visibility
    }

    fn owner(&self) -> (p: Player) {
        self.owner
    }

    fn visibility(&self) -> (v: Visibility) {
        self.visibility
    }
}

} // verus!
