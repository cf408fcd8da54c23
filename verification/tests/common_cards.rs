use otcg::card::{default_language, Card, RawCard};
use otcg::pile::{Pile, PileConfig};
use otcg::player::Player;
use otcg::pointer::position;
use otcg::visibility::Visibility;

fn raw(name: &str) -> RawCard {
    RawCard {
        card_type: "unit".to_string(),
        name: name.to_string(),
        cost: 3,
        color_cost: vec!["R".to_string()],
        power: 2,
        health: 5,
        description: "a card".to_string(),
        tags: vec!["tag".to_string()],
        colors: vec!["R".to_string(), "G".to_string()],
        rarity: "common".to_string(),
        art_url: "art".to_string(),
        card_picture_url: "pic".to_string(),
        nature: "main".to_string(),
        back_side_url: "back".to_string(),
        set: "s1".to_string(),
        set_index: "001".to_string(),
        language: default_language(),
    }
}

fn config(shuffled: bool) -> PileConfig {
    PileConfig { only_raw_cards: false, default_visibility: Visibility::Public, owner: Player(1), shuffled }
}

fn names(p: &Pile) -> Vec<String> {
    p.cards.iter().map(|c| c.name.clone()).collect()
}

#[test]
fn position_counts_from_both_ends() {
    assert_eq!(position(0, 3), 0);
    assert_eq!(position(2, 3), 2);
    assert_eq!(position(3, 3), 3);
    assert_eq!(position(-1, 3), 3);
    assert_eq!(position(-2, 3), 2);
    assert_eq!(position(-4, 3), 0);
    assert_eq!(position(4, 3), 0);
    assert_eq!(position(-5, 3), 3);
    assert_eq!(position(-1, 0), 0);
    assert_eq!(position(i32::MIN, 0), 0);
    assert_eq!(position(i32::MIN, 2), 1);
    assert_eq!(position(i32::MAX, usize::MAX), i32::MAX as usize);
    assert_eq!(position(-1, usize::MAX), usize::MAX);
}

#[test]
fn default_language_is_english() {
    assert_eq!(default_language(), "EN");
}

#[test]
fn card_from_raw_is_fresh() {
    let r = raw("Bolt");
    let c = Card::from_raw(&r, Player(2), Visibility::Secret);
    assert_eq!(c.name, "Bolt");
    assert_eq!(c.power, 2);
    assert_eq!(c.health, 5);
    assert_eq!(c.cost, 3);
    assert_eq!(c.tags, vec!["tag".to_string()]);
    assert_eq!(c.comments, "");
    assert!(!c.tapped);
    assert_eq!(c.owner, Player(2));
    assert_eq!(c.visibility, Visibility::Secret);
    assert_eq!(c.raw.language, "EN");
}

#[test]
fn pile_insert_take_round_trip() {
    let mut p = Pile::from_raw_cards(config(false), vec![raw("a"), raw("b"), raw("c")]);
    assert_eq!(names(&p), vec!["a", "b", "c"]);
    p.insert_at(1, Card::from_raw(&raw("x"), Player(1), Visibility::Public));
    assert_eq!(names(&p), vec!["a", "x", "b", "c"]);
    let back = p.take_at(1).unwrap();
    assert_eq!(back.name, "x");
    assert_eq!(names(&p), vec!["a", "b", "c"]);
    // from the bottom: -1 is the free space, so the card lands last and -2 finds it
    p.insert_at(-1, Card::from_raw(&raw("y"), Player(1), Visibility::Public));
    assert_eq!(names(&p), vec!["a", "b", "c", "y"]);
    assert_eq!(p.take_at(-2).unwrap().name, "y");
    assert_eq!(names(&p), vec!["a", "b", "c"]);
}

#[test]
fn pile_take_at_free_space_is_none() {
    let mut p = Pile::from_raw_cards(config(false), vec![raw("a")]);
    assert!(p.take_at(-1).is_none());
    assert!(p.card_at(1).is_none());
    assert_eq!(p.card_at(-2).unwrap().name, "a");
    assert_eq!(p.size(), 1);
}

#[test]
fn unshuffled_pile_keeps_order() {
    let cards: Vec<Card> = (0..5).map(|i| Card::from_raw(&raw(&format!("c{i}")), Player(1), Visibility::Public)).collect();
    let p = Pile::new(config(false), cards);
    assert_eq!(names(&p), vec!["c0", "c1", "c2", "c3", "c4"]);
}

#[test]
fn shuffled_pile_keeps_cards_and_changes_order() {
    let n = 60;
    let cards: Vec<Card> = (0..n).map(|i| Card::from_raw(&raw(&format!("c{i:02}")), Player(1), Visibility::Public)).collect();
    let p = Pile::new(config(true), cards);
    let got = names(&p);
    let mut sorted = got.clone();
    sorted.sort();
    let expected: Vec<String> = (0..n).map(|i| format!("c{i:02}")).collect();
    assert_eq!(sorted, expected);
    assert_ne!(got, expected);
}
