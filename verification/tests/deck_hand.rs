use otcg::card::{Card, RawCard};
use otcg::deck::Deck;
use otcg::hand::Hand;
use otcg::pile::{Pile, PileConfig};
use otcg::player::Player;
use otcg::rules::Rules;
use otcg::visibility::Visibility;

fn card(name: &str) -> Card {
    let raw = RawCard {
        card_type: String::new(), name: name.to_string(), cost: 0, color_cost: vec![], power: 0, health: 0,
        description: String::new(), tags: vec![], colors: vec![], rarity: String::new(), art_url: String::new(),
        card_picture_url: String::new(), nature: String::new(), back_side_url: String::new(), set: String::new(),
        set_index: String::new(), language: String::new(),
    };
    Card::from_raw(&raw, Player(1), Visibility::Secret)
}

fn names(cards: &[Card]) -> Vec<String> {
    cards.iter().map(|c| c.name.clone()).collect()
}

#[test]
fn deck_draws_from_the_top() {
    let mut deck = Deck::from_cards(vec![card("a"), card("b")], false, Player(1), Visibility::Secret, true);
    assert_eq!(deck.size(), 2);
    assert_eq!(deck.top_card().unwrap().name, "a");
    deck.put_top(card("z"));
    assert_eq!(names(&deck.cards()), vec!["z", "a", "b"]);
    assert_eq!(deck.take_top().unwrap().name, "z");
    let mut discard = Pile::new_empty(PileConfig {
        only_raw_cards: false,
        default_visibility: Visibility::Public,
        owner: Player(1),
        shuffled: false,
    });
    deck.take_top_to(&mut discard);
    deck.take_top_to(&mut discard);
    deck.take_top_to(&mut discard);
    assert!(deck.is_empty());
    assert!(deck.take_top().is_none());
    assert_eq!(names(&discard.cards), vec!["b", "a"]);
    let empty = Deck::new_empty(Player(2), Visibility::Public, false);
    assert!(empty.is_empty() && empty.owner == Player(2));
}

#[test]
fn hand_pulls_cards_out() {
    let rules = Rules::new("riftbound");
    let mut hand = Hand::from_cards(vec![card("a"), card("b"), card("c")], Player(1), &rules);
    assert!(hand.pile.config.shuffled);
    assert_eq!(hand.pile.config.default_visibility, Visibility::Private);
    let mut sorted = names(&hand.cards());
    sorted.sort();
    assert_eq!(sorted, vec!["a", "b", "c"]);
    let watcher_hand = Hand::from_cards(vec![card("a"), card("b")], Player(-1), &rules);
    assert!(!watcher_hand.pile.config.shuffled);
    assert_eq!(names(&watcher_hand.cards()), vec!["a", "b"]);

    let mut hand2 = Hand::new_empty(Player(2));
    hand2.add_card(card("x"));
    hand2.add_card(card("y"));
    assert_eq!(names(&hand2.cards()), vec!["y", "x"]);
    assert!(hand2.pull_out_at(5).is_none());
    let mut table = Pile::new_empty(PileConfig {
        only_raw_cards: false,
        default_visibility: Visibility::Public,
        owner: Player(0),
        shuffled: false,
    });
    hand2.pull_out_to(1, &mut table);
    assert_eq!(names(&table.cards), vec!["x"]);
    assert_eq!(hand2.size(), 1);
    assert_eq!(hand.pull_out_at(0).is_some(), true);
    assert_eq!(hand.size(), 2);
    assert!(!hand.is_empty());
}

#[test]
fn change_applied_twice_is_applied_once() {
    let change = otcg::view::CardChange {
        power: Some(1),
        health: None,
        cost: Some(2),
        color_cost: Some(vec!["B".to_string()]),
        description: None,
        tags: Some(vec![]),
        visibility: Some(Visibility::Public),
        comments: Some("c".to_string()),
        tapped: Some(false),
    };
    let mut c = card("k");
    change.apply_to(&mut c);
    let once = (c.power, c.cost, c.color_cost.clone(), c.tags.clone(), c.visibility, c.comments.clone(), c.tapped);
    change.apply_to(&mut c);
    let twice = (c.power, c.cost, c.color_cost.clone(), c.tags.clone(), c.visibility, c.comments.clone(), c.tapped);
    assert_eq!(once, twice);
    assert_eq!(c.health, 0);
}
