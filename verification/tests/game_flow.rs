use otcg::background::{PlayerBackground, PlayerBackgroundNames};
use otcg::card::RawCard;
use otcg::chip::{ChipChange, Coordinates, RawChip};
use otcg::game::Game;
use otcg::library::{Entry, Error, Library};
use otcg::names::NameMap;
use otcg::player::Player;
use otcg::pointer::{BoardPointer, CardPointer, ChipPointer, PilePointer, PileType};
use otcg::rules::Rules;
use otcg::server::{seat_players, Action, Client, PlayerMessage, Reply};
use otcg::view::CardChange;
use otcg::visibility::Visibility;

fn raw(name: &str, power: i32) -> RawCard {
    RawCard {
        card_type: "unit".to_string(),
        name: name.to_string(),
        cost: 1,
        color_cost: vec![],
        power,
        health: 3,
        description: String::new(),
        tags: vec![],
        colors: vec![],
        rarity: String::new(),
        art_url: String::new(),
        card_picture_url: String::new(),
        nature: "main".to_string(),
        back_side_url: "back".to_string(),
        set: String::new(),
        set_index: String::new(),
        language: "EN".to_string(),
    }
}

fn library() -> Library {
    let mut lib = Library::empty();
    for (n, p) in [("Bolt", 1), ("Wall", 0), ("Ogre", 4)] {
        lib.add_card(n.to_string(), Entry { json: format!("{{\"name\":\"{n}\"}}"), read: Ok(raw(n, p)) });
    }
    lib.add_card("Broken".to_string(), Entry { json: "{}".to_string(), read: Err("missing field `type`".to_string()) });
    lib.add_chip(
        "Hero".to_string(),
        Entry {
            json: "{}".to_string(),
            read: Ok(RawChip { name: "Hero".to_string(), art_url: String::new(), health: 15, colors: vec![] }),
        },
    );
    lib
}

fn background(player: i32, lib: &Library, hand: &[&str]) -> PlayerBackground {
    let mut names = NameMap::new();
    names.insert("hand".to_string(), hand.iter().map(|s| s.to_string()).collect());
    names.insert("main_deck".to_string(), vec!["Ogre".to_string()]);
    let names = PlayerBackgroundNames { piles: names };
    assert!(PlayerBackground::loadable_from(lib, &names));
    PlayerBackground::load_from_library(lib, names, Player(player))
}

fn game(rules: &str) -> Game {
    let lib = library();
    let a = background(1, &lib, &["Bolt", "Wall"]);
    let b = background(2, &lib, &["Ogre"]);
    Game::new(vec![a, b], Rules::new(rules), lib)
}

fn named(player: i32, name: &str) -> PilePointer {
    PilePointer { player, pile_type: PileType::Name(name.to_string()) }
}

fn at(player: i32, name: &str, index: i32) -> CardPointer {
    CardPointer { pile: named(player, name), index }
}

fn pile_names(g: &Game, p: &PilePointer) -> Vec<String> {
    g.pile(p).unwrap().cards.iter().map(|c| c.name.clone()).collect()
}

#[test]
fn new_game_deals_the_backgrounds() {
    let g = game("riftbound");
    assert_eq!(g.players_count, 2);
    assert_eq!(g.active_player, Player(1));
    assert_eq!(g.battlefields.len(), 2);
    assert_eq!(g.battlefields[0].sides.len(), 3);
    assert_eq!(pile_names(&g, &named(1, "hand")), vec!["Bolt", "Wall"]);
    assert_eq!(pile_names(&g, &named(2, "hand")), vec!["Ogre"]);
    assert_eq!(pile_names(&g, &named(1, "base")), Vec::<String>::new());
    assert!(g.pile(&named(0, "spell_queue")).is_some());
    assert!(g.pile(&named(1, "additional_deck")).is_none());
    assert!(g.pile(&named(3, "hand")).is_none());
    let hand = g.pile(&named(1, "hand")).unwrap();
    assert_eq!(hand.config.default_visibility, Visibility::Private);
    assert_eq!(hand.cards[0].owner, Player(1));
    assert_eq!(hand.cards[0].visibility, Visibility::Private);
    assert!(g.board(&BoardPointer::Name("board".to_string())).is_none());
}

#[test]
fn unmatched_game_has_a_board() {
    let g = game("unmatched");
    let b = g.board(&BoardPointer::Name("board".to_string())).unwrap();
    assert_eq!(b.raw.height, 100);
    assert_eq!(b.raw.width, 100);
    assert_eq!(b.chips_size(), 0);
    assert!(g.pile(&named(0, "spell_queue")).is_none());
    assert!(g.pile(&named(1, "additional_deck")).is_some());
}

#[test]
fn move_card_between_own_piles() {
    let mut g = game("riftbound");
    let me = Client { player: Player(1) };
    let reply = me.handle_message(&mut g, PlayerMessage::MoveCard { source: at(1, "hand", 0), destination: at(1, "base", 0) });
    assert!(matches!(reply, Reply::CardMoved { .. }));
    assert_eq!(pile_names(&g, &named(1, "hand")), vec!["Wall"]);
    assert_eq!(pile_names(&g, &named(1, "base")), vec!["Bolt"]);
}

#[test]
fn move_card_within_one_pile() {
    let mut g = game("riftbound");
    let me = Client { player: Player(1) };
    let reply = me.handle_message(&mut g, PlayerMessage::MoveCard { source: at(1, "hand", 0), destination: at(1, "hand", -1) });
    assert!(matches!(reply, Reply::CardMoved { .. }));
    assert_eq!(pile_names(&g, &named(1, "hand")), vec!["Wall", "Bolt"]);
}

#[test]
fn move_card_to_battlefield_side() {
    let mut g = game("riftbound");
    let me = Client { player: Player(2) };
    let dest = CardPointer { pile: PilePointer { player: 2, pile_type: PileType::Battlefield(1) }, index: 0 };
    let reply = me.handle_message(&mut g, PlayerMessage::MoveCard { source: at(2, "hand", 0), destination: dest });
    assert!(matches!(reply, Reply::CardMoved { .. }));
    assert_eq!(g.battlefields[1].sides[2].cards[0].name, "Ogre");
    assert_eq!(pile_names(&g, &named(2, "hand")), Vec::<String>::new());
}

#[test]
fn others_and_watchers_cannot_move_my_cards() {
    let mut g = game("riftbound");
    for who in [Player(2), Player(-1)] {
        let reply = Client { player: who }
            .handle_message(&mut g, PlayerMessage::MoveCard { source: at(1, "hand", 0), destination: at(2, "hand", 0) });
        assert!(matches!(reply, Reply::Nothing));
    }
    assert_eq!(pile_names(&g, &named(1, "hand")), vec!["Bolt", "Wall"]);
    let admin = Client { player: Player(0) };
    let reply = admin.handle_message(&mut g, PlayerMessage::MoveCard { source: at(1, "hand", 0), destination: at(2, "hand", 0) });
    assert!(matches!(reply, Reply::CardMoved { .. }));
    assert_eq!(pile_names(&g, &named(2, "hand")), vec!["Bolt", "Ogre"]);
}

#[test]
fn moving_to_a_missing_pile_changes_nothing() {
    let mut g = game("riftbound");
    let me = Client { player: Player(1) };
    let reply = me.handle_message(&mut g, PlayerMessage::MoveCard { source: at(1, "hand", 0), destination: at(1, "nowhere", 0) });
    assert!(matches!(reply, Reply::Nothing));
    assert_eq!(pile_names(&g, &named(1, "hand")), vec!["Bolt", "Wall"]);
}

#[test]
fn create_and_change_card() {
    let mut g = game("riftbound");
    let me = Client { player: Player(1) };
    let reply = me.handle_message(&mut g, PlayerMessage::CreateCard { destination: at(0, "spell_queue", 0), name: "Ogre".to_string() });
    match &reply {
        Reply::CardCreated { card, .. } => assert_eq!(card.name, "Ogre"),
        _ => panic!("no card created"),
    }
    // what player 2 sees of it: public, so everything
    match reply.action_for(&Player(2)) {
        Some(Action::CardCreated { card, .. }) => {
            assert!(card.visible_to_me);
            assert_eq!(card.power, Some(4));
        },
        _ => panic!("wrong action"),
    }
    let changes = CardChange {
        power: Some(9),
        health: None,
        cost: None,
        color_cost: None,
        description: Some("angry".to_string()),
        tags: None,
        visibility: Some(Visibility::Private),
        comments: Some("note".to_string()),
        tapped: Some(true),
    };
    let reply = me.handle_message(&mut g, PlayerMessage::ChangeCard { target: at(0, "spell_queue", 0), changes });
    assert!(matches!(reply, Reply::CardChanged { .. }));
    let c = g.card(&at(0, "spell_queue", 0)).unwrap();
    assert_eq!(c.power, 9);
    assert_eq!(c.health, 3);
    assert!(c.tapped);
    match reply.action_for(&Player(2)) {
        Some(Action::CardChanged { new_card, .. }) => {
            assert!(!new_card.visible_to_me);
            assert_eq!(new_card.power, None);
            assert!(new_card.tapped);
            assert_eq!(new_card.comments, "note");
        },
        _ => panic!("wrong action"),
    }
    let reply = me.handle_message(&mut g, PlayerMessage::ChangeCardToRaw { target: at(0, "spell_queue", 0) });
    assert!(matches!(reply, Reply::CardChanged { .. }));
    let c = g.card(&at(0, "spell_queue", 0)).unwrap();
    assert_eq!(c.power, 4);
    assert_eq!(c.description, "");
    assert!(!c.tapped);
    assert_eq!(c.comments, "");
    assert_eq!(c.visibility, Visibility::Private);
}

#[test]
fn create_card_unknown_or_broken_does_nothing() {
    let mut g = game("riftbound");
    let me = Client { player: Player(1) };
    for name in ["Nope", "Broken"] {
        let reply = me.handle_message(&mut g, PlayerMessage::CreateCard { destination: at(1, "base", 0), name: name.to_string() });
        assert!(matches!(reply, Reply::Nothing));
    }
    assert_eq!(g.pile(&named(1, "base")).unwrap().size(), 0);
}

#[test]
fn library_errors() {
    let lib = library();
    match lib.get_raw_card_by_name("Nope") {
        Err(Error::DontExist(n)) => assert_eq!(n, "Nope"),
        _ => panic!(),
    }
    match lib.get_raw_card_by_name("Broken") {
        Err(Error::WrongValue(json, message)) => {
            assert_eq!(json, "{}");
            assert_eq!(message, "missing field `type`");
        },
        _ => panic!(),
    }
    assert_eq!(lib.get_raw_card_by_name("Bolt").unwrap().power, 1);
    assert_eq!(lib.get_raw_chip_by_name("Hero").unwrap().health, 15);
    assert!(matches!(lib.get_raw_chip_by_name("Bolt"), Err(Error::DontExist(_))));
}

#[test]
fn library_append_overrides() {
    let mut lib = library();
    let mut other = Library::empty();
    other.add_card("Bolt".to_string(), Entry { json: "{}".to_string(), read: Ok(raw("Bolt", 7)) });
    other.add_card("New".to_string(), Entry { json: "{}".to_string(), read: Ok(raw("New", 2)) });
    lib.append(other);
    assert_eq!(lib.get_raw_card_by_name("Bolt").unwrap().power, 7);
    assert_eq!(lib.get_raw_card_by_name("New").unwrap().power, 2);
    assert_eq!(lib.get_raw_card_by_name("Wall").unwrap().power, 0);
    let json = lib.cards_json();
    assert_eq!(json.len(), 5);
    assert_eq!(json[0].0, "Bolt");
}

#[test]
fn background_with_unknown_card_is_not_loadable() {
    let lib = library();
    let mut names = NameMap::new();
    names.insert("hand".to_string(), vec!["Bolt".to_string(), "Ghost".to_string()]);
    assert!(!PlayerBackground::loadable_from(&lib, &PlayerBackgroundNames { piles: names }));
    let mut names = NameMap::new();
    names.insert("hand".to_string(), vec!["Broken".to_string()]);
    assert!(!PlayerBackground::loadable_from(&lib, &PlayerBackgroundNames { piles: names }));
    let mut names = NameMap::new();
    names.insert("hand".to_string(), vec!["Bolt".to_string(), "Wall".to_string()]);
    names.insert("main_deck".to_string(), vec![]);
    let names = PlayerBackgroundNames { piles: names };
    assert!(PlayerBackground::loadable_from(&lib, &names));
    let bg = PlayerBackground::load_from_library(&lib, names, Player(1));
    assert_eq!(bg.player, Player(1));
    let hand = bg.cards_pile("hand");
    assert_eq!(hand.len(), 2);
    assert_eq!(hand[0].name, "Bolt");
    assert_eq!(hand[1].name, "Wall");
    assert!(bg.cards_pile("main_deck").is_empty());
}

#[test]
fn turns_pass_around_the_table() {
    let mut g = game("riftbound");
    let a = Client { player: Player(1) };
    let b = Client { player: Player(2) };
    assert!(matches!(b.handle_message(&mut g, PlayerMessage::TurnEnd), Reply::Nothing));
    assert_eq!(g.active_player, Player(1));
    assert!(matches!(a.handle_message(&mut g, PlayerMessage::TurnEnd), Reply::NextTurn(Player(2))));
    assert!(matches!(b.handle_message(&mut g, PlayerMessage::TurnEnd), Reply::NextTurn(Player(1))));
    g.active_player = Player(-3);
    g.next_active_player();
    assert_eq!(g.active_player, Player(0));
}

#[test]
fn game_info_and_views() {
    let mut g = game("riftbound");
    let b = Client { player: Player(2) };
    match b.handle_message(&mut g, PlayerMessage::GameInfo) {
        Reply::ToSender(Action::GameInfo { your_number, players_count, battlefields_count }) => {
            assert_eq!((your_number, players_count, battlefields_count), (2, 2, 2));
        },
        _ => panic!(),
    }
    // player 2 looks at player 1's private hand: sees backs only
    match b.handle_message(&mut g, PlayerMessage::ViewPile(named(1, "hand"))) {
        Reply::ToSender(Action::ViewPile { pile, .. }) => {
            assert_eq!(pile.cards.len(), 2);
            assert!(pile.cards.iter().all(|c| !c.visible_to_me && c.name.is_none()));
            assert!(!pile.ordered);
        },
        _ => panic!(),
    }
    match (Client { player: Player(1) }).handle_message(&mut g, PlayerMessage::ViewCard(at(1, "hand", 1))) {
        Reply::ToSender(Action::ViewCard { card, .. }) => assert_eq!(card.name.as_deref(), Some("Wall")),
        _ => panic!(),
    }
    assert!(matches!(b.handle_message(&mut g, PlayerMessage::ViewCard(at(1, "hand", 5))), Reply::Nothing));
    assert!(matches!(b.handle_message(&mut g, PlayerMessage::Surrender), Reply::Nothing));
    assert!(matches!(b.handle_message(&mut g, PlayerMessage::ShufflePile { target: named(2, "hand") }), Reply::Nothing));
}

#[test]
fn chips_on_the_board() {
    let mut g = game("unmatched");
    let me = Client { player: Player(1) };
    let spot = ChipPointer { board: BoardPointer::Name("board".to_string()), index: 0 };
    let reply = me.handle_message(&mut g, PlayerMessage::CreateChip {
        destination: spot.clone(),
        coordinates: Coordinates::from_bits(1065353216, 0),
        name: "Hero".to_string(),
    });
    assert!(matches!(reply, Reply::ChipCreated { .. }));
    let chip = g.chip(&spot).unwrap();
    assert_eq!(chip.health, 15);
    assert_eq!(chip.coordinates.x_bits, 1065353216);
    let reply = me.handle_message(&mut g, PlayerMessage::ChangeChip {
        target: spot.clone(),
        changes: ChipChange { visibility: Some(Visibility::Secret), health: Some(10), coordinates: None },
    });
    match reply.action_for(&Player(2)) {
        Some(Action::ChipChanged { new_chip, .. }) => {
            assert_eq!(new_chip.health, None);
            assert!(new_chip.raw.is_none());
        },
        _ => panic!(),
    }
    assert_eq!(g.chip(&spot).unwrap().health, 10);
    match (Client { player: Player(0) }).handle_message(&mut g, PlayerMessage::ViewBoard(BoardPointer::Name("board".to_string()))) {
        Reply::ToSender(Action::ViewBoard { board, .. }) => {
            assert_eq!(board.chips.len(), 1);
            assert_eq!(board.chips[0].health, Some(10));
        },
        _ => panic!(),
    }
    assert!(matches!(
        me.handle_message(&mut g, PlayerMessage::ViewChip(ChipPointer { board: BoardPointer::Name("x".to_string()), index: 0 })),
        Reply::Nothing
    ));
}

#[test]
fn normalize_pointers() {
    let g = game("riftbound");
    let mut p = at(1, "hand", -1);
    p.normalize(&g);
    assert_eq!(p.index, 2);
    let mut p = at(1, "hand", 7);
    p.normalize(&g);
    assert_eq!(p.index, 1);
}

#[test]
fn players_get_seats_one_to_n() {
    let seated = seat_players(vec!["x", "y", "z"]);
    let seats: Vec<i32> = seated.iter().map(|(p, _)| p.0).collect();
    assert_eq!(seats, vec![1, 2, 3]);
    let mut who: Vec<&str> = seated.iter().map(|(_, c)| *c).collect();
    who.sort();
    assert_eq!(who, vec!["x", "y", "z"]);
    assert!(seat_players(Vec::<u8>::new()).is_empty());
}
