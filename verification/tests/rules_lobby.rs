use otcg::lobby::{Arrival, Config, GameParameters, LobbiesState, Lobby, QueueState};
use otcg::player::Player;
use otcg::rules::{Rules, UNMATCHED_BOARD_URL};
use otcg::visibility::Visibility;
use otcg::card::{Card, RawCard};
use otcg::viewable::Viewable;

fn params(n: usize) -> GameParameters {
    GameParameters { name: "riftbound".to_string(), players_count: n, library_path: ".otcglib".to_string() }
}

#[test]
fn visibility_rules() {
    assert!(!Visibility::Secret.can_be_viewed_by_owner());
    assert!(Visibility::Private.can_be_viewed_by_owner());
    assert!(Visibility::Public.can_be_viewed_by_owner());
    assert!(!Visibility::Secret.can_be_viewed_by_not_owner());
    assert!(!Visibility::Private.can_be_viewed_by_not_owner());
    assert!(Visibility::Public.can_be_viewed_by_not_owner());
}

fn card(owner: i32, v: Visibility) -> Card {
    let raw = RawCard {
        card_type: String::new(), name: "c".to_string(), cost: 0, color_cost: vec![], power: 0, health: 0,
        description: String::new(), tags: vec![], colors: vec![], rarity: String::new(), art_url: String::new(),
        card_picture_url: String::new(), nature: String::new(), back_side_url: String::new(), set: String::new(),
        set_index: String::new(), language: String::new(),
    };
    Card::from_raw(&raw, Player(owner), v)
}

#[test]
fn who_sees_what() {
    let secret = card(1, Visibility::Secret);
    let private = card(1, Visibility::Private);
    let public = card(1, Visibility::Public);
    for p in [Player(0)] {
        assert!(secret.can_be_viewed_by(&p) && private.can_be_viewed_by(&p) && public.can_be_viewed_by(&p));
    }
    assert!(!secret.can_be_viewed_by(&Player(1)));
    assert!(private.can_be_viewed_by(&Player(1)));
    assert!(!private.can_be_viewed_by(&Player(2)));
    assert!(!private.can_be_viewed_by(&Player(-1)));
    assert!(public.can_be_viewed_by(&Player(-1)));
    assert_eq!(public.owner(), Player(1));
    assert_eq!(secret.visibility(), Visibility::Secret);
}

#[test]
fn touching_rights() {
    let r = Rules::new("riftbound");
    let (w, admin, a, b) = (Player::watcher(), Player::admin(), Player::a(), Player::b());
    assert!(!r.rights_to_touch_ones_pile(&w, &w, &w));
    assert!(r.rights_to_touch_ones_pile(&admin, &a, &b));
    assert!(r.rights_to_touch_ones_pile(&a, &a, &b));
    assert!(!r.rights_to_touch_ones_pile(&a, &b, &a));
    assert!(r.rights_to_touch_ones_pile(&a, &admin, &a));
    assert!(!r.rights_to_touch_ones_pile(&a, &admin, &b));
}

#[test]
fn pile_layouts() {
    let r = Rules::new("riftbound");
    assert_eq!(r.battlefields_count(), 2);
    assert!(r.piles(Player(-1)).is_empty());
    let admin = r.piles(Player(0));
    assert_eq!(admin.len(), 1);
    assert_eq!(admin[0].0, "spell_queue");
    let mine: Vec<String> = r.piles(Player(1)).into_iter().map(|(n, c)| {
        assert_eq!(c.owner, Player(1));
        n
    }).collect();
    assert_eq!(mine, ["heroes", "hand", "main_deck", "mana_deck", "trash_deck", "mana_pool", "base", "special_zone"]);
    let hand = &r.piles(Player(2))[1].1;
    assert!(hand.shuffled && !hand.only_raw_cards && hand.default_visibility == Visibility::Private);
    assert!(r.boards().is_empty());

    let u = Rules::new("unmatched");
    assert!(u.piles(Player(0)).is_empty());
    let names: Vec<String> = u.piles(Player(2)).into_iter().map(|(n, _)| n).collect();
    assert_eq!(names, ["heroes", "hand", "main_deck", "additional_deck", "trash_deck"]);
    let boards = u.boards();
    assert_eq!(boards.len(), 1);
    assert_eq!(boards[0].0, "board");
    assert_eq!(boards[0].1.img_url, UNMATCHED_BOARD_URL);
}

#[test]
fn lobby_waits_then_starts() {
    let mut lobby: Lobby<u32, &str> = Lobby::new(params(2));
    assert!(matches!(lobby.add_watcher(9), Arrival::Waiting));
    assert!(matches!(lobby.add_player(1), Arrival::Waiting));
    assert!(lobby.try_start().is_none());
    assert!(matches!(lobby.add_player(2), Arrival::Waiting));
    let (players, watchers, config) = lobby.try_start().unwrap();
    assert_eq!(players, vec![1, 2]);
    assert_eq!(watchers, vec![9]);
    assert_eq!(config.game_name, "riftbound");
    lobby.started("game");
    assert_eq!(lobby.game(), Some(&"game"));
    assert!(matches!(lobby.add_player(3), Arrival::Refused(3)));
    assert!(matches!(lobby.add_watcher(4), Arrival::GameStarted(4)));
    assert!(lobby.try_start().is_none());
}

#[test]
fn parameters_into_config() {
    let c: Config = params(3).into();
    assert_eq!(c.game_name, "riftbound");
    assert_eq!(c.library_path, ".otcglib");
    assert_eq!(params(3).clone().players_count, 3);
}

#[test]
fn queue_gathers_longest_waiting() {
    let mut q: QueueState<u32> = QueueState::new(params(2));
    q.push(1);
    assert!(q.take_group().is_none());
    q.push(2);
    q.push(3);
    let group = q.take_group().unwrap();
    assert_eq!(group.iter().copied().collect::<Vec<_>>(), vec![2, 1]);
    assert_eq!(q.clients.iter().copied().collect::<Vec<_>>(), vec![3]);
    let started = q.settle_group(group.into_iter().map(|c| (true, c)).collect());
    assert_eq!(started, Some(vec![2, 1]));
    // one not ready: the ready one goes back to the end of the queue
    q.push(4);
    let group = q.take_group().unwrap();
    let settled = q.settle_group(group.into_iter().map(|c| (c == 4, c)).collect());
    assert!(settled.is_none());
    assert_eq!(q.clients.iter().copied().collect::<Vec<_>>(), vec![4]);
}

#[test]
fn lobbies_open_on_demand_and_start_when_full() {
    let mut lobbies: LobbiesState<u32, &str> = LobbiesState::new(params(2));
    assert!(lobbies.game(7).is_none());
    let (a, start) = lobbies.add_player_to_lobby(7, 1);
    assert!(matches!(a, Arrival::Waiting) && start.is_none());
    assert!(matches!(lobbies.add_watcher_to_lobby(7, 50), Arrival::Waiting));
    let (_, other) = lobbies.add_player_to_lobby(8, 2);
    assert!(other.is_none());
    let (a, start) = lobbies.add_player_to_lobby(7, 3);
    assert!(matches!(a, Arrival::Waiting));
    let (players, watchers, config) = start.unwrap();
    assert_eq!(players, vec![1, 3]);
    assert_eq!(watchers, vec![50]);
    assert_eq!(config.library_path, ".otcglib");
    lobbies.started(7, "seven");
    assert_eq!(lobbies.game(7), Some(&"seven"));
    assert!(lobbies.game(8).is_none());
    let (a, start) = lobbies.add_player_to_lobby(7, 4);
    assert!(matches!(a, Arrival::Refused(4)) && start.is_none());
    assert_eq!(lobbies.game(7), Some(&"seven"));
    let (a, _) = lobbies.add_player_to_lobby(7, 5);
    assert!(matches!(a, Arrival::Refused(5)));
    assert!(matches!(lobbies.add_watcher_to_lobby(7, 5), Arrival::GameStarted(5)));
    let (_, start) = lobbies.add_player_to_lobby(8, 6);
    assert_eq!(start.unwrap().0, vec![2, 6]);
}
