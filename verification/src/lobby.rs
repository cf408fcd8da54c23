use vstd::prelude::*;
use std::collections::{HashMap, VecDeque};
use vstd::std_specs::convert::FromSpecImpl;

verus! {

/// What a game server needs to set up a game: which game, and where its
/// library of cards and chips lies.
#[derive(Debug)]
pub struct Config {
    pub game_name: String,
    pub library_path: String,
}

/// How the lobby server sets up its games: which game, for how many
/// players, and where the library lies.
#[derive(Debug)]
pub struct GameParameters {
    pub name: String,
    pub players_count: usize,
    pub library_path: String,
}

impl Clone for GameParameters {
    fn clone(&self) -> (r: Self)
        ensures
            r == *self,
    {
        GameParameters {
            name: self.name.clone(),
            players_count: self.players_count,
            library_path: self.library_path.clone(),
        }
    }
}

impl From<GameParameters> for Config {
    fn from(parameters: GameParameters) -> (r: Config) {
        Config { game_name: parameters.name, library_path: parameters.library_path }
    }
}

impl FromSpecImpl<GameParameters> for Config {
    open spec fn obeys_from_spec() -> bool {
        true
    }

    open spec fn from_spec(v: GameParameters) -> Config {
        Config { game_name: v.name, library_path: v.library_path }
    }
}

/// A lobby: players and watchers gather in it until there are as many
/// players as the game takes; then the game starts and the lobby holds it.
#[derive(Debug)]
pub enum Lobby<C, G> {
    Waiting { players: Vec<C>, watchers: Vec<C>, game_parameters: GameParameters },
    Started { game: G },
}

/// What becomes of someone who comes into a lobby.
#[derive(Debug)]
pub enum Arrival<C> {
    /// They wait in the lobby.
    Waiting,
    /// The game has started already; the caller lets the watcher in.
    GameStarted(C),
    /// The game has started already and takes no more players; the caller
    /// sends the player away.
    Refused(C),
}

impl<C, G> Lobby<C, G> {
    /// An empty lobby for games set up by `game_parameters`.
    pub fn new(game_parameters: GameParameters) -> (r: Lobby<C, G>)
        ensures
            r matches Lobby::Waiting { players, watchers, game_parameters: gp }
                && players@.len() == 0 && watchers@.len() == 0 && gp == game_parameters,
    {
        Lobby::Waiting { players: Vec::new(), watchers: Vec::new(), game_parameters }
    }

    /// Someone comes to play: while the lobby waits they join the end of
    /// its players; once the game started they are refused.
    pub fn add_player(&mut self, client: C) -> (r: Arrival<C>)
        ensures
            match *old(self) {
                Lobby::Waiting { players, watchers, game_parameters } => {
                    &&& r is Waiting
                    &&& *final(self) matches Lobby::Waiting { players: p, watchers: w, game_parameters: gp }
                    &&& p@ == players@.push(client) && w == watchers && gp == game_parameters
                },
                Lobby::Started { .. } => r == Arrival::Refused(client) && *final(self) == *old(self),
            },
    {
        match self {
            Lobby::Waiting { players, .. } => {
                players.push(client);
                Arrival::Waiting
            },
            Lobby::Started { .. } => Arrival::Refused(client),
        }
    }

    /// Someone comes to watch: while the lobby waits they join the end of
    /// its watchers; once the game started they are handed back.
    pub fn add_watcher(&mut self, client: C) -> (r: Arrival<C>)
        ensures
            match *old(self) {
                Lobby::Waiting { players, watchers, game_parameters } => {
                    &&& r is Waiting
                    &&& *final(self) matches Lobby::Waiting { players: p, watchers: w, game_parameters: gp }
                    &&& w@ == watchers@.push(client) && p == players && gp == game_parameters
                },
                Lobby::Started { .. } => r == Arrival::GameStarted(client) && *final(self) == *old(self),
            },
    {
        match self {
            Lobby::Waiting { watchers, .. } => {
                watchers.push(client);
                Arrival::Waiting
            },
            Lobby::Started { .. } => Arrival::GameStarted(client),
        }
    }

    /// When the lobby waits with exactly as many players as its game
    /// takes, hands out its players and watchers (in the order they came)
    /// and the configuration of the game to start; the lobby then waits
    /// empty until `started` is told the game. Otherwise nothing changes.
    pub fn try_start(&mut self) -> (r: Option<(Vec<C>, Vec<C>, Config)>)
        ensures
            match *old(self) {
                Lobby::Waiting { players, watchers, game_parameters } => if players@.len()
                    == game_parameters.players_count {
                    &&& r matches Some((p, w, c)) && p@ == players@ && w@ == watchers@
                        && c.game_name == game_parameters.name && c.library_path == game_parameters.library_path
                    &&& *final(self) matches Lobby::Waiting { players: p2, watchers: w2, game_parameters: gp }
                        && p2@.len() == 0 && w2@.len() == 0 && gp == game_parameters
                } else {
                    r is None && *final(self) == *old(self)
                },
                Lobby::Started { .. } => r is None && *final(self) == *old(self),
            },
    {
        match self {
            Lobby::Waiting { players, watchers, game_parameters } => {
                if players.len() == game_parameters.players_count {
                    let mut taken_players: Vec<C> = Vec::new();
                    let mut taken_watchers: Vec<C> = Vec::new();
                    std::mem::swap(players, &mut taken_players);
                    std::mem::swap(watchers, &mut taken_watchers);
                    let config = Config {
                        game_name: game_parameters.name.clone(),
                        library_path: game_parameters.library_path.clone(),
                    };
                    Some((taken_players, taken_watchers, config))
                } else {
                    None
                }
            },
            Lobby::Started { .. } => None,
        }
    }

    /// The game of the lobby has started.
    pub fn started(&mut self, game: G)
        ensures
            *final(self) == (Lobby::<C, G>::Started { game }),
    {
        *self = Lobby::Started { game };
    }

    /// The game of the lobby, once it started.
    pub fn game(&self) -> (r: Option<&G>)
        ensures
            match *self {
                Lobby::Started { game } => r == Some(&game),
                Lobby::Waiting { .. } => r is None,
            },
    {
        match self {
            Lobby::Started { game } => Some(game),
            Lobby::Waiting { .. } => None,
        }
    }
}

/// Players waiting for a game with whoever comes; the newest are at the
/// front, the longest waiting at the back.
#[derive(Debug)]
pub struct QueueState<C> {
    pub clients: VecDeque<C>,
    pub game_parameters: GameParameters,
}

impl<C> QueueState<C> {
    /// An empty queue for games set up by `game_parameters`.
    pub fn new(game_parameters: GameParameters) -> (r: QueueState<C>)
        ensures
            r.clients@.len() == 0,
            r.game_parameters == game_parameters,
    {
        QueueState { clients: VecDeque::new(), game_parameters }
    }

    /// Someone joins the queue, at its front.
    pub fn push(&mut self, client: C)
        ensures
            final(self).clients@ == seq![client] + old(self).clients@,
            final(self).game_parameters == old(self).game_parameters,
    {
        self.clients.push_front(client);
    }

    /// When enough players wait for a game, takes out the ones who waited
    /// longest, as many as a game takes, in queue order.
    pub fn take_group(&mut self) -> (r: Option<VecDeque<C>>)
        ensures
            final(self).game_parameters == old(self).game_parameters,
            ({
                let n = old(self).game_parameters.players_count;
                let q = old(self).clients@;
                if q.len() < n {
                    r is None && final(self).clients@ == q
                } else {
                    &&& r matches Some(group)
                    &&& group@ == q.subrange(q.len() - n, q.len() as int)
                    &&& final(self).clients@ == q.subrange(0, q.len() - n)
                }
            }),
    {
        let players_count = self.game_parameters.players_count;
        if self.clients.len() < players_count {
            return None;
        }
        let split = self.clients.len() - players_count;
        Some(self.clients.split_off(split))
    }

    /// Settles a group taken out of the queue, each with whether they are
    /// ready: when all of a game's players are ready they are handed out to
    /// play, in their order; otherwise those who are ready go back to the
    /// end of the queue and those who are not leave it.
    pub fn settle_group(&mut self, group: Vec<(bool, C)>) -> (r: Option<Vec<C>>)
        ensures
            final(self).game_parameters == old(self).game_parameters,
            ({
                let ready = group@.filter(|e: (bool, C)| e.0).map_values(|e: (bool, C)| e.1);
                if ready.len() == old(self).game_parameters.players_count {
                    r matches Some(v) && v@ == ready && final(self).clients@ == old(self).clients@
                } else {
                    r is None && final(self).clients@ == old(self).clients@ + ready
                }
            }),
    {
        let ghost ready_of = |s: Seq<(bool, C)>| s.filter(|e: (bool, C)| e.0).map_values(|e: (bool, C)| e.1);
        let ghost orig = group@;
        let mut rest = group;
        let mut only_ready: Vec<C> = Vec::new();
        let ghost mut i: int = 0;
        while rest.len() > 0
            invariant
                0 <= i <= orig.len(),
                rest@ == orig.skip(i),
                only_ready@ == orig.take(i).filter(|e: (bool, C)| e.0).map_values(|e: (bool, C)| e.1),
            decreases rest@.len(),
        {
            let (is_ready, client) = rest.remove(0);
            proof {
                assert(orig.take(i + 1).drop_last() =~= orig.take(i));
                assert(orig[i] == (is_ready, client));
                reveal_with_fuel(Seq::filter, 1);
            }
            if is_ready {
                only_ready.push(client);
            }
            proof {
                i = i + 1;
                assert(rest@ =~= orig.skip(i));
                assert(only_ready@ =~= orig.take(i).filter(|e: (bool, C)| e.0).map_values(|e: (bool, C)| e.1));
            }
        }
        proof {
            assert(orig.take(i) =~= orig);
        }
        if only_ready.len() == self.game_parameters.players_count {
            Some(only_ready)
        } else {
            let mut back: VecDeque<C> = VecDeque::new();
            let ghost collected = only_ready@;
            let ghost mut j: int = 0;
            while only_ready.len() > 0
                invariant
                    0 <= j <= collected.len(),
                    only_ready@ == collected.skip(j),
                    back@ == collected.take(j),
                decreases only_ready@.len(),
            {
                let client = only_ready.remove(0);
                back.push_back(client);
                proof {
                    assert(collected.take(j + 1) =~= collected.take(j).push(collected[j]));
                    j = j + 1;
                    assert(only_ready@ =~= collected.skip(j));
                }
            }
            proof {
                assert(collected.take(j) =~= collected);
            }
            self.clients.append(&mut back);
            None
        }
    }
}


/// The lobbies of the server, by number; a lobby is opened the first time
/// someone comes to its number.
#[derive(Debug)]
pub struct LobbiesState<C, G> {
    pub lobbies: HashMap<i32, Lobby<C, G>>,
    pub game_parameters: GameParameters,
}

/// Whom a lobby holds while it waits: its players, its watchers and the
/// parameters of its game.
pub open spec fn waiting_of<C, G>(lobby: Lobby<C, G>) -> Option<(Seq<C>, Seq<C>, GameParameters)> {
    match lobby {
        Lobby::Waiting { players, watchers, game_parameters } => Some((players@, watchers@, game_parameters)),
        Lobby::Started { .. } => None,
    }
}

/// Whether `lobby`, while it waits, sets up its game by `game_parameters`.
pub open spec fn sets_up<C, G>(lobby: Lobby<C, G>, game_parameters: GameParameters) -> bool {
    match lobby {
        Lobby::Waiting { game_parameters: gp, .. } => gp == game_parameters,
        Lobby::Started { .. } => true,
    }
}

impl<C, G> LobbiesState<C, G> {
    /// Every lobby that waits sets up its game as the server does.
    pub open spec fn wf(self) -> bool {
        forall|id: i32| #[trigger] self.lobbies@.contains_key(id) ==> sets_up(self.lobbies@[id], self.game_parameters)
    }

    /// The lobby of number `id`, if it was opened.
    pub open spec fn lobby_of(self, id: i32) -> Option<Lobby<C, G>> {
        if self.lobbies@.contains_key(id) {
            Some(self.lobbies@[id])
        } else {
            None
        }
    }

    /// Whom the lobby `id` holds while it waits (a lobby not yet opened
    /// waits empty); `None` once its game started.
    pub open spec fn waiting_at(self, id: i32) -> Option<(Seq<C>, Seq<C>, GameParameters)> {
        match self.lobby_of(id) {
            None => Some((Seq::empty(), Seq::empty(), self.game_parameters)),
            Some(lobby) => waiting_of(lobby),
        }
    }

    /// The game of the lobby `id`, once it started.
    pub open spec fn game_at(self, id: i32) -> Option<G> {
        match self.lobby_of(id) {
            Some(Lobby::Started { game }) => Some(game),
            _ => None,
        }
    }

    /// Once the game of a lobby started, the lobby no longer waits: every
    /// player who comes to it is refused and it keeps its game (see
    /// `add_player_to_lobby`), while watchers are let in.
    pub proof fn lemma_started_lobby_refuses_players(self, id: i32)
        requires
            self.game_at(id) is Some,
        ensures
            self.waiting_at(id) is None,
            self.lobby_of(id) == Some(Lobby::<C, G>::Started { game: self.game_at(id)->Some_0 }),
    {
    }

    /// No lobby yet.
    pub fn new(game_parameters: GameParameters) -> (r: LobbiesState<C, G>)
        ensures
            r.wf(),
            r.game_parameters == game_parameters,
            forall|id: i32| #[trigger] r.lobby_of(id) is None,
    {
        LobbiesState { lobbies: HashMap::new(), game_parameters }
    }

    /// Takes the lobby `id` out of the map, or a new empty one where it was
    /// not opened yet.
    fn take_lobby(&mut self, id: i32) -> (l: Lobby<C, G>)
        requires
            old(self).wf(),
        ensures
            final(self).game_parameters == old(self).game_parameters,
            final(self).lobbies@ == old(self).lobbies@.remove(id),
            final(self).wf(),
            waiting_of(l) == old(self).waiting_at(id),
            sets_up(l, old(self).game_parameters),
            old(self).lobby_of(id) is Some ==> l == old(self).lobby_of(id)->Some_0,
    {
        broadcast use vstd::std_specs::hash::group_hash_axioms;
        match self.lobbies.remove(&id) {
            Some(lobby) => lobby,
            None => {
                let lobby: Lobby<C, G> = Lobby::new(self.game_parameters.clone());
                proof {
                    assert(waiting_of(lobby) matches Some((p, w, gp)) && p =~= Seq::<C>::empty() && w =~= Seq::<C>::empty());
                }
                lobby
            },
        }
    }

    /// Puts `lobby` back under the number `id`.
    fn put_lobby(&mut self, id: i32, lobby: Lobby<C, G>)
        requires
            old(self).wf(),
            sets_up(lobby, old(self).game_parameters),
        ensures
            final(self).game_parameters == old(self).game_parameters,
            final(self).lobbies@ == old(self).lobbies@.insert(id, lobby),
            final(self).wf(),
            final(self).lobby_of(id) == Some(lobby),
    {
        broadcast use vstd::std_specs::hash::group_hash_axioms;
        self.lobbies.insert(id, lobby);
    }

    /// A player comes to the lobby `id`: while it waits they join its
    /// players, and when that makes as many players as its game takes, the
    /// lobby hands out its players, its watchers and the configuration of
    /// the game to start (see `Lobby::try_start`); once its game started
    /// the player is refused.
    pub fn add_player_to_lobby(&mut self, id: i32, client: C) -> (r: (Arrival<C>, Option<(Vec<C>, Vec<C>, Config)>))
        requires
            old(self).wf(),
        ensures
            final(self).wf(),
            final(self).game_parameters == old(self).game_parameters,
            forall|other: i32| other != id ==> #[trigger] final(self).lobby_of(other) == old(self).lobby_of(other),
            match old(self).waiting_at(id) {
                None => r.0 == Arrival::Refused(client) && r.1 is None && final(self).lobby_of(id) == old(self).lobby_of(id),
                Some((p, w, gp)) => {
                    &&& r.0 is Waiting
                    &&& gp == old(self).game_parameters
                    &&& if p.len() + 1 == gp.players_count {
                        &&& r.1 matches Some((sp, sw, c)) && sp@ == p.push(client) && sw@ == w
                            && c.game_name == gp.name && c.library_path == gp.library_path
                        &&& final(self).waiting_at(id) matches Some((p2, w2, gp2)) && p2.len() == 0 && w2.len() == 0 && gp2 == gp
                    } else {
                        r.1 is None && final(self).waiting_at(id) == Some((p.push(client), w, gp))
                    }
                },
            },
    {
        let mut lobby = self.take_lobby(id);
        let arrival = lobby.add_player(client);
        let start = match arrival {
            Arrival::Waiting => lobby.try_start(),
            _ => None,
        };
        self.put_lobby(id, lobby);
        (arrival, start)
    }

    /// A watcher comes to the lobby `id`: while it waits they join its
    /// watchers; once its game started they are handed back to be let in.
    pub fn add_watcher_to_lobby(&mut self, id: i32, client: C) -> (r: Arrival<C>)
        requires
            old(self).wf(),
        ensures
            final(self).wf(),
            final(self).game_parameters == old(self).game_parameters,
            forall|other: i32| other != id ==> #[trigger] final(self).lobby_of(other) == old(self).lobby_of(other),
            match old(self).waiting_at(id) {
                None => r == Arrival::GameStarted(client) && final(self).lobby_of(id) == old(self).lobby_of(id),
                Some((p, w, gp)) => r is Waiting && final(self).waiting_at(id) == Some((p, w.push(client), gp)),
            },
    {
        let mut lobby = self.take_lobby(id);
        let arrival = lobby.add_watcher(client);
        self.put_lobby(id, lobby);
        arrival
    }

    /// The game of the lobby `id` has started.
    pub fn started(&mut self, id: i32, game: G)
        requires
            old(self).wf(),
        ensures
            final(self).wf(),
            final(self).game_parameters == old(self).game_parameters,
            final(self).game_at(id) == Some(game),
            forall|other: i32| other != id ==> #[trigger] final(self).lobby_of(other) == old(self).lobby_of(other),
    {
        let mut lobby = self.take_lobby(id);
        lobby.started(game);
        self.put_lobby(id, lobby);
    }

    /// The game of the lobby `id`, once it started.
    pub fn game(&self, id: i32) -> (r: Option<&G>)
        ensures
            match self.game_at(id) {
                Some(g) => r == Some(&g),
                None => r is None,
            },
    {
        broadcast use vstd::std_specs::hash::group_hash_axioms;
        match self.lobbies.get(&id) {
            Some(lobby) => lobby.game(),
            None => None,
        }
    }
}

} // verus!
