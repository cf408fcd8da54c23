//! Engine of an open tactical card game: players, piles of cards, boards
//! of chips, the rules that lay out a table, and the decisions a game
//! server takes on each message of a player.

pub mod names;
pub mod player;
pub mod visibility;
pub mod pointer;
pub mod viewable;
pub mod card;
pub mod shuffle;
pub mod pile;
pub mod chip;
pub mod board;
pub mod rules;
pub mod library;
pub mod library_file;
pub mod view;
pub mod background;
pub mod area;
pub mod game;
pub mod deck;
pub mod hand;
pub mod server;
pub mod lobby;
