//! Server-side rules of a small multiplayer game: uniquely keyed tables of
//! players, catalog items and chat messages, and the reducers that are the
//! only way to change them.
//!
//! A [`Store`] is the world state. A reducer takes the store and a
//! [`ReducerContext`] that names the caller and the time; it either goes
//! through, or fails with an [`Error`] and leaves the store as it was. An
//! [`Executor`] owns a store and runs reducers against it one at a time.
//!
//! Contracts speak of views: a row's view holds its strings as sequences of
//! characters, a table's view is the sequence of its rows' views, and the
//! module [`rules`] says for each reducer which store view follows from
//! which.

pub mod error;
pub mod executor;
pub mod ids;
pub mod laws;
pub mod model;
pub mod reducers;
pub mod rules;
pub mod store;
pub mod table;

pub use crate::error::Error;
pub use crate::executor::{Executor, ReducerCall, Reply};
pub use crate::model::{
    ChatEvent, ChatMessage, Coord, Item, Player, PlayerMoveEvent, ReducerContext,
};
pub use crate::reducers::{
    get_online_players, get_player_info, identity_connected, identity_disconnected, init,
    is_valid_message, player_chat, player_disconnect, player_join, player_move, post_message,
    say_hello, use_item,
};
pub use crate::store::Store;
pub use crate::table::{Record, Table};
