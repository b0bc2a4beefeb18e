use crate::error::Error;
use crate::ids::MESSAGE_ID_CHARS;
use crate::model::{
    ChatEvent, ChatMessage, ChatMessageView, Player, PlayerMoveEvent, ReducerContext,
};
use crate::reducers::{
    get_online_players, get_player_info, init, player_chat, player_disconnect, player_join,
    player_move, use_item,
};
use crate::rules::{
    can_use_item, catalog_seeded, connected, disconnected, item_used, message_posted, moved,
    no_id_of_generated_length, online_players, valid_message,
};
use crate::store::{Store, StoreView};
use crate::table::{has_key, position};
use vstd::prelude::*;

verus! {

/// A reducer, named, with its arguments. The caller and the time of the
/// call come with the [`ReducerContext`].
#[derive(Clone, Debug, PartialEq, Eq)]
pub enum ReducerCall {
    Connect,
    Disconnect,
    Move(PlayerMoveEvent),
    Chat(ChatEvent),
    UseItem(String),
    GetPlayerInfo,
    GetOnlinePlayers,
}

/// What a reducer that went through hands back.
#[derive(Clone, Debug, PartialEq, Eq)]
pub enum Reply {
    /// The reducer has done its work and has nothing to report.
    Done,
    /// A copy of the caller's row.
    PlayerInfo(Player),
    /// Copies of the rows of the players that are online.
    OnlinePlayers(Vec<Player>),
}

/// The store that a call which went through leaves behind.
pub open spec fn committed(
    before: StoreView,
    ctx: ReducerContext,
    call: ReducerCall,
    after: StoreView,
) -> bool {
    match call {
        ReducerCall::Connect => after == connected(before, ctx.sender@, ctx.timestamp),
        ReducerCall::Disconnect => after == disconnected(before, ctx.sender@, ctx.timestamp),
        ReducerCall::Move(event) => after == moved(
            before,
            ctx.sender@,
            event.x,
            event.y,
            ctx.timestamp,
        ),
        ReducerCall::Chat(event) => {
            &&& valid_message(event.message@)
            &&& after.messages.len() == before.messages.len() + 1
            &&& after.messages.last().id.len() == MESSAGE_ID_CHARS
            &&& !has_key::<ChatMessage>(before.messages, after.messages.last().id)
            &&& after == message_posted(
                before,
                ChatMessageView {
                    id: after.messages.last().id,
                    sender_identity: ctx.sender@,
                    message: event.message@,
                    channel: event.channel@,
                    timestamp: ctx.timestamp,
                },
            )
        },
        ReducerCall::UseItem(item_id) => after == item_used(before, ctx.sender@, item_id@),
        ReducerCall::GetPlayerInfo => after == before,
        ReducerCall::GetOnlinePlayers => after == before,
    }
}

/// Whether `r` is an answer that the call may get on the store `before`.
/// Only a chat leaves a choice, and only on a log that holds an id of the
/// generated length: its new id may then be one that the log holds, which
/// is an `InternalError`.
pub open spec fn answers(
    before: StoreView,
    ctx: ReducerContext,
    call: ReducerCall,
    r: Result<Reply, Error>,
) -> bool {
    match call {
        ReducerCall::Connect => r == Ok::<Reply, Error>(Reply::Done),
        ReducerCall::Disconnect => r == Ok::<Reply, Error>(Reply::Done),
        ReducerCall::Move(event) => r == if has_key::<Player>(before.players, ctx.sender@) {
            Ok::<Reply, Error>(Reply::Done)
        } else {
            Err::<Reply, Error>(Error::NotFound)
        },
        ReducerCall::Chat(event) => if !valid_message(event.message@) {
            r == Err::<Reply, Error>(Error::ValidationError)
        } else if no_id_of_generated_length(before.messages) {
            r == Ok::<Reply, Error>(Reply::Done)
        } else {
            r == Ok::<Reply, Error>(Reply::Done) || r == Err::<Reply, Error>(Error::InternalError)
        },
        ReducerCall::UseItem(item_id) => r == if can_use_item(before, ctx.sender@, item_id@) {
            Ok::<Reply, Error>(Reply::Done)
        } else {
            Err::<Reply, Error>(Error::NotFound)
        },
        ReducerCall::GetPlayerInfo => if has_key::<Player>(before.players, ctx.sender@) {
            r matches Ok(Reply::PlayerInfo(p)) && p@ == before.players[position::<Player>(
                before.players,
                ctx.sender@,
            )]
        } else {
            r == Err::<Reply, Error>(Error::NotFound)
        },
        ReducerCall::GetOnlinePlayers => r matches Ok(Reply::OnlinePlayers(rows))
            && rows@.map_values(|p: Player| p@) == online_players(before),
    }
}

/// Runs reducers against one store, one at a time. The executor owns the
/// store, and a call borrows the executor for as long as it runs: a second
/// call cannot start before the first has ended. Each call is a
/// transaction: it goes through whole, or it fails and the store is as it
/// was. The item catalog is seeded before the first call is let in.
pub struct Executor {
    store: Store,
}

impl View for Executor {
    type V = StoreView;

    closed spec fn view(&self) -> StoreView {
        self.store@
    }
}

impl Executor {
    /// An executor for a new world: no players, no messages, and the item
    /// catalog in place.
    pub fn new() -> (e: Executor)
        ensures
            e@ == catalog_seeded(
                StoreView { players: Seq::empty(), items: Seq::empty(), messages: Seq::empty() },
            ),
            e@.well_formed(),
    {
        Executor::with_store(Store::new())
    }

    /// An executor for the given store. The catalog is seeded here, so that
    /// no reducer runs before that is done; a store that holds items
    /// already keeps them.
    pub fn with_store(store: Store) -> (e: Executor)
        ensures
            e@ == catalog_seeded(store@),
            e@.well_formed(),
    {
        let mut store = store;
        init(&mut store);
        Executor { store }
    }

    /// The store as the last call left it.
    pub fn store(&self) -> (s: &Store)
        ensures
            s@ == self@,
    {
        &self.store
    }

    /// Hands the store back.
    pub fn into_store(self) -> (s: Store)
        ensures
            s@ == self@,
    {
        self.store
    }

    /// Runs one reducer as one transaction. A call that fails leaves the
    /// store as it was; one that goes through leaves what [`committed`]
    /// says; [`answers`] says which of the two it is.
    pub fn execute(&mut self, ctx: &ReducerContext, call: ReducerCall) -> (r: Result<Reply, Error>)
        ensures
            answers(old(self)@, *ctx, call, r),
            r is Ok ==> committed(old(self)@, *ctx, call, final(self)@),
            r is Err ==> final(self)@ == old(self)@,
            final(self)@.well_formed(),
    {
        proof {
            use_type_invariant(&self.store);
        }
        match call {
            ReducerCall::Connect => match player_join(&mut self.store, ctx) {
                Ok(()) => Ok(Reply::Done),
                Err(e) => Err(e),
            },
            ReducerCall::Disconnect => match player_disconnect(&mut self.store, ctx) {
                Ok(()) => Ok(Reply::Done),
                Err(e) => Err(e),
            },
            ReducerCall::Move(event) => match player_move(&mut self.store, ctx, event) {
                Ok(()) => Ok(Reply::Done),
                Err(e) => Err(e),
            },
            ReducerCall::Chat(event) => match player_chat(&mut self.store, ctx, event) {
                Ok(()) => Ok(Reply::Done),
                Err(e) => Err(e),
            },
            ReducerCall::UseItem(item_id) => match use_item(&mut self.store, ctx, item_id) {
                Ok(()) => Ok(Reply::Done),
                Err(e) => Err(e),
            },
            ReducerCall::GetPlayerInfo => match get_player_info(&self.store, ctx) {
                Ok(p) => Ok(Reply::PlayerInfo(p)),
                Err(e) => Err(e),
            },
            ReducerCall::GetOnlinePlayers => Ok(Reply::OnlinePlayers(get_online_players(&self.store))),
        }
    }
}

} // verus!
