use crate::error::Error;
use crate::ids::{fresh_message_id, MESSAGE_ID_CHARS};
use crate::model::{
    ChatEvent, ChatMessage, ChatMessageView, Item, Player, PlayerMoveEvent, PlayerView,
    ReducerContext,
};
use crate::rules::{
    can_use_item, catalog_seeded, connected, disconnected, greeting, health_potion_view,
    iron_sword_view, item_used, mana_potion_view, message_posted, moved,
    no_id_of_generated_length, online_players, presence_set, restored, valid_message,
    MAX_MESSAGE_CHARS,
};
use crate::store::Store;
use crate::table::{has_key, lemma_selection_is_filter, position, Record};
use vstd::prelude::*;
use vstd::string::*;

verus! {

fn health_potion() -> (item: Item)
    ensures
        item@ == health_potion_view(),
{
    Item {
        id: String::from_str("health_potion"),
        name: String::from_str("Health Potion"),
        description: String::from_str("Restores 50 health points"),
        item_type: String::from_str("consumable"),
        damage: None,
        armor: None,
        mana: None,
        health: Some(50),
        quality: String::from_str("common"),
        icon: String::from_str("health_potion"),
    }
}

fn mana_potion() -> (item: Item)
    ensures
        item@ == mana_potion_view(),
{
    Item {
        id: String::from_str("mana_potion"),
        name: String::from_str("Mana Potion"),
        description: String::from_str("Restores 30 mana points"),
        item_type: String::from_str("consumable"),
        damage: None,
        armor: None,
        mana: Some(30),
        health: None,
        quality: String::from_str("common"),
        icon: String::from_str("mana_potion"),
    }
}

fn iron_sword() -> (item: Item)
    ensures
        item@ == iron_sword_view(),
{
    Item {
        id: String::from_str("iron_sword"),
        name: String::from_str("Iron Sword"),
        description: String::from_str("A basic iron sword"),
        item_type: String::from_str("weapon"),
        damage: Some(15),
        armor: None,
        mana: None,
        health: None,
        quality: String::from_str("common"),
        icon: String::from_str("iron_sword"),
    }
}

/// Seeds the item catalog. It is to run once, before any client's reducer;
/// run again, or on a store that already holds items, it changes nothing.
pub fn init(store: &mut Store)
    ensures
        final(store)@ == catalog_seeded(old(store)@),
        final(store)@.well_formed(),
{
    proof {
        use_type_invariant(&*store);
    }
    if store.items().is_empty() {
        proof {
            // The three ids differ in length, so none of the inserts meets its key.
            reveal_strlit("health_potion");
            reveal_strlit("mana_potion");
            reveal_strlit("iron_sword");
            assert("health_potion"@.len() == 13 && "mana_potion"@.len() == 11
                && "iron_sword"@.len() == 10);
        }
        let _ = store.add_item(health_potion());
        assert(!has_key::<Item>(store@.items, mana_potion_view().id));
        let _ = store.add_item(mana_potion());
        assert(!has_key::<Item>(store@.items, iron_sword_view().id));
        let _ = store.add_item(iron_sword());
        assert(store@.items =~= catalog_seeded(old(store)@).items);
    }
}

/// Marks the row of `identity` online or offline at time `now`, and says
/// whether there was such a row.
fn set_presence(store: &mut Store, identity: &String, online: bool, now: u64) -> (found: bool)
    ensures
        found == has_key::<Player>(old(store)@.players, identity@),
        final(store)@ == presence_set(old(store)@, identity@, online, now),
        final(store)@.well_formed(),
{
    proof {
        use_type_invariant(&*store);
    }
    let mut row = match store.players().get(identity) {
        Some(p) => p.duplicate(),
        None => {
            return false;
        },
    };
    row.online = online;
    row.last_seen = now;
    let _ = store.put_player(row);
    true
}

/// A client connected. The first connect of an identity creates its player
/// row; every later one marks the row online and leaves the rest of it as
/// it was.
pub fn identity_connected(store: &mut Store, ctx: &ReducerContext)
    ensures
        final(store)@ == connected(old(store)@, ctx.sender@, ctx.timestamp),
        final(store)@.well_formed(),
{
    if !set_presence(store, &ctx.sender, true, ctx.timestamp) {
        let row = Player::spawn(&ctx.sender, ctx.timestamp);
        match store.add_player(row) {
            Ok(()) => {},
            Err(_) => {
                // The row is there after all: this is a reconnect.
                let _ = set_presence(store, &ctx.sender, true, ctx.timestamp);
            },
        }
    }
}

/// A client disconnected. Its row, if it has one, is marked offline;
/// a disconnect never creates a row.
pub fn identity_disconnected(store: &mut Store, ctx: &ReducerContext)
    ensures
        final(store)@ == disconnected(old(store)@, ctx.sender@, ctx.timestamp),
        final(store)@.well_formed(),
{
    let _ = set_presence(store, &ctx.sender, false, ctx.timestamp);
}

/// The `connect` reducer: what [`identity_connected`] does, for a caller
/// that asks by name. It always succeeds.
pub fn player_join(store: &mut Store, ctx: &ReducerContext) -> (r: Result<(), Error>)
    ensures
        r == Ok::<(), Error>(()),
        final(store)@ == connected(old(store)@, ctx.sender@, ctx.timestamp),
        final(store)@.well_formed(),
{
    identity_connected(store, ctx);
    Ok(())
}

/// The `disconnect` reducer: what [`identity_disconnected`] does, for a
/// caller that asks by name. It always succeeds.
pub fn player_disconnect(store: &mut Store, ctx: &ReducerContext) -> (r: Result<(), Error>)
    ensures
        r == Ok::<(), Error>(()),
        final(store)@ == disconnected(old(store)@, ctx.sender@, ctx.timestamp),
        final(store)@.well_formed(),
{
    identity_disconnected(store, ctx);
    Ok(())
}

/// Moves the caller to the event's position. The caller's row is read,
/// changed and written back; a caller without a row gets `NotFound`, and
/// no row is ever created here.
pub fn player_move(
    store: &mut Store,
    ctx: &ReducerContext,
    event: PlayerMoveEvent,
) -> (r: Result<(), Error>)
    ensures
        r == (if has_key::<Player>(old(store)@.players, ctx.sender@) {
            Ok::<(), Error>(())
        } else {
            Err::<(), Error>(Error::NotFound)
        }),
        final(store)@ == moved(old(store)@, ctx.sender@, event.x, event.y, ctx.timestamp),
        r is Err ==> final(store)@ == old(store)@,
        final(store)@.well_formed(),
{
    proof {
        use_type_invariant(&*store);
    }
    let mut row = match store.players().get(&ctx.sender) {
        Some(p) => p.duplicate(),
        None => {
            return Err(Error::NotFound);
        },
    };
    row.x = event.x;
    row.y = event.y;
    row.last_seen = ctx.timestamp;
    store.put_player(row)
}

/// Whether a chat message is neither empty nor too long.
pub fn is_valid_message(message: &String) -> (b: bool)
    ensures
        b == valid_message(message@),
{
    let n = message.as_str().unicode_len();
    0 < n && n <= MAX_MESSAGE_CHARS
}

/// Appends the event's message to the chat log under the given id. A
/// message that is empty or too long is a `ValidationError`; an id that the
/// log already holds is an `InternalError`, since ids are generated and not
/// a caller's to choose. Players and items are not touched.
pub fn post_message(
    store: &mut Store,
    ctx: &ReducerContext,
    id: String,
    event: ChatEvent,
) -> (r: Result<(), Error>)
    ensures
        r == (if !valid_message(event.message@) {
            Err::<(), Error>(Error::ValidationError)
        } else if has_key::<ChatMessage>(old(store)@.messages, id@) {
            Err::<(), Error>(Error::InternalError)
        } else {
            Ok::<(), Error>(())
        }),
        r is Ok ==> final(store)@ == message_posted(
            old(store)@,
            ChatMessageView {
                id: id@,
                sender_identity: ctx.sender@,
                message: event.message@,
                channel: event.channel@,
                timestamp: ctx.timestamp,
            },
        ),
        r is Err ==> final(store)@ == old(store)@,
        final(store)@.well_formed(),
{
    proof {
        use_type_invariant(&*store);
    }
    if !is_valid_message(&event.message) {
        return Err(Error::ValidationError);
    }
    let row = ChatMessage {
        id,
        sender_identity: ctx.sender.clone(),
        message: event.message,
        channel: event.channel,
        timestamp: ctx.timestamp,
    };
    match store.add_message(row) {
        Ok(()) => Ok(()),
        Err(_) => Err(Error::InternalError),
    }
}

/// The `chat` reducer: appends the event's message to the chat log under a
/// newly generated id, with the caller as sender and the time of the call.
/// A message that is empty or too long is a `ValidationError`. Should the
/// new id be one that the log already holds, the call is an
/// `InternalError`; in a log without an id of the generated length, the
/// empty log among them, that cannot happen and a valid message always goes
/// through. On every error the store stays as it was.
pub fn player_chat(
    store: &mut Store,
    ctx: &ReducerContext,
    event: ChatEvent,
) -> (r: Result<(), Error>)
    ensures
        !valid_message(event.message@) ==> r == Err::<(), Error>(Error::ValidationError),
        valid_message(event.message@) ==> r == Ok::<(), Error>(()) || r == Err::<(), Error>(
            Error::InternalError,
        ),
        valid_message(event.message@) && no_id_of_generated_length(old(store)@.messages)
            ==> r == Ok::<(), Error>(()),
        r is Ok ==> ({
            let row = final(store)@.messages.last();
            &&& valid_message(event.message@)
            &&& final(store)@.messages.len() == old(store)@.messages.len() + 1
            &&& row.id.len() == MESSAGE_ID_CHARS
            &&& !has_key::<ChatMessage>(old(store)@.messages, row.id)
            &&& final(store)@ == message_posted(
                old(store)@,
                ChatMessageView {
                    id: row.id,
                    sender_identity: ctx.sender@,
                    message: event.message@,
                    channel: event.channel@,
                    timestamp: ctx.timestamp,
                },
            )
        }),
        r is Err ==> final(store)@ == old(store)@,
        final(store)@.well_formed(),
{
    proof {
        use_type_invariant(&*store);
    }
    if !is_valid_message(&event.message) {
        return Err(Error::ValidationError);
    }
    let id = fresh_message_id();
    proof {
        if has_key::<ChatMessage>(store@.messages, id@) {
            // The row that holds the new id has an id of the generated length.
            let at = position::<ChatMessage>(store@.messages, id@);
            assert(store@.messages[at].id.len() == MESSAGE_ID_CHARS);
        }
    }
    post_message(store, ctx, id, event)
}

/// A stat after an item restored `gain` of it, held between zero and
/// `ceiling`.
fn restore_stat(value: i32, ceiling: i32, gain: Option<i32>) -> (r: i32)
    ensures
        r == restored(value, ceiling, gain),
{
    match gain {
        None => value,
        Some(g) => {
            let sum: i64 = value as i64 + g as i64;
            if sum > ceiling as i64 {
                ceiling
            } else if sum < 0 {
                0
            } else {
                sum as i32
            }
        },
    }
}

/// The caller uses an item of the catalog: what the item restores of health
/// and of mana is added to the caller's row, each held at its ceiling. A
/// caller without a row, or an id that the catalog does not hold, is
/// `NotFound`, and then nothing changes. No stock is kept: an item is not
/// used up.
pub fn use_item(
    store: &mut Store,
    ctx: &ReducerContext,
    item_id: String,
) -> (r: Result<(), Error>)
    ensures
        r == (if can_use_item(old(store)@, ctx.sender@, item_id@) {
            Ok::<(), Error>(())
        } else {
            Err::<(), Error>(Error::NotFound)
        }),
        final(store)@ == item_used(old(store)@, ctx.sender@, item_id@),
        r is Err ==> final(store)@ == old(store)@,
        final(store)@.well_formed(),
{
    proof {
        use_type_invariant(&*store);
    }
    let (health, mana) = match store.items().get(&item_id) {
        Some(item) => (item.health, item.mana),
        None => {
            return Err(Error::NotFound);
        },
    };
    let mut row = match store.players().get(&ctx.sender) {
        Some(p) => p.duplicate(),
        None => {
            return Err(Error::NotFound);
        },
    };
    row.health = restore_stat(row.health, row.max_health, health);
    row.mana = restore_stat(row.mana, row.max_mana, mana);
    store.put_player(row)
}

/// A copy of the caller's row, or `NotFound` for a caller without one.
/// Nothing changes.
pub fn get_player_info(store: &Store, ctx: &ReducerContext) -> (r: Result<Player, Error>)
    ensures
        r is Ok <==> has_key::<Player>(store@.players, ctx.sender@),
        r matches Ok(p) ==> p@ == store@.players[position::<Player>(store@.players, ctx.sender@)],
        r matches Err(e) ==> e == Error::NotFound,
{
    match store.players().get(&ctx.sender) {
        Some(p) => Ok(p.duplicate()),
        None => Err(Error::NotFound),
    }
}

/// Copies of the rows of all players that are online, in table order.
/// Nothing changes.
pub fn get_online_players(store: &Store) -> (out: Vec<Player>)
    ensures
        out@.map_values(|p: Player| p@) == online_players(store@),
{
    let table = store.players();
    let is_online = |p: &Player| -> (b: bool)
        ensures
            b == p.online,
        { p.online };
    let out = table.iterate(is_online);
    proof {
        table.lemma_view_of_rows();
        lemma_selection_is_filter::<Player, _>(
            table.rows(),
            is_online,
            out@.map_values(|p: Player| p@),
            |p: PlayerView| p.online,
        );
    }
    out
}

/// A greeting for each player that is online, in table order.
pub fn say_hello(store: &Store) -> (lines: Vec<String>)
    ensures
        lines@.map_values(|l: String| l@) == online_players(store@).map_values(
            |p: PlayerView| greeting(p.username),
        ),
{
    let online = get_online_players(store);
    let ghost views = online@.map_values(|p: Player| p@);
    let mut lines: Vec<String> = Vec::new();
    let mut i: usize = 0;
    while i < online.len()
        invariant
            i <= online.len(),
            views == online@.map_values(|p: Player| p@),
            lines@.len() == i,
            forall|j: int| 0 <= j < i ==> (#[trigger] lines@[j])@ == greeting(views[j].username),
        decreases online.len() - i,
    {
        let line = String::from_str("Hello, ").concat(online[i].username.as_str()).concat("!");
        lines.push(line);
        i += 1;
    }
    lines
}

} // verus!
