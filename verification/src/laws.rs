use crate::executor::{committed, ReducerCall};
use crate::model::{
    new_player, ChatEvent, ChatMessage, ChatMessageView, Coord, Item, Player, PlayerView,
    ReducerContext,
};
use crate::rules::{
    can_post, can_use_item, catalog, catalog_seeded, connected, disconnected, item_applied,
    item_used, message_posted, moved, presence_set, restored,
};
use crate::store::StoreView;
use crate::table::{
    distinct_keys, has_key, holds_once, lemma_held_once, lemma_push_keeps_keys,
    lemma_update_keeps_keys, position, Record,
};
use vstd::prelude::*;

verus! {

/// Putting a row with the same identity, and with stats within their
/// bounds, in the place of a player's row keeps the store well formed. No
/// row is added or lost, and every identity stays where it was.
pub proof fn lemma_row_replaced(s: StoreView, identity: Seq<char>, row: PlayerView)
    requires
        s.well_formed(),
        has_key::<Player>(s.players, identity),
        row.identity == identity,
        row.within_bounds(),
    ensures
        ({
            let at = position::<Player>(s.players, identity);
            let after = StoreView { players: s.players.update(at, row), ..s };
            &&& after.well_formed()
            &&& after.players.len() == s.players.len()
            &&& holds_once::<Player>(after.players, identity)
            &&& position::<Player>(after.players, identity) == at
            &&& forall|key: Seq<char>| #[trigger]
                has_key::<Player>(after.players, key) == has_key::<Player>(s.players, key)
        }),
{
    let at = position::<Player>(s.players, identity);
    lemma_held_once::<Player>(s.players, identity);
    lemma_update_keeps_keys::<Player>(s.players, at, row);
    lemma_held_once::<Player>(s.players.update(at, row), identity);
}

/// Marking a player online or offline keeps the store well formed, and
/// every identity that has a row keeps it. A known player keeps its place
/// and all of its row but `online` and `last_seen`.
pub proof fn lemma_presence_set(s: StoreView, identity: Seq<char>, online: bool, now: u64)
    requires
        s.well_formed(),
    ensures
        presence_set(s, identity, online, now).well_formed(),
        presence_set(s, identity, online, now).players.len() == s.players.len(),
        forall|key: Seq<char>| #[trigger]
            has_key::<Player>(presence_set(s, identity, online, now).players, key) == has_key::<
                Player,
            >(s.players, key),
        has_key::<Player>(s.players, identity) ==> ({
            let at = position::<Player>(s.players, identity);
            &&& position::<Player>(presence_set(s, identity, online, now).players, identity) == at
            &&& presence_set(s, identity, online, now).players[at] == (PlayerView {
                online,
                last_seen: now,
                ..s.players[at]
            })
        }),
{
    if has_key::<Player>(s.players, identity) {
        let at = position::<Player>(s.players, identity);
        lemma_held_once::<Player>(s.players, identity);
        lemma_row_replaced(s, identity, PlayerView { online, last_seen: now, ..s.players[at] });
    }
}

/// A connect keeps the store well formed, and every identity that has a
/// row keeps it; afterwards the caller has exactly one row, and the row is
/// online.
pub proof fn lemma_connected(s: StoreView, identity: Seq<char>, now: u64)
    requires
        s.well_formed(),
    ensures
        connected(s, identity, now).well_formed(),
        forall|key: Seq<char>|
            has_key::<Player>(s.players, key) ==> #[trigger] has_key::<Player>(
                connected(s, identity, now).players,
                key,
            ),
        holds_once::<Player>(connected(s, identity, now).players, identity),
        connected(s, identity, now).players[position::<Player>(
            connected(s, identity, now).players,
            identity,
        )].online,
        connected(s, identity, now).players.len() == (if has_key::<Player>(s.players, identity) {
            s.players.len()
        } else {
            s.players.len() + 1
        }),
{
    let after = connected(s, identity, now);
    if has_key::<Player>(s.players, identity) {
        lemma_presence_set(s, identity, true, now);
    } else {
        lemma_push_keeps_keys::<Player>(s.players, new_player(identity, now));
    }
    lemma_held_once::<Player>(after.players, identity);
}

/// Connecting twice in a row leaves exactly one row for the identity, and
/// that row is online after the first connect and after the second. The
/// second connect adds no row: it only sets the time at which the player
/// was last seen.
pub proof fn lemma_connect_is_idempotent(
    s: StoreView,
    identity: Seq<char>,
    first: u64,
    second: u64,
)
    requires
        s.well_formed(),
    ensures
        ({
            let once = connected(s, identity, first);
            let twice = connected(once, identity, second);
            let at = position::<Player>(once.players, identity);
            &&& twice.well_formed()
            &&& holds_once::<Player>(once.players, identity)
            &&& holds_once::<Player>(twice.players, identity)
            &&& once.players[at].online
            &&& position::<Player>(twice.players, identity) == at
            &&& twice.players[at].online
            &&& twice.players == once.players.update(
                at,
                PlayerView { last_seen: second, ..once.players[at] },
            )
            &&& twice.items == s.items
            &&& twice.messages == s.messages
        }),
{
    let once = connected(s, identity, first);
    lemma_connected(s, identity, first);
    lemma_connected(once, identity, second);
    lemma_presence_set(once, identity, true, second);
}

/// A disconnect of an identity that never connected changes nothing: no
/// row is created.
pub proof fn lemma_disconnect_of_unknown_is_noop(s: StoreView, identity: Seq<char>, now: u64)
    requires
        !has_key::<Player>(s.players, identity),
    ensures
        disconnected(s, identity, now) == s,
{
}

/// A player's row lives through disconnect and reconnect: the row keeps its
/// place and everything but `online` and `last_seen`; it is offline after
/// the disconnect and online after the reconnect.
pub proof fn lemma_reconnect_keeps_row(s: StoreView, identity: Seq<char>, left: u64, back: u64)
    requires
        s.well_formed(),
        has_key::<Player>(s.players, identity),
    ensures
        ({
            let at = position::<Player>(s.players, identity);
            let offline = disconnected(s, identity, left);
            let online = connected(offline, identity, back);
            &&& online.well_formed()
            &&& offline.players == s.players.update(
                at,
                PlayerView { online: false, last_seen: left, ..s.players[at] },
            )
            &&& online.players == s.players.update(
                at,
                PlayerView { online: true, last_seen: back, ..s.players[at] },
            )
        }),
{
    lemma_presence_set(s, identity, false, left);
    lemma_presence_set(disconnected(s, identity, left), identity, true, back);
}

/// A move never adds a row: the table keeps its length, every identity
/// that has a row keeps it, the mover still has exactly one row, at the
/// same place, and that row stands at the new position.
pub proof fn lemma_move_keeps_one_row(
    s: StoreView,
    identity: Seq<char>,
    x: Coord,
    y: Coord,
    now: u64,
)
    requires
        s.well_formed(),
        has_key::<Player>(s.players, identity),
    ensures
        ({
            let after = moved(s, identity, x, y, now);
            let at = position::<Player>(s.players, identity);
            &&& after.well_formed()
            &&& after.players.len() == s.players.len()
            &&& holds_once::<Player>(after.players, identity)
            &&& position::<Player>(after.players, identity) == at
            &&& after.players[at].x == x
            &&& after.players[at].y == y
            &&& forall|key: Seq<char>| #[trigger]
                has_key::<Player>(after.players, key) == has_key::<Player>(s.players, key)
        }),
{
    let at = position::<Player>(s.players, identity);
    lemma_held_once::<Player>(s.players, identity);
    lemma_row_replaced(s, identity, PlayerView { x, y, last_seen: now, ..s.players[at] });
}

/// A stat that an item restores stays between zero and its ceiling, and
/// never goes past the ceiling however much the item gives.
pub proof fn lemma_restored_is_clamped(value: i32, ceiling: i32, gain: Option<i32>)
    requires
        0 <= value <= ceiling,
    ensures
        0 <= restored(value, ceiling, gain) <= ceiling,
        gain is None ==> restored(value, ceiling, gain) == value,
        gain matches Some(g) ==> (value + g >= ceiling ==> restored(value, ceiling, gain) == ceiling),
        gain matches Some(g) ==> (value + g <= 0 ==> restored(value, ceiling, gain) == 0),
        gain matches Some(g) ==> (0 <= value + g <= ceiling ==> restored(value, ceiling, gain)
            == value + g),
{
}

/// Using an item keeps the store well formed and changes at most the
/// user's health and mana; an id that the catalog does not hold changes
/// nothing at all.
pub proof fn lemma_item_used(s: StoreView, identity: Seq<char>, item_id: Seq<char>)
    requires
        s.well_formed(),
    ensures
        item_used(s, identity, item_id).well_formed(),
        !has_key::<Item>(s.items, item_id) ==> item_used(s, identity, item_id) == s,
        item_used(s, identity, item_id).items == s.items,
        item_used(s, identity, item_id).messages == s.messages,
        item_used(s, identity, item_id).players.len() == s.players.len(),
        forall|key: Seq<char>| #[trigger]
            has_key::<Player>(item_used(s, identity, item_id).players, key) == has_key::<Player>(
                s.players,
                key,
            ),
{
    if can_use_item(s, identity, item_id) {
        let at = position::<Player>(s.players, identity);
        let item = s.items[position::<Item>(s.items, item_id)];
        lemma_held_once::<Player>(s.players, identity);
        let before = s.players[at];
        lemma_restored_is_clamped(before.health, before.max_health, item.health);
        lemma_restored_is_clamped(before.mana, before.max_mana, item.mana);
        lemma_row_replaced(s, identity, item_applied(before, item));
    }
}

/// A chat log after the rows `posts` were appended one by one.
pub open spec fn posted_all(s: StoreView, posts: Seq<ChatMessageView>) -> StoreView
    decreases posts.len(),
{
    if posts.len() == 0 {
        s
    } else {
        message_posted(posted_all(s, posts.drop_last()), posts.last())
    }
}

/// Every accepted message finds the log without its id.
pub open spec fn each_accepted(s: StoreView, posts: Seq<ChatMessageView>) -> bool {
    forall|k: int|
        0 <= k < posts.len() ==> can_post(
            #[trigger] posted_all(s, posts.take(k)),
            posts[k].id,
            posts[k].message,
        )
}

/// A chat that went through is an accepted post: the message was valid, the
/// new id was not in the log, and the log has grown by the one row that
/// holds the id, the caller, the message and the channel as they were
/// passed, and the time of the call.
pub proof fn lemma_chat_is_an_accepted_post(
    before: StoreView,
    ctx: ReducerContext,
    event: ChatEvent,
    after: StoreView,
)
    requires
        committed(before, ctx, ReducerCall::Chat(event), after),
    ensures
        after.messages.len() == before.messages.len() + 1,
        can_post(before, after.messages.last().id, event.message@),
        after == message_posted(before, after.messages.last()),
        after.messages.last().sender_identity == ctx.sender@,
        after.messages.last().message == event.message@,
        after.messages.last().channel == event.channel@,
        after.messages.last().timestamp == ctx.timestamp,
{
}

/// Any number of chat messages, accepted one after the other, add as many
/// rows to the log, in their order and with their fields as they were
/// passed; the ids of all rows in the log are distinct. Players and items
/// stay as they are.
pub proof fn lemma_chat_log_grows(s: StoreView, posts: Seq<ChatMessageView>)
    requires
        s.well_formed(),
        each_accepted(s, posts),
    ensures
        posted_all(s, posts).well_formed(),
        posted_all(s, posts).messages == s.messages + posts,
        posted_all(s, posts).messages.len() == s.messages.len() + posts.len(),
        distinct_keys::<ChatMessage>(posts),
        posted_all(s, posts).players == s.players,
        posted_all(s, posts).items == s.items,
    decreases posts.len(),
{
    if posts.len() > 0 {
        let front = posts.drop_last();
        assert forall|k: int| 0 <= k < front.len() implies can_post(
            #[trigger] posted_all(s, front.take(k)),
            front[k].id,
            front[k].message,
        ) by {
            assert(front.take(k) =~= posts.take(k));
        }
        lemma_chat_log_grows(s, front);
        let before = posted_all(s, front);
        lemma_push_keeps_keys::<ChatMessage>(before.messages, posts.last());
        assert forall|i: int, j: int| 0 <= i < j < posts.len() implies #[trigger] ChatMessage::key_of(
            posts[i],
        ) != #[trigger] ChatMessage::key_of(posts[j]) by {
            let all = posted_all(s, posts).messages;
            assert(ChatMessage::key_of(all[s.messages.len() + i]) != ChatMessage::key_of(
                all[s.messages.len() + j],
            ));
        }
    }
}

/// Seeding the catalog twice is seeding it once. A store without items
/// holds the three catalog entries afterwards, and a second seeding adds
/// none.
pub proof fn lemma_catalog_seeding_is_idempotent(s: StoreView)
    ensures
        catalog_seeded(catalog_seeded(s)) == catalog_seeded(s),
        s.items.len() == 0 ==> catalog_seeded(s).items.len() == 3,
        catalog_seeded(s).players == s.players,
        catalog_seeded(s).messages == s.messages,
{
}

/// Seeding the catalog keeps a store well formed.
pub proof fn lemma_catalog_seeded(s: StoreView)
    requires
        s.well_formed(),
    ensures
        catalog_seeded(s).well_formed(),
{
    reveal_strlit("health_potion");
    reveal_strlit("mana_potion");
    reveal_strlit("iron_sword");
    if s.items.len() == 0 {
        assert forall|i: int, j: int| 0 <= i < j < catalog().len() implies #[trigger] Item::key_of(
            catalog()[i],
        ) != #[trigger] Item::key_of(catalog()[j]) by {
            assert(Item::key_of(catalog()[0]).len() == 13 && Item::key_of(catalog()[1]).len() == 11
                && Item::key_of(catalog()[2]).len() == 10);
        }
    }
}

/// What every reducer call that goes through keeps: the store stays well
/// formed, so keys stay unique and health and mana stay within their
/// bounds; the catalog is as it was; the chat log has only grown at its
/// end; and no player row is gone.
pub proof fn lemma_calls_keep_the_invariants(
    before: StoreView,
    ctx: ReducerContext,
    call: ReducerCall,
    after: StoreView,
)
    requires
        before.well_formed(),
        committed(before, ctx, call, after),
    ensures
        after.well_formed(),
        after.items == before.items,
        before.messages.len() <= after.messages.len(),
        after.messages.take(before.messages.len() as int) == before.messages,
        before.players.len() <= after.players.len(),
        forall|key: Seq<char>|
            has_key::<Player>(before.players, key) ==> #[trigger] has_key::<Player>(
                after.players,
                key,
            ),
{
    let id = ctx.sender@;
    let now = ctx.timestamp;
    match call {
        ReducerCall::Connect => {
            lemma_connected(before, id, now);
        },
        ReducerCall::Disconnect => {
            lemma_presence_set(before, id, false, now);
        },
        ReducerCall::Move(event) => {
            if has_key::<Player>(before.players, id) {
                lemma_move_keeps_one_row(before, id, event.x, event.y, now);
            }
        },
        ReducerCall::Chat(event) => {
            lemma_push_keeps_keys::<ChatMessage>(before.messages, after.messages.last());
        },
        ReducerCall::UseItem(item_id) => {
            lemma_item_used(before, id, item_id@);
        },
        ReducerCall::GetPlayerInfo => {},
        ReducerCall::GetOnlinePlayers => {},
    }
}

} // verus!
