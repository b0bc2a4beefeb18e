use crate::ids::MESSAGE_ID_CHARS;
use crate::model::{
    new_player, ChatMessage, ChatMessageView, Coord, Item, ItemView, Player, PlayerView,
};
use crate::store::StoreView;
use crate::table::{has_key, position};
use vstd::prelude::*;

verus! {

/// The longest chat message that is accepted, in characters.
pub const MAX_MESSAGE_CHARS: usize = 256;

/// A chat message is accepted if it is neither empty nor longer than
/// [`MAX_MESSAGE_CHARS`].
pub open spec fn valid_message(message: Seq<char>) -> bool {
    0 < message.len() <= MAX_MESSAGE_CHARS
}

/// The store after the row of `identity`, if there is one, was marked
/// online or offline at time `now`. All else stays as it is.
pub open spec fn presence_set(s: StoreView, identity: Seq<char>, online: bool, now: u64) -> StoreView {
    if has_key::<Player>(s.players, identity) {
        let at = position::<Player>(s.players, identity);
        StoreView {
            players: s.players.update(at, PlayerView { online, last_seen: now, ..s.players[at] }),
            ..s
        }
    } else {
        s
    }
}

/// The store after `identity` connected at time `now`: a known player is
/// online again, an unknown one gets a new row at the end of the table.
pub open spec fn connected(s: StoreView, identity: Seq<char>, now: u64) -> StoreView {
    if has_key::<Player>(s.players, identity) {
        presence_set(s, identity, true, now)
    } else {
        StoreView { players: s.players.push(new_player(identity, now)), ..s }
    }
}

/// The store after `identity` disconnected at time `now`: a known player
/// is offline, and for an unknown one nothing happens.
pub open spec fn disconnected(s: StoreView, identity: Seq<char>, now: u64) -> StoreView {
    presence_set(s, identity, false, now)
}

/// The store after the player `identity` moved to `(x, y)` at time `now`.
/// Without a row for `identity` nothing happens.
pub open spec fn moved(s: StoreView, identity: Seq<char>, x: Coord, y: Coord, now: u64) -> StoreView {
    if has_key::<Player>(s.players, identity) {
        let at = position::<Player>(s.players, identity);
        StoreView {
            players: s.players.update(at, PlayerView { x, y, last_seen: now, ..s.players[at] }),
            ..s
        }
    } else {
        s
    }
}

/// A stat after an item restored `gain` of it: the sum, held between zero
/// and `ceiling`. An item without a magnitude for the stat leaves it alone.
pub open spec fn restored(value: i32, ceiling: i32, gain: Option<i32>) -> i32 {
    match gain {
        None => value,
        Some(g) => if value + g > ceiling {
            ceiling
        } else if value + g < 0 {
            0
        } else {
            (value + g) as i32
        },
    }
}

/// A player after using `item`: health and mana are restored, nothing else
/// changes. Damage and armor are catalog data and play no part.
pub open spec fn item_applied(p: PlayerView, item: ItemView) -> PlayerView {
    PlayerView {
        health: restored(p.health, p.max_health, item.health),
        mana: restored(p.mana, p.max_mana, item.mana),
        ..p
    }
}

/// Whether `identity` can use the item `item_id`: both rows are there.
pub open spec fn can_use_item(s: StoreView, identity: Seq<char>, item_id: Seq<char>) -> bool {
    has_key::<Player>(s.players, identity) && has_key::<Item>(s.items, item_id)
}

/// The store after `identity` used the item `item_id`. Where the player or
/// the item is missing nothing happens.
pub open spec fn item_used(s: StoreView, identity: Seq<char>, item_id: Seq<char>) -> StoreView {
    if can_use_item(s, identity, item_id) {
        let at = position::<Player>(s.players, identity);
        let item = s.items[position::<Item>(s.items, item_id)];
        StoreView { players: s.players.update(at, item_applied(s.players[at], item)), ..s }
    } else {
        s
    }
}

/// The store after `row` was appended to the chat log.
pub open spec fn message_posted(s: StoreView, row: ChatMessageView) -> StoreView {
    StoreView { messages: s.messages.push(row), ..s }
}

/// Whether a message with the given id and text can be appended.
pub open spec fn can_post(s: StoreView, id: Seq<char>, message: Seq<char>) -> bool {
    valid_message(message) && !has_key::<ChatMessage>(s.messages, id)
}

/// No row of the log has an id as long as a generated id. A generated id
/// cannot be taken in such a log, whatever it is; the empty log is one.
pub open spec fn no_id_of_generated_length(messages: Seq<ChatMessageView>) -> bool {
    forall|i: int|
        0 <= i < messages.len() ==> (#[trigger] messages[i]).id.len() != MESSAGE_ID_CHARS
}

/// A potion that restores 50 health.
pub open spec fn health_potion_view() -> ItemView {
    ItemView {
        id: "health_potion"@,
        name: "Health Potion"@,
        description: "Restores 50 health points"@,
        item_type: "consumable"@,
        damage: None,
        armor: None,
        mana: None,
        health: Some(50i32),
        quality: "common"@,
        icon: "health_potion"@,
    }
}

/// A potion that restores 30 mana.
pub open spec fn mana_potion_view() -> ItemView {
    ItemView {
        id: "mana_potion"@,
        name: "Mana Potion"@,
        description: "Restores 30 mana points"@,
        item_type: "consumable"@,
        damage: None,
        armor: None,
        mana: Some(30i32),
        health: None,
        quality: "common"@,
        icon: "mana_potion"@,
    }
}

/// A sword that deals 15 damage.
pub open spec fn iron_sword_view() -> ItemView {
    ItemView {
        id: "iron_sword"@,
        name: "Iron Sword"@,
        description: "A basic iron sword"@,
        item_type: "weapon"@,
        damage: Some(15i32),
        armor: None,
        mana: None,
        health: None,
        quality: "common"@,
        icon: "iron_sword"@,
    }
}

/// The item catalog that every world starts with.
pub open spec fn catalog() -> Seq<ItemView> {
    seq![health_potion_view(), mana_potion_view(), iron_sword_view()]
}

/// The store after the catalog was seeded: an empty item table holds the
/// catalog, and one that holds anything is left alone.
pub open spec fn catalog_seeded(s: StoreView) -> StoreView {
    if s.items.len() == 0 {
        StoreView { items: catalog(), ..s }
    } else {
        s
    }
}

/// The players that are online, in table order.
pub open spec fn online_players(s: StoreView) -> Seq<PlayerView> {
    s.players.filter(|p: PlayerView| p.online)
}

/// The line that greets the player named `username`.
pub open spec fn greeting(username: Seq<char>) -> Seq<char> {
    "Hello, "@ + username + "!"@
}

} // verus!
