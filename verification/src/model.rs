use crate::table::Record;
use vstd::prelude::*;
use vstd::string::*;

verus! {

/// The bit pattern of the coordinate at which a new player stands: 100.0 in
/// IEEE 754 single precision.
pub const SPAWN_COORD_BITS: u32 = 0x42C8_0000;

/// Health, and the ceiling of health, of a new player.
pub const SPAWN_HEALTH: i32 = 100;

/// Mana, and the ceiling of mana, of a new player.
pub const SPAWN_MANA: i32 = 50;

/// The level of a new player.
pub const SPAWN_LEVEL: i32 = 1;

/// How many characters of the identity a new player's name takes over.
pub const USERNAME_TAG_CHARS: usize = 8;

/// One coordinate of a position: a single-precision number, kept as its
/// IEEE 754 bit pattern. The rules only store and hand back coordinates, so
/// the bits are all they need.
#[derive(Clone, Copy, Debug, PartialEq, Eq, Structural)]
pub struct Coord {
    pub bits: u32,
}

impl Coord {
    /// The coordinate with the given bit pattern.
    pub fn from_bits(bits: u32) -> (c: Coord)
        ensures
            c.bits == bits,
    {
        Coord { bits }
    }

    /// The coordinate's bit pattern.
    pub fn to_bits(&self) -> (bits: u32)
        ensures
            bits == self.bits,
    {
        self.bits
    }
}

/// Who calls a reducer, and when. The transport has authenticated the
/// caller and read the clock; the rules take both as given.
#[derive(Clone, Debug, PartialEq, Eq)]
pub struct ReducerContext {
    /// The caller's identity.
    pub sender: String,
    /// The time of the call, in seconds since the Unix epoch.
    pub timestamp: u64,
}

/// A player character. There is one row for each identity that ever
/// connected.
#[derive(Clone, Debug, PartialEq, Eq)]
pub struct Player {
    /// Primary key.
    pub identity: String,
    pub username: String,
    pub x: Coord,
    pub y: Coord,
    pub health: i32,
    pub max_health: i32,
    pub mana: i32,
    pub max_mana: i32,
    pub level: i32,
    pub experience: i32,
    pub gold: i32,
    pub online: bool,
    /// Seconds since the Unix epoch.
    pub last_seen: u64,
    pub world: String,
    pub party_id: Option<String>,
}

/// What a [`Player`] row holds, as a mathematical value.
pub struct PlayerView {
    pub identity: Seq<char>,
    pub username: Seq<char>,
    pub x: Coord,
    pub y: Coord,
    pub health: i32,
    pub max_health: i32,
    pub mana: i32,
    pub max_mana: i32,
    pub level: i32,
    pub experience: i32,
    pub gold: i32,
    pub online: bool,
    pub last_seen: u64,
    pub world: Seq<char>,
    pub party_id: Option<Seq<char>>,
}

impl PlayerView {
    /// Health and mana lie between zero and their ceilings.
    pub open spec fn within_bounds(self) -> bool {
        &&& 0 <= self.health <= self.max_health
        &&& 0 <= self.mana <= self.max_mana
    }
}

impl View for Player {
    type V = PlayerView;

    open spec fn view(&self) -> PlayerView {
        PlayerView {
            identity: self.identity@,
            username: self.username@,
            x: self.x,
            y: self.y,
            health: self.health,
            max_health: self.max_health,
            mana: self.mana,
            max_mana: self.max_mana,
            level: self.level,
            experience: self.experience,
            gold: self.gold,
            online: self.online,
            last_seen: self.last_seen,
            world: self.world@,
            party_id: match self.party_id {
                Some(p) => Some(p@),
                None => None,
            },
        }
    }
}

impl Record for Player {
    open spec fn key_of(v: PlayerView) -> Seq<char> {
        v.identity
    }

    fn key(&self) -> (k: &String) {
        &self.identity
    }

    fn duplicate(&self) -> (copy: Self) {
        Player {
            identity: self.identity.clone(),
            username: self.username.clone(),
            x: self.x,
            y: self.y,
            health: self.health,
            max_health: self.max_health,
            mana: self.mana,
            max_mana: self.max_mana,
            level: self.level,
            experience: self.experience,
            gold: self.gold,
            online: self.online,
            last_seen: self.last_seen,
            world: self.world.clone(),
            party_id: match &self.party_id {
                Some(p) => Some(p.clone()),
                None => None,
            },
        }
    }
}

/// The name that a new player gets: `Player_` and the first characters of
/// the identity, at most [`USERNAME_TAG_CHARS`] of them.
pub open spec fn default_username(identity: Seq<char>) -> Seq<char> {
    "Player_"@ + identity.take(
        if identity.len() < USERNAME_TAG_CHARS {
            identity.len() as int
        } else {
            USERNAME_TAG_CHARS as int
        },
    )
}

/// The row that a first connect creates for `identity` at time `now`.
pub open spec fn new_player(identity: Seq<char>, now: u64) -> PlayerView {
    PlayerView {
        identity,
        username: default_username(identity),
        x: Coord { bits: SPAWN_COORD_BITS },
        y: Coord { bits: SPAWN_COORD_BITS },
        health: SPAWN_HEALTH,
        max_health: SPAWN_HEALTH,
        mana: SPAWN_MANA,
        max_mana: SPAWN_MANA,
        level: SPAWN_LEVEL,
        experience: 0,
        gold: 0,
        online: true,
        last_seen: now,
        world: "default"@,
        party_id: None,
    }
}

impl Player {
    /// Whether health and mana lie between zero and their ceilings.
    pub fn is_within_bounds(&self) -> (b: bool)
        ensures
            b == self@.within_bounds(),
    {
        0 <= self.health && self.health <= self.max_health && 0 <= self.mana && self.mana
            <= self.max_mana
    }

    /// The row that a first connect creates for `identity` at time `now`.
    pub fn spawn(identity: &String, now: u64) -> (p: Player)
        ensures
            p@ == new_player(identity@, now),
    {
        let id = identity.as_str();
        let n = id.unicode_len();
        let k = if n < USERNAME_TAG_CHARS {
            n
        } else {
            USERNAME_TAG_CHARS
        };
        let username = String::from_str("Player_").concat(id.substring_char(0, k));
        Player {
            identity: identity.clone(),
            username,
            x: Coord { bits: SPAWN_COORD_BITS },
            y: Coord { bits: SPAWN_COORD_BITS },
            health: SPAWN_HEALTH,
            max_health: SPAWN_HEALTH,
            mana: SPAWN_MANA,
            max_mana: SPAWN_MANA,
            level: SPAWN_LEVEL,
            experience: 0,
            gold: 0,
            online: true,
            last_seen: now,
            world: String::from_str("default"),
            party_id: None,
        }
    }
}

/// An entry of the item catalog. Each of the four magnitudes is either
/// present or not applicable to the item; absence is not zero.
#[derive(Clone, Debug, PartialEq, Eq)]
pub struct Item {
    /// Primary key.
    pub id: String,
    pub name: String,
    pub description: String,
    pub item_type: String,
    pub damage: Option<i32>,
    pub armor: Option<i32>,
    /// Mana restored on use.
    pub mana: Option<i32>,
    /// Health restored on use.
    pub health: Option<i32>,
    pub quality: String,
    pub icon: String,
}

/// What an [`Item`] row holds, as a mathematical value.
pub struct ItemView {
    pub id: Seq<char>,
    pub name: Seq<char>,
    pub description: Seq<char>,
    pub item_type: Seq<char>,
    pub damage: Option<i32>,
    pub armor: Option<i32>,
    pub mana: Option<i32>,
    pub health: Option<i32>,
    pub quality: Seq<char>,
    pub icon: Seq<char>,
}

impl View for Item {
    type V = ItemView;

    open spec fn view(&self) -> ItemView {
        ItemView {
            id: self.id@,
            name: self.name@,
            description: self.description@,
            item_type: self.item_type@,
            damage: self.damage,
            armor: self.armor,
            mana: self.mana,
            health: self.health,
            quality: self.quality@,
            icon: self.icon@,
        }
    }
}

impl Record for Item {
    open spec fn key_of(v: ItemView) -> Seq<char> {
        v.id
    }

    fn key(&self) -> (k: &String) {
        &self.id
    }

    fn duplicate(&self) -> (copy: Self) {
        Item {
            id: self.id.clone(),
            name: self.name.clone(),
            description: self.description.clone(),
            item_type: self.item_type.clone(),
            damage: self.damage,
            armor: self.armor,
            mana: self.mana,
            health: self.health,
            quality: self.quality.clone(),
            icon: self.icon.clone(),
        }
    }
}

/// A line of the chat log. Rows are appended and never changed.
#[derive(Clone, Debug, PartialEq, Eq)]
pub struct ChatMessage {
    /// Primary key, generated when the message is accepted.
    pub id: String,
    pub sender_identity: String,
    pub message: String,
    pub channel: String,
    /// Seconds since the Unix epoch.
    pub timestamp: u64,
}

/// What a [`ChatMessage`] row holds, as a mathematical value.
pub struct ChatMessageView {
    pub id: Seq<char>,
    pub sender_identity: Seq<char>,
    pub message: Seq<char>,
    pub channel: Seq<char>,
    pub timestamp: u64,
}

impl View for ChatMessage {
    type V = ChatMessageView;

    open spec fn view(&self) -> ChatMessageView {
        ChatMessageView {
            id: self.id@,
            sender_identity: self.sender_identity@,
            message: self.message@,
            channel: self.channel@,
            timestamp: self.timestamp,
        }
    }
}

impl Record for ChatMessage {
    open spec fn key_of(v: ChatMessageView) -> Seq<char> {
        v.id
    }

    fn key(&self) -> (k: &String) {
        &self.id
    }

    fn duplicate(&self) -> (copy: Self) {
        ChatMessage {
            id: self.id.clone(),
            sender_identity: self.sender_identity.clone(),
            message: self.message.clone(),
            channel: self.channel.clone(),
            timestamp: self.timestamp,
        }
    }
}

/// A request to stand at a new position.
#[derive(Clone, Copy, Debug, PartialEq, Eq)]
pub struct PlayerMoveEvent {
    pub x: Coord,
    pub y: Coord,
}

/// A request to say something on a channel.
#[derive(Clone, Debug, PartialEq, Eq)]
pub struct ChatEvent {
    pub message: String,
    pub channel: String,
}

} // verus!
