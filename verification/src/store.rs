use crate::error::Error;
use crate::model::{ChatMessage, ChatMessageView, Item, ItemView, Player, PlayerView};
use crate::table::{distinct_keys, has_key, position, Table};
use vstd::prelude::*;

verus! {

/// What a [`Store`] holds, as a mathematical value: the views of the rows
/// of its three tables, each in table order.
pub struct StoreView {
    pub players: Seq<PlayerView>,
    pub items: Seq<ItemView>,
    pub messages: Seq<ChatMessageView>,
}

impl StoreView {
    /// In each table, no two rows share a primary key.
    pub open spec fn keys_are_distinct(self) -> bool {
        &&& distinct_keys::<Player>(self.players)
        &&& distinct_keys::<Item>(self.items)
        &&& distinct_keys::<ChatMessage>(self.messages)
    }

    /// Every player's health and mana lie between zero and their ceilings.
    pub open spec fn stats_within_bounds(self) -> bool {
        forall|i: int| 0 <= i < self.players.len() ==> (#[trigger] self.players[i]).within_bounds()
    }

    /// What holds of every store.
    pub open spec fn well_formed(self) -> bool {
        &&& self.keys_are_distinct()
        &&& self.stats_within_bounds()
    }
}

/// The world state: the players, the item catalog and the chat log. A store
/// is a value like any other; as many of them as needed can live side by
/// side, and a reducer works on the one it is handed.
pub struct Store {
    players: Table<Player>,
    items: Table<Item>,
    messages: Table<ChatMessage>,
}

impl View for Store {
    type V = StoreView;

    closed spec fn view(&self) -> StoreView {
        StoreView { players: self.players@, items: self.items@, messages: self.messages@ }
    }
}

impl Store {
    /// The store's view is well formed. This holds of every store at all
    /// times; `use_type_invariant` hands it to a proof.
    #[verifier::type_invariant]
    pub open spec fn is_well_formed(&self) -> bool {
        self@.well_formed()
    }

    /// A store with three empty tables.
    pub fn new() -> (s: Store)
        ensures
            s@ == (StoreView { players: Seq::empty(), items: Seq::empty(), messages: Seq::empty() }),
            s@.well_formed(),
    {
        Store { players: Table::new(), items: Table::new(), messages: Table::new() }
    }

    /// The store that holds the given rows, each table in the given order.
    /// Rows that break a bound on health or mana are refused first, rows
    /// that share a key after that.
    pub fn restore(
        players: Vec<Player>,
        items: Vec<Item>,
        messages: Vec<ChatMessage>,
    ) -> (r: Result<Store, Error>)
        ensures
            r is Ok <==> rows_view(players@, items@, messages@).well_formed(),
            r matches Ok(s) ==> s@ == rows_view(players@, items@, messages@),
            r matches Err(e) ==> e == restore_error(rows_view(players@, items@, messages@)),
    {
        let ghost v = rows_view(players@, items@, messages@);
        let mut i: usize = 0;
        while i < players.len()
            invariant
                i <= players.len(),
                v.players == players@.map_values(|p: Player| p@),
                forall|j: int| 0 <= j < i ==> (#[trigger] v.players[j]).within_bounds(),
            decreases players.len() - i,
        {
            if !players[i].is_within_bounds() {
                assert(!v.players[i as int].within_bounds());
                return Err(Error::ValidationError);
            }
            i += 1;
        }
        let players = match Table::from_rows(players) {
            Ok(t) => t,
            Err(e) => {
                return Err(e);
            },
        };
        let items = match Table::from_rows(items) {
            Ok(t) => t,
            Err(e) => {
                return Err(e);
            },
        };
        let messages = match Table::from_rows(messages) {
            Ok(t) => t,
            Err(e) => {
                return Err(e);
            },
        };
        Ok(Store { players, items, messages })
    }

    /// The table of players.
    pub fn players(&self) -> (t: &Table<Player>)
        ensures
            t@ == self@.players,
    {
        &self.players
    }

    /// The item catalog.
    pub fn items(&self) -> (t: &Table<Item>)
        ensures
            t@ == self@.items,
    {
        &self.items
    }

    /// The chat log.
    pub fn messages(&self) -> (t: &Table<ChatMessage>)
        ensures
            t@ == self@.messages,
    {
        &self.messages
    }

    /// Adds a player row, unless its identity is taken.
    pub(crate) fn add_player(&mut self, row: Player) -> (r: Result<(), Error>)
        requires
            row@.within_bounds(),
        ensures
            final(self)@.well_formed(),
            has_key::<Player>(old(self)@.players, row@.identity) ==> r == Err::<(), Error>(
                Error::DuplicateKey,
            ) && final(self)@ == old(self)@,
            !has_key::<Player>(old(self)@.players, row@.identity) ==> r == Ok::<(), Error>(())
                && final(self)@ == (StoreView {
                players: old(self)@.players.push(row@),
                ..old(self)@
            }),
    {
        proof {
            use_type_invariant(&*self);
        }
        let mut players = Table::new();
        std::mem::swap(&mut players, &mut self.players);
        let r = players.insert(row);
        proof {
            use_type_invariant(&players);
        }
        self.players = players;
        r
    }

    /// Puts `row` in the place of the row with the same identity.
    pub(crate) fn put_player(&mut self, row: Player) -> (r: Result<(), Error>)
        requires
            row@.within_bounds(),
        ensures
            final(self)@.well_formed(),
            has_key::<Player>(old(self)@.players, row@.identity) ==> r == Ok::<(), Error>(())
                && final(self)@ == (StoreView {
                players: old(self)@.players.update(
                    position::<Player>(old(self)@.players, row@.identity),
                    row@,
                ),
                ..old(self)@
            }),
            !has_key::<Player>(old(self)@.players, row@.identity) ==> r == Err::<(), Error>(
                Error::NotFound,
            ) && final(self)@ == old(self)@,
    {
        proof {
            use_type_invariant(&*self);
        }
        let mut players = Table::new();
        std::mem::swap(&mut players, &mut self.players);
        let key = row.identity.clone();
        let r = players.update(&key, row);
        proof {
            use_type_invariant(&players);
        }
        self.players = players;
        r
    }

    /// Adds a catalog entry, unless its id is taken.
    pub(crate) fn add_item(&mut self, row: Item) -> (r: Result<(), Error>)
        ensures
            final(self)@.well_formed(),
            has_key::<Item>(old(self)@.items, row@.id) ==> r == Err::<(), Error>(Error::DuplicateKey)
                && final(self)@ == old(self)@,
            !has_key::<Item>(old(self)@.items, row@.id) ==> r == Ok::<(), Error>(()) && final(self)@
                == (StoreView { items: old(self)@.items.push(row@), ..old(self)@ }),
    {
        proof {
            use_type_invariant(&*self);
        }
        let mut items = Table::new();
        std::mem::swap(&mut items, &mut self.items);
        let r = items.insert(row);
        proof {
            use_type_invariant(&items);
        }
        self.items = items;
        r
    }

    /// Appends a chat message, unless its id is taken.
    pub(crate) fn add_message(&mut self, row: ChatMessage) -> (r: Result<(), Error>)
        ensures
            final(self)@.well_formed(),
            has_key::<ChatMessage>(old(self)@.messages, row@.id) ==> r == Err::<(), Error>(
                Error::DuplicateKey,
            ) && final(self)@ == old(self)@,
            !has_key::<ChatMessage>(old(self)@.messages, row@.id) ==> r == Ok::<(), Error>(())
                && final(self)@ == (StoreView {
                messages: old(self)@.messages.push(row@),
                ..old(self)@
            }),
    {
        proof {
            use_type_invariant(&*self);
        }
        let mut messages = Table::new();
        std::mem::swap(&mut messages, &mut self.messages);
        let r = messages.insert(row);
        proof {
            use_type_invariant(&messages);
        }
        self.messages = messages;
        r
    }
}

/// The error with which [`Store::restore`] refuses rows whose view `v` is
/// not well formed.
pub open spec fn restore_error(v: StoreView) -> Error {
    if !v.stats_within_bounds() {
        Error::ValidationError
    } else {
        Error::DuplicateKey
    }
}

/// The view of a store that holds exactly the given rows.
pub open spec fn rows_view(
    players: Seq<Player>,
    items: Seq<Item>,
    messages: Seq<ChatMessage>,
) -> StoreView {
    StoreView {
        players: players.map_values(|p: Player| p@),
        items: items.map_values(|i: Item| i@),
        messages: messages.map_values(|m: ChatMessage| m@),
    }
}

} // verus!
