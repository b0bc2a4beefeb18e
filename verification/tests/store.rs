use frostfire_game::{
    ChatEvent, ChatMessage, Coord, Error, Executor, Item, Player, PlayerMoveEvent, ReducerCall,
    ReducerContext, Reply, Store,
};

fn ctx(sender: &str, timestamp: u64) -> ReducerContext {
    ReducerContext { sender: sender.to_string(), timestamp }
}

fn rows(store: &Store) -> (Vec<Player>, Vec<Item>, Vec<ChatMessage>) {
    (
        store.players().iterate(|_| true),
        store.items().iterate(|_| true),
        store.messages().iterate(|_| true),
    )
}

fn with_stats(identity: &str, health: i32, max_health: i32, mana: i32, max_mana: i32) -> Player {
    let mut p = Player::spawn(&identity.to_string(), 1);
    p.health = health;
    p.max_health = max_health;
    p.mana = mana;
    p.max_mana = max_mana;
    p
}

fn note(id: &str) -> ChatMessage {
    ChatMessage {
        id: id.to_string(),
        sender_identity: "A".to_string(),
        message: "hi".to_string(),
        channel: "global".to_string(),
        timestamp: 3,
    }
}

fn trinket(id: &str) -> Item {
    Item {
        id: id.to_string(),
        name: id.to_string(),
        description: String::new(),
        item_type: "misc".to_string(),
        damage: None,
        armor: Some(1),
        mana: None,
        health: None,
        quality: "rare".to_string(),
        icon: id.to_string(),
    }
}

fn refusal(r: Result<Store, Error>) -> Error {
    match r {
        Ok(_) => panic!("accepted"),
        Err(e) => e,
    }
}

#[test]
fn new_store_is_empty() {
    let store = Store::new();
    assert_eq!(rows(&store), (Vec::new(), Vec::new(), Vec::new()));
}

#[test]
fn restore_holds_the_rows_in_their_order() {
    let p = vec![with_stats("B", 0, 0, 0, 0), with_stats("A", 5, 10, 50, 50)];
    let i = vec![trinket("ring"), trinket("amulet")];
    let m = vec![note("2"), note("1")];
    let store = Store::restore(p.clone(), i.clone(), m.clone()).unwrap();
    assert_eq!(rows(&store), (p, i, m));
}

#[test]
fn restore_refuses_stats_out_of_bounds() {
    for bad in [
        with_stats("A", 101, 100, 0, 50),
        with_stats("A", -1, 100, 0, 50),
        with_stats("A", 0, 100, 51, 50),
        with_stats("A", 0, 100, -1, 50),
        with_stats("A", 0, -1, 0, 50),
    ] {
        let r = Store::restore(vec![with_stats("B", 1, 1, 1, 1), bad], Vec::new(), Vec::new());
        assert_eq!(refusal(r), Error::ValidationError);
    }
}

#[test]
fn restore_refuses_rows_that_share_a_key() {
    let two = vec![with_stats("A", 1, 1, 1, 1), with_stats("A", 2, 2, 2, 2)];
    assert_eq!(refusal(Store::restore(two, Vec::new(), Vec::new())), Error::DuplicateKey);
    let i = vec![trinket("ring"), trinket("ring")];
    assert_eq!(refusal(Store::restore(Vec::new(), i, Vec::new())), Error::DuplicateKey);
    let m = vec![note("1"), note("2"), note("1")];
    assert_eq!(refusal(Store::restore(Vec::new(), Vec::new(), m)), Error::DuplicateKey);
}

#[test]
fn restore_reports_stats_before_keys() {
    let p = vec![with_stats("A", 1, 1, 1, 1), with_stats("A", 2, 2, 2, 2), with_stats("C", 3, 2, 0, 0)];
    assert_eq!(refusal(Store::restore(p, Vec::new(), Vec::new())), Error::ValidationError);
}

#[test]
fn executor_seeds_the_catalog_before_the_first_call() {
    let e = Executor::new();
    let (players, items, messages) = rows(e.store());
    assert!(players.is_empty());
    assert!(messages.is_empty());
    let ids: Vec<&str> = items.iter().map(|i| i.id.as_str()).collect();
    assert_eq!(ids, vec!["health_potion", "mana_potion", "iron_sword"]);
    let kept = Executor::with_store(Store::restore(Vec::new(), vec![trinket("ring")], Vec::new()).unwrap());
    assert_eq!(rows(kept.store()).1, vec![trinket("ring")]);
}

#[test]
fn executor_runs_each_reducer() {
    let mut e = Executor::new();
    assert_eq!(e.execute(&ctx("A", 1), ReducerCall::Connect), Ok(Reply::Done));
    assert_eq!(e.execute(&ctx("B", 2), ReducerCall::Connect), Ok(Reply::Done));
    let to = PlayerMoveEvent {
        x: Coord::from_bits(150.0f32.to_bits()),
        y: Coord::from_bits(200.0f32.to_bits()),
    };
    assert_eq!(e.execute(&ctx("A", 3), ReducerCall::Move(to)), Ok(Reply::Done));
    assert_eq!(
        e.execute(&ctx("A", 4), ReducerCall::UseItem("mana_potion".to_string())),
        Ok(Reply::Done)
    );
    let hi = ChatEvent { message: "hi".to_string(), channel: "global".to_string() };
    assert_eq!(e.execute(&ctx("A", 5), ReducerCall::Chat(hi)), Ok(Reply::Done));
    assert_eq!(e.execute(&ctx("B", 6), ReducerCall::Disconnect), Ok(Reply::Done));

    let mut a = Player::spawn(&"A".to_string(), 1);
    a.x = to.x;
    a.y = to.y;
    a.last_seen = 3;
    let mut b = Player::spawn(&"B".to_string(), 2);
    b.online = false;
    b.last_seen = 6;
    assert_eq!(e.execute(&ctx("A", 7), ReducerCall::GetPlayerInfo), Ok(Reply::PlayerInfo(a.clone())));
    assert_eq!(e.execute(&ctx("B", 7), ReducerCall::GetPlayerInfo), Ok(Reply::PlayerInfo(b.clone())));
    assert_eq!(
        e.execute(&ctx("nobody", 7), ReducerCall::GetOnlinePlayers),
        Ok(Reply::OnlinePlayers(vec![a.clone()]))
    );
    let store = e.into_store();
    let (players, items, messages) = rows(&store);
    assert_eq!(players, vec![a, b]);
    assert_eq!(items.len(), 3);
    assert_eq!(messages.len(), 1);
    assert_eq!(messages[0].timestamp, 5);
}

#[test]
fn a_call_that_fails_leaves_the_store_as_it_was() {
    let mut e = Executor::new();
    e.execute(&ctx("A", 1), ReducerCall::Connect).unwrap();
    let hi = ChatEvent { message: "hi".to_string(), channel: "global".to_string() };
    e.execute(&ctx("A", 2), ReducerCall::Chat(hi)).unwrap();
    let before = rows(e.store());
    let to = PlayerMoveEvent { x: Coord::from_bits(1), y: Coord::from_bits(2) };
    assert_eq!(e.execute(&ctx("B", 3), ReducerCall::Move(to)), Err(Error::NotFound));
    assert_eq!(
        e.execute(&ctx("A", 3), ReducerCall::UseItem("nonexistent".to_string())),
        Err(Error::NotFound)
    );
    assert_eq!(
        e.execute(&ctx("B", 3), ReducerCall::UseItem("health_potion".to_string())),
        Err(Error::NotFound)
    );
    let empty = ChatEvent { message: String::new(), channel: "global".to_string() };
    assert_eq!(e.execute(&ctx("A", 3), ReducerCall::Chat(empty)), Err(Error::ValidationError));
    assert_eq!(e.execute(&ctx("B", 3), ReducerCall::GetPlayerInfo), Err(Error::NotFound));
    assert_eq!(e.execute(&ctx("B", 3), ReducerCall::Disconnect), Ok(Reply::Done));
    assert_eq!(rows(e.store()), before);
}

#[test]
fn each_error_has_its_words() {
    assert_eq!(Error::DuplicateKey.message(), "duplicate key");
    assert_eq!(Error::NotFound.message(), "not found");
    assert_eq!(Error::ValidationError.message(), "validation error");
    assert_eq!(Error::InternalError.message(), "internal error");
}

#[test]
fn executor_chat_on_a_new_world_goes_through() {
    let mut e = Executor::new();
    let hi = ChatEvent { message: "hi".to_string(), channel: "global".to_string() };
    assert_eq!(e.execute(&ctx("A", 8), ReducerCall::Chat(hi)), Ok(Reply::Done));
    let (_, _, log) = rows(e.store());
    assert_eq!(log.len(), 1);
    assert_eq!(log[0].sender_identity, "A");
    assert_eq!(log[0].message, "hi");
    assert_eq!(log[0].channel, "global");
    assert_eq!(log[0].timestamp, 8);
}
