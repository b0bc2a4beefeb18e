use frostfire_game::{
    get_online_players, get_player_info, identity_connected, identity_disconnected, init,
    is_valid_message, player_chat, player_disconnect, player_join, player_move, post_message,
    say_hello, use_item, ChatEvent, ChatMessage, Coord, Error, Item, Player, PlayerMoveEvent,
    ReducerContext, Store,
};

fn ctx(sender: &str, timestamp: u64) -> ReducerContext {
    ReducerContext { sender: sender.to_string(), timestamp }
}

fn at(x: f32, y: f32) -> PlayerMoveEvent {
    PlayerMoveEvent { x: Coord::from_bits(x.to_bits()), y: Coord::from_bits(y.to_bits()) }
}

fn say(message: &str, channel: &str) -> ChatEvent {
    ChatEvent { message: message.to_string(), channel: channel.to_string() }
}

fn players(store: &Store) -> Vec<Player> {
    store.players().iterate(|_| true)
}

fn items(store: &Store) -> Vec<Item> {
    store.items().iterate(|_| true)
}

fn messages(store: &Store) -> Vec<ChatMessage> {
    store.messages().iterate(|_| true)
}

fn player(store: &Store, identity: &str) -> Player {
    match store.players().get(&identity.to_string()) {
        Some(p) => p.clone(),
        None => panic!("no row for {}", identity),
    }
}

fn world() -> Store {
    let mut store = Store::new();
    init(&mut store);
    store
}

fn world_with(rows: Vec<Player>) -> Store {
    let catalog = items(&world());
    match Store::restore(rows, catalog, Vec::new()) {
        Ok(s) => s,
        Err(e) => panic!("refused: {:?}", e),
    }
}

fn hurt(identity: &str, health: i32, mana: i32) -> Player {
    let mut p = Player::spawn(&identity.to_string(), 1);
    p.health = health;
    p.mana = mana;
    p
}

#[test]
fn init_seeds_the_three_catalog_entries() {
    let store = world();
    let expected = vec![
        Item {
            id: "health_potion".to_string(),
            name: "Health Potion".to_string(),
            description: "Restores 50 health points".to_string(),
            item_type: "consumable".to_string(),
            damage: None,
            armor: None,
            mana: None,
            health: Some(50),
            quality: "common".to_string(),
            icon: "health_potion".to_string(),
        },
        Item {
            id: "mana_potion".to_string(),
            name: "Mana Potion".to_string(),
            description: "Restores 30 mana points".to_string(),
            item_type: "consumable".to_string(),
            damage: None,
            armor: None,
            mana: Some(30),
            health: None,
            quality: "common".to_string(),
            icon: "mana_potion".to_string(),
        },
        Item {
            id: "iron_sword".to_string(),
            name: "Iron Sword".to_string(),
            description: "A basic iron sword".to_string(),
            item_type: "weapon".to_string(),
            damage: Some(15),
            armor: None,
            mana: None,
            health: None,
            quality: "common".to_string(),
            icon: "iron_sword".to_string(),
        },
    ];
    assert_eq!(items(&store), expected);
    assert!(players(&store).is_empty());
    assert!(messages(&store).is_empty());
}

#[test]
fn init_twice_yields_three_items_and_not_six() {
    let mut store = Store::new();
    init(&mut store);
    let once = items(&store);
    init(&mut store);
    assert_eq!(store.items().len(), 3);
    assert_eq!(items(&store), once);
}

#[test]
fn init_leaves_a_catalog_that_holds_anything_alone() {
    let only = Item {
        id: "bread".to_string(),
        name: "Bread".to_string(),
        description: String::new(),
        item_type: "consumable".to_string(),
        damage: None,
        armor: None,
        mana: None,
        health: Some(5),
        quality: "common".to_string(),
        icon: "bread".to_string(),
    };
    let mut store = Store::restore(Vec::new(), vec![only.clone()], Vec::new()).unwrap();
    init(&mut store);
    assert_eq!(items(&store), vec![only]);
}

#[test]
fn first_connect_creates_the_default_row() {
    let mut store = world();
    identity_connected(&mut store, &ctx("c200a1b2c3d4e5f6", 1700000000));
    let expected = Player {
        identity: "c200a1b2c3d4e5f6".to_string(),
        username: "Player_c200a1b2".to_string(),
        x: Coord::from_bits(100.0f32.to_bits()),
        y: Coord::from_bits(100.0f32.to_bits()),
        health: 100,
        max_health: 100,
        mana: 50,
        max_mana: 50,
        level: 1,
        experience: 0,
        gold: 0,
        online: true,
        last_seen: 1700000000,
        world: "default".to_string(),
        party_id: None,
    };
    assert_eq!(players(&store), vec![expected]);
    assert_eq!(store.items().len(), 3);
    assert!(messages(&store).is_empty());
}

#[test]
fn spawn_coordinate_is_one_hundred() {
    let p = Player::spawn(&"A".to_string(), 0);
    assert_eq!(f32::from_bits(p.x.to_bits()), 100.0);
    assert_eq!(f32::from_bits(p.y.to_bits()), 100.0);
    assert_eq!(p.x.bits, 0x42C8_0000);
}

#[test]
fn username_takes_at_most_eight_characters_of_the_identity() {
    assert_eq!(Player::spawn(&"A".to_string(), 0).username, "Player_A");
    assert_eq!(Player::spawn(&"".to_string(), 0).username, "Player_");
    assert_eq!(Player::spawn(&"12345678".to_string(), 0).username, "Player_12345678");
    assert_eq!(Player::spawn(&"123456789".to_string(), 0).username, "Player_12345678");
    assert_eq!(Player::spawn(&"äöüßäöüßäöüß".to_string(), 0).username, "Player_äöüßäöüß");
}

#[test]
fn connect_twice_leaves_one_row_that_is_online() {
    let mut store = world();
    identity_connected(&mut store, &ctx("A", 10));
    assert_eq!(store.players().len(), 1);
    assert!(player(&store, "A").online);
    identity_connected(&mut store, &ctx("A", 20));
    assert_eq!(store.players().len(), 1);
    let row = player(&store, "A");
    assert!(row.online);
    assert_eq!(row.last_seen, 20);
    let mut first = Player::spawn(&"A".to_string(), 10);
    first.last_seen = 20;
    assert_eq!(row, first);
}

#[test]
fn connects_of_two_identities_make_two_rows_in_order() {
    let mut store = world();
    assert_eq!(player_join(&mut store, &ctx("A", 1)), Ok(()));
    assert_eq!(player_join(&mut store, &ctx("B", 2)), Ok(()));
    assert_eq!(player_join(&mut store, &ctx("A", 3)), Ok(()));
    let rows = players(&store);
    assert_eq!(rows.len(), 2);
    assert_eq!(rows[0].identity, "A");
    assert_eq!(rows[0].last_seen, 3);
    assert_eq!(rows[1].identity, "B");
    assert_eq!(rows[1].last_seen, 2);
}

#[test]
fn disconnect_marks_the_row_offline_and_keeps_the_rest() {
    let mut store = world();
    identity_connected(&mut store, &ctx("A", 10));
    player_move(&mut store, &ctx("A", 11), at(3.5, -2.0)).unwrap();
    let before = player(&store, "A");
    identity_disconnected(&mut store, &ctx("A", 12));
    let mut expected = before;
    expected.online = false;
    expected.last_seen = 12;
    assert_eq!(players(&store), vec![expected]);
}

#[test]
fn disconnect_of_an_identity_that_never_connected_is_a_noop() {
    let mut store = world();
    identity_connected(&mut store, &ctx("A", 10));
    let before = (players(&store), items(&store), messages(&store));
    identity_disconnected(&mut store, &ctx("B", 11));
    assert_eq!(player_disconnect(&mut store, &ctx("C", 12)), Ok(()));
    assert_eq!((players(&store), items(&store), messages(&store)), before);
    assert!(store.players().get(&"B".to_string()).is_none());
}

#[test]
fn reconnect_reuses_the_row_and_keeps_the_position() {
    let mut store = world();
    identity_connected(&mut store, &ctx("A", 1));
    player_move(&mut store, &ctx("A", 2), at(150.0, 200.0)).unwrap();
    assert_eq!(player_disconnect(&mut store, &ctx("A", 3)), Ok(()));
    assert!(!player(&store, "A").online);
    identity_connected(&mut store, &ctx("A", 4));
    let row = player(&store, "A");
    assert!(row.online);
    assert_eq!(row.last_seen, 4);
    assert_eq!(f32::from_bits(row.x.bits), 150.0);
    assert_eq!(f32::from_bits(row.y.bits), 200.0);
    assert_eq!(store.players().len(), 1);
}

#[test]
fn move_sets_the_position_and_adds_no_row() {
    let mut store = world();
    identity_connected(&mut store, &ctx("A", 1));
    identity_connected(&mut store, &ctx("B", 1));
    assert_eq!(player_move(&mut store, &ctx("A", 5), at(150.0, 200.0)), Ok(()));
    assert_eq!(store.players().len(), 2);
    let mut expected = Player::spawn(&"A".to_string(), 1);
    expected.x = Coord::from_bits(150.0f32.to_bits());
    expected.y = Coord::from_bits(200.0f32.to_bits());
    expected.last_seen = 5;
    assert_eq!(players(&store), vec![expected, Player::spawn(&"B".to_string(), 1)]);
}

#[test]
fn move_keeps_stats_that_differ_from_the_defaults() {
    let mut row = hurt("A", 37, 12);
    row.level = 9;
    row.gold = 250;
    row.online = false;
    row.party_id = Some("wolves".to_string());
    let mut store = world_with(vec![row.clone()]);
    assert_eq!(player_move(&mut store, &ctx("A", 77), at(-1.25, 0.0)), Ok(()));
    row.x = Coord::from_bits((-1.25f32).to_bits());
    row.y = Coord::from_bits(0.0f32.to_bits());
    row.last_seen = 77;
    assert_eq!(players(&store), vec![row]);
}

#[test]
fn move_of_a_caller_without_a_row_is_not_found() {
    let mut store = world();
    identity_connected(&mut store, &ctx("A", 1));
    let before = players(&store);
    assert_eq!(player_move(&mut store, &ctx("B", 2), at(1.0, 2.0)), Err(Error::NotFound));
    assert_eq!(players(&store), before);
}

#[test]
fn health_potion_is_clamped_to_the_ceiling() {
    let mut store = world_with(vec![hurt("A", 80, 50)]);
    assert_eq!(use_item(&mut store, &ctx("A", 9), "health_potion".to_string()), Ok(()));
    assert_eq!(players(&store), vec![hurt("A", 100, 50)]);
}

#[test]
fn health_potion_adds_fifty_below_the_ceiling() {
    let mut store = world_with(vec![hurt("A", 20, 7)]);
    assert_eq!(use_item(&mut store, &ctx("A", 9), "health_potion".to_string()), Ok(()));
    assert_eq!(players(&store), vec![hurt("A", 70, 7)]);
    assert_eq!(use_item(&mut store, &ctx("A", 9), "health_potion".to_string()), Ok(()));
    assert_eq!(players(&store), vec![hurt("A", 100, 7)]);
}

#[test]
fn mana_potion_adds_thirty_and_is_clamped() {
    let mut store = world_with(vec![hurt("A", 20, 10)]);
    assert_eq!(use_item(&mut store, &ctx("A", 9), "mana_potion".to_string()), Ok(()));
    assert_eq!(players(&store), vec![hurt("A", 20, 40)]);
    assert_eq!(use_item(&mut store, &ctx("A", 9), "mana_potion".to_string()), Ok(()));
    assert_eq!(players(&store), vec![hurt("A", 20, 50)]);
}

#[test]
fn iron_sword_restores_nothing() {
    let mut store = world_with(vec![hurt("A", 20, 10)]);
    assert_eq!(use_item(&mut store, &ctx("A", 9), "iron_sword".to_string()), Ok(()));
    assert_eq!(players(&store), vec![hurt("A", 20, 10)]);
}

#[test]
fn use_of_an_unknown_item_is_not_found_and_changes_nothing() {
    let mut store = world_with(vec![hurt("A", 80, 10), hurt("B", 1, 1)]);
    let before = (players(&store), items(&store), messages(&store));
    assert_eq!(use_item(&mut store, &ctx("A", 9), "nonexistent".to_string()), Err(Error::NotFound));
    assert_eq!((players(&store), items(&store), messages(&store)), before);
}

#[test]
fn use_of_an_item_without_a_row_is_not_found() {
    let mut store = world_with(vec![hurt("A", 80, 10)]);
    let before = players(&store);
    assert_eq!(use_item(&mut store, &ctx("B", 9), "health_potion".to_string()), Err(Error::NotFound));
    assert_eq!(use_item(&mut store, &ctx("B", 9), "nonexistent".to_string()), Err(Error::NotFound));
    assert_eq!(players(&store), before);
}

#[test]
fn an_item_that_takes_away_stops_at_zero() {
    let poison = Item {
        id: "poison".to_string(),
        name: "Poison".to_string(),
        description: String::new(),
        item_type: "consumable".to_string(),
        damage: None,
        armor: None,
        mana: Some(i32::MIN),
        health: Some(-30),
        quality: "common".to_string(),
        icon: "poison".to_string(),
    };
    let feast = Item {
        id: "feast".to_string(),
        health: Some(i32::MAX),
        mana: Some(i32::MAX),
        ..poison.clone()
    };
    let mut store =
        Store::restore(vec![hurt("A", 20, 10), hurt("B", 45, 2)], vec![poison, feast], Vec::new())
            .unwrap();
    assert_eq!(use_item(&mut store, &ctx("A", 9), "poison".to_string()), Ok(()));
    assert_eq!(use_item(&mut store, &ctx("B", 9), "poison".to_string()), Ok(()));
    assert_eq!(players(&store), vec![hurt("A", 0, 0), hurt("B", 15, 0)]);
    assert_eq!(use_item(&mut store, &ctx("A", 9), "feast".to_string()), Ok(()));
    assert_eq!(players(&store), vec![hurt("A", 100, 50), hurt("B", 15, 0)]);
}

#[test]
fn chat_appends_rows_with_distinct_ids() {
    let mut store = world();
    let n = 25;
    for k in 0..n {
        let channel = if k % 2 == 0 { "global" } else { " Trade/β " };
        assert_eq!(player_chat(&mut store, &ctx("A", 100 + k), say("hi", channel)), Ok(()));
    }
    let log = messages(&store);
    assert_eq!(log.len(), 25);
    for (k, row) in log.iter().enumerate() {
        assert_eq!(row.sender_identity, "A");
        assert_eq!(row.message, "hi");
        assert_eq!(row.channel, if k % 2 == 0 { "global" } else { " Trade/β " });
        assert_eq!(row.timestamp, 100 + k as u64);
        for other in &log[..k] {
            assert_ne!(row.id, other.id);
        }
    }
}

#[test]
fn chat_ids_are_random_uuids_in_hyphenated_form() {
    let mut store = world();
    player_chat(&mut store, &ctx("A", 1), say("hi", "global")).unwrap();
    let id = messages(&store)[0].id.clone();
    assert_eq!(id.chars().count(), 36);
    let parsed = match uuid::Uuid::parse_str(&id) {
        Ok(u) => u,
        Err(e) => panic!("{} is no uuid: {}", id, e),
    };
    assert_eq!(parsed.get_version_num(), 4);
    assert_eq!(parsed.hyphenated().to_string(), id);
}

#[test]
fn chat_needs_no_player_row_and_touches_neither_players_nor_items() {
    let mut store = world();
    identity_connected(&mut store, &ctx("A", 1));
    let before = (players(&store), items(&store));
    assert_eq!(player_chat(&mut store, &ctx("stranger", 2), say("hello", "global")), Ok(()));
    assert_eq!((players(&store), items(&store)), before);
    assert_eq!(store.messages().len(), 1);
}

#[test]
fn empty_chat_message_is_a_validation_error() {
    let mut store = world();
    assert_eq!(player_chat(&mut store, &ctx("A", 1), say("", "global")), Err(Error::ValidationError));
    assert!(messages(&store).is_empty());
    assert_eq!(
        post_message(&mut store, &ctx("A", 1), "id".to_string(), say("", "global")),
        Err(Error::ValidationError)
    );
    assert!(messages(&store).is_empty());
}

#[test]
fn chat_message_length_is_counted_in_characters() {
    let mut store = world();
    let longest = "ß".repeat(256);
    let too_long = "ß".repeat(257);
    assert!(is_valid_message(&longest));
    assert!(!is_valid_message(&too_long));
    assert!(is_valid_message(&"x".to_string()));
    assert!(!is_valid_message(&String::new()));
    assert_eq!(player_chat(&mut store, &ctx("A", 1), say(&longest, "global")), Ok(()));
    assert_eq!(
        player_chat(&mut store, &ctx("A", 2), say(&too_long, "global")),
        Err(Error::ValidationError)
    );
    let log = messages(&store);
    assert_eq!(log.len(), 1);
    assert_eq!(log[0].message, longest);
}

#[test]
fn post_message_appends_the_row_as_given() {
    let mut store = world();
    assert_eq!(post_message(&mut store, &ctx("A", 5), "m-1".to_string(), say("hi", "global")), Ok(()));
    assert_eq!(post_message(&mut store, &ctx("B", 6), "m-2".to_string(), say("yo", "trade")), Ok(()));
    let expected = vec![
        ChatMessage {
            id: "m-1".to_string(),
            sender_identity: "A".to_string(),
            message: "hi".to_string(),
            channel: "global".to_string(),
            timestamp: 5,
        },
        ChatMessage {
            id: "m-2".to_string(),
            sender_identity: "B".to_string(),
            message: "yo".to_string(),
            channel: "trade".to_string(),
            timestamp: 6,
        },
    ];
    assert_eq!(messages(&store), expected);
}

#[test]
fn post_message_under_a_taken_id_is_an_internal_error() {
    let mut store = world();
    post_message(&mut store, &ctx("A", 5), "m-1".to_string(), say("hi", "global")).unwrap();
    let before = messages(&store);
    assert_eq!(
        post_message(&mut store, &ctx("B", 6), "m-1".to_string(), say("yo", "trade")),
        Err(Error::InternalError)
    );
    assert_eq!(messages(&store), before);
    assert_eq!(
        post_message(&mut store, &ctx("B", 6), "m-1".to_string(), say("", "trade")),
        Err(Error::ValidationError)
    );
}

#[test]
fn player_info_is_a_copy_of_the_row() {
    let mut store = world_with(vec![hurt("A", 80, 10), hurt("B", 1, 1)]);
    assert_eq!(get_player_info(&store, &ctx("B", 9)), Ok(hurt("B", 1, 1)));
    assert_eq!(get_player_info(&store, &ctx("A", 9)), Ok(hurt("A", 80, 10)));
    let copy = get_player_info(&store, &ctx("A", 9)).unwrap();
    player_move(&mut store, &ctx("A", 10), at(1.0, 1.0)).unwrap();
    assert_eq!(copy, hurt("A", 80, 10));
}

#[test]
fn player_info_of_an_unknown_caller_is_not_found() {
    let store = world_with(vec![hurt("A", 80, 10)]);
    assert_eq!(get_player_info(&store, &ctx("B", 9)), Err(Error::NotFound));
    assert_eq!(get_player_info(&world(), &ctx("A", 9)), Err(Error::NotFound));
}

#[test]
fn online_players_are_listed_in_table_order() {
    let mut store = world();
    assert!(get_online_players(&store).is_empty());
    identity_connected(&mut store, &ctx("A", 1));
    identity_connected(&mut store, &ctx("B", 2));
    identity_connected(&mut store, &ctx("C", 3));
    identity_disconnected(&mut store, &ctx("B", 4));
    let online = get_online_players(&store);
    assert_eq!(online, vec![Player::spawn(&"A".to_string(), 1), Player::spawn(&"C".to_string(), 3)]);
    identity_disconnected(&mut store, &ctx("A", 5));
    identity_connected(&mut store, &ctx("B", 6));
    let names: Vec<String> = get_online_players(&store).into_iter().map(|p| p.identity).collect();
    assert_eq!(names, vec!["B", "C"]);
    assert_eq!(store.players().len(), 3);
}

#[test]
fn say_hello_greets_each_online_player() {
    let mut store = world();
    assert!(say_hello(&store).is_empty());
    identity_connected(&mut store, &ctx("alice-0001", 1));
    identity_connected(&mut store, &ctx("bob", 2));
    identity_connected(&mut store, &ctx("carol-0003", 3));
    identity_disconnected(&mut store, &ctx("bob", 4));
    assert_eq!(say_hello(&store), vec!["Hello, Player_alice-00!", "Hello, Player_carol-00!"]);
}

#[test]
fn scenario_walkthrough() {
    let mut store = world();
    identity_connected(&mut store, &ctx("A", 1));
    let row = player(&store, "A");
    assert_eq!(f32::from_bits(row.x.bits), 100.0);
    assert_eq!(f32::from_bits(row.y.bits), 100.0);
    assert_eq!((row.health, row.mana, row.online), (100, 50, true));

    assert_eq!(player_move(&mut store, &ctx("A", 2), at(150.0, 200.0)), Ok(()));
    let row = player(&store, "A");
    assert_eq!(f32::from_bits(row.x.bits), 150.0);
    assert_eq!(f32::from_bits(row.y.bits), 200.0);
    assert_eq!(store.players().len(), 1);

    let mut preset = row.clone();
    preset.health = 80;
    let mut store = Store::restore(vec![preset], items(&store), messages(&store)).unwrap();
    assert_eq!(use_item(&mut store, &ctx("A", 3), "health_potion".to_string()), Ok(()));
    assert_eq!(player(&store, "A").health, 100);

    assert_eq!(use_item(&mut store, &ctx("A", 4), "nonexistent".to_string()), Err(Error::NotFound));
    assert_eq!(player(&store, "A").health, 100);

    assert_eq!(player_chat(&mut store, &ctx("A", 5), say("hi", "global")), Ok(()));
    let log = messages(&store);
    assert_eq!(log.len(), 1);
    assert_eq!((log[0].message.as_str(), log[0].channel.as_str()), ("hi", "global"));
    assert_eq!(log[0].id.len(), 36);

    identity_disconnected(&mut store, &ctx("A", 6));
    assert!(!player(&store, "A").online);
    identity_connected(&mut store, &ctx("A", 7));
    let row = player(&store, "A");
    assert!(row.online);
    assert_eq!(f32::from_bits(row.x.bits), 150.0);
    assert_eq!(f32::from_bits(row.y.bits), 200.0);
    assert_eq!(store.players().len(), 1);
}

#[test]
fn chat_on_an_empty_log_goes_through() {
    let mut store = Store::new();
    identity_connected(&mut store, &ctx("A", 1));
    assert_eq!(player_chat(&mut store, &ctx("A", 42), say("hi", "global")), Ok(()));
    let log = messages(&store);
    assert_eq!(log.len(), 1);
    assert_eq!(log[0].sender_identity, "A");
    assert_eq!(log[0].message, "hi");
    assert_eq!(log[0].channel, "global");
    assert_eq!(log[0].timestamp, 42);
    assert_eq!(store.players().len(), 1);
}

#[test]
fn chat_goes_through_on_a_log_without_generated_ids() {
    let mut store = world();
    for k in 0..10 {
        let id = format!("note-{}", k);
        assert_eq!(post_message(&mut store, &ctx("A", k), id, say("old", "global")), Ok(()));
    }
    assert_eq!(player_chat(&mut store, &ctx("B", 99), say("new", "trade")), Ok(()));
    let log = messages(&store);
    assert_eq!(log.len(), 11);
    assert_eq!(log[10].id.chars().count(), 36);
    assert_eq!(log[10].sender_identity, "B");
    assert_eq!(log[10].message, "new");
    assert_eq!(log[10].channel, "trade");
    assert_eq!(log[10].timestamp, 99);
    for k in 0..10 {
        assert_eq!(log[k].id, format!("note-{}", k));
        assert_eq!(log[k].message, "old");
    }
}

#[test]
fn each_chat_that_goes_through_adds_one_row() {
    let mut store = world();
    for n in 0..12usize {
        assert_eq!(store.messages().len(), n);
        let r = player_chat(&mut store, &ctx("A", n as u64), say("again", "global"));
        assert_eq!(r, Ok(()));
        assert_eq!(store.messages().len(), n + 1);
    }
}
