use what_may_become::identity::{Identity, Timestamp};
use what_may_become::reducers::{
    create_hero, move_hero, on_connect, on_disconnect, PlayerWrite, ReducerError,
};
use what_may_become::tables::{has_living_hero, Hero, Player, STARTING_HEALTH};

fn identity(first: u8) -> Identity {
    let mut bytes = [0u8; 32];
    bytes[0] = first;
    bytes[1] = 0xcd;
    bytes[2] = 0x01;
    bytes[3] = 0x23;
    bytes[31] = 0x7f;
    Identity { bytes }
}

fn at(micros: i64) -> Timestamp {
    Timestamp { micros_since_unix_epoch: micros }
}

fn hero(id: u64, owner: Identity, alive: bool) -> Hero {
    Hero {
        id,
        player_identity: owner,
        name: format!("hero{}", id),
        x_bits: 1.5f32.to_bits(),
        y_bits: (-2.0f32).to_bits(),
        health: 80,
        max_health: 100,
        fame_local: 3,
        fame_city: 0,
        fame_realm: 0,
        fame_godly: 0,
        is_alive: alive,
    }
}

fn player(id: Identity) -> Player {
    Player { identity: id, username: "Player_abcd0123".to_string(), online: false, last_seen: at(5) }
}

#[test]
fn new_player_is_named_after_identity_hex() {
    let id = identity(0xab);
    match on_connect(id, at(1_000), None) {
        PlayerWrite::Insert(row) => {
            assert_eq!(row.username, "Player_abcd0123");
            assert_eq!(row.identity, id);
            assert!(row.online);
            assert_eq!(row.last_seen, at(1_000));
        }
        other => panic!("expected an insert, got {:?}", other),
    }
}

#[test]
fn new_player_name_uses_leading_zero_digits() {
    let id = Identity { bytes: [0x05; 32] };
    match on_connect(id, at(0), None) {
        PlayerWrite::Insert(row) => assert_eq!(row.username, "Player_05050505"),
        other => panic!("expected an insert, got {:?}", other),
    }
}

#[test]
fn returning_player_goes_online_and_keeps_name() {
    let id = identity(0xab);
    let mut existing = player(id);
    existing.username = "Aldric".to_string();
    match on_connect(id, at(42), Some(existing)) {
        PlayerWrite::Update(row) => {
            assert_eq!(row.username, "Aldric");
            assert!(row.online);
            assert_eq!(row.last_seen, at(42));
        }
        other => panic!("expected an update, got {:?}", other),
    }
}

#[test]
fn disconnect_marks_offline() {
    let id = identity(0xab);
    let mut existing = player(id);
    existing.online = true;
    let row = on_disconnect(at(77), Some(existing)).expect("row to update");
    assert!(!row.online);
    assert_eq!(row.last_seen, at(77));
    assert_eq!(row.username, "Player_abcd0123");
    assert!(on_disconnect(at(77), None).is_none());
}

#[test]
fn reconnect_after_disconnect_is_online_again() {
    let id = identity(0xab);
    let gone = on_disconnect(at(10), Some(player(id))).unwrap();
    match on_connect(id, at(20), Some(gone)) {
        PlayerWrite::Update(row) => {
            assert!(row.online);
            assert_eq!(row.last_seen, at(20));
            assert_eq!(row.username, "Player_abcd0123");
        }
        other => panic!("expected an update, got {:?}", other),
    }
}

#[test]
fn create_hero_needs_a_player() {
    let id = identity(1);
    let result = create_hero(id, &None, &vec![], "Brienne".to_string());
    assert_eq!(result, Err(ReducerError::PlayerNotFound));
    assert_eq!(ReducerError::PlayerNotFound.message(), "Player not found. Connect first.");
}

#[test]
fn create_hero_refused_while_hero_lives() {
    let me = identity(1);
    let other = identity(2);
    let heroes = vec![hero(1, other, true), hero(2, me, true)];
    let result = create_hero(me, &Some(player(me)), &heroes, "Second".to_string());
    assert_eq!(result, Err(ReducerError::LivingHeroExists));
    assert_eq!(
        ReducerError::LivingHeroExists.message(),
        "You already have a living hero. Permadeath rules apply."
    );
}

#[test]
fn create_hero_after_permadeath() {
    let me = identity(1);
    let other = identity(2);
    let heroes = vec![hero(1, me, false), hero(2, other, true)];
    let created = create_hero(me, &Some(player(me)), &heroes, "Reborn".to_string()).unwrap();
    assert_eq!(created.id, 0);
    assert_eq!(created.player_identity, me);
    assert_eq!(created.name, "Reborn");
    assert_eq!(f32::from_bits(created.x_bits), 0.0);
    assert_eq!(f32::from_bits(created.y_bits), 0.0);
    assert_eq!(created.health, 100);
    assert_eq!(created.max_health, STARTING_HEALTH);
    assert_eq!(
        (created.fame_local, created.fame_city, created.fame_realm, created.fame_godly),
        (0, 0, 0, 0)
    );
    assert!(created.is_alive);
}

#[test]
fn living_hero_scan() {
    let me = identity(1);
    let other = identity(2);
    assert!(!has_living_hero(&vec![], &me));
    assert!(!has_living_hero(&vec![hero(1, me, false), hero(2, other, true)], &me));
    assert!(has_living_hero(&vec![hero(1, other, true), hero(2, me, true)], &me));
}

#[test]
fn move_hero_errors() {
    let me = identity(1);
    let other = identity(2);
    assert_eq!(move_hero(me, None, 0, 0), Err(ReducerError::HeroNotFound));
    assert_eq!(move_hero(me, Some(hero(4, other, true)), 0, 0), Err(ReducerError::NotHeroOwner));
    assert_eq!(move_hero(me, Some(hero(4, me, false)), 0, 0), Err(ReducerError::HeroIsDead));
    assert_eq!(ReducerError::HeroNotFound.message(), "Hero not found");
    assert_eq!(ReducerError::NotHeroOwner.message(), "You do not own this hero");
    assert_eq!(ReducerError::HeroIsDead.message(), "Cannot move a dead hero");
}

#[test]
fn move_hero_changes_only_position() {
    let me = identity(1);
    let before = hero(4, me, true);
    let moved = move_hero(me, Some(before.clone()), 12.25f32.to_bits(), (-3.5f32).to_bits()).unwrap();
    assert_eq!(f32::from_bits(moved.x_bits), 12.25);
    assert_eq!(f32::from_bits(moved.y_bits), -3.5);
    let mut expected = before;
    expected.x_bits = 12.25f32.to_bits();
    expected.y_bits = (-3.5f32).to_bits();
    assert_eq!(moved, expected);
}

#[test]
fn identities_compare_by_all_bytes() {
    let a = identity(1);
    let mut b = identity(1);
    assert_eq!(a, b);
    b.bytes[31] = 0;
    assert_ne!(a, b);
}

#[test]
fn created_hero_moves_for_its_owner_only() {
    let me = identity(1);
    let other = identity(2);
    let mut created = create_hero(me, &Some(player(me)), &vec![], "Wren".to_string()).unwrap();
    created.id = 17;
    let moved = move_hero(me, Some(created.clone()), 4.0f32.to_bits(), 8.0f32.to_bits()).unwrap();
    assert_eq!(moved.id, 17);
    assert_eq!(moved.name, "Wren");
    assert_eq!(f32::from_bits(moved.x_bits), 4.0);
    assert_eq!(move_hero(other, Some(created), 0, 0), Err(ReducerError::NotHeroOwner));
}

#[test]
fn one_living_hero_each_after_create_and_death() {
    let me = identity(1);
    let mut heroes = vec![hero(1, identity(2), true)];
    let mut first = create_hero(me, &Some(player(me)), &heroes, "First".to_string()).unwrap();
    first.id = 2;
    heroes.push(first);
    assert!(has_living_hero(&heroes, &me));
    assert_eq!(
        create_hero(me, &Some(player(me)), &heroes, "Again".to_string()),
        Err(ReducerError::LivingHeroExists)
    );
    heroes[1].is_alive = false;
    assert!(create_hero(me, &Some(player(me)), &heroes, "Again".to_string()).is_ok());
}

#[test]
fn usernames_are_fifteen_characters() {
    for first in [0x00u8, 0x0f, 0xa0, 0xff] {
        match on_connect(identity(first), at(0), None) {
            PlayerWrite::Insert(row) => {
                assert_eq!(row.username.chars().count(), 15);
                assert!(row.username.starts_with("Player_"));
                assert_eq!(&row.username[7..9], format!("{:02x}", first));
            }
            other => panic!("expected an insert, got {:?}", other),
        }
    }
}
