use oxine::fixed::X16;
use oxine::packets::{Location, Vector3};
use oxine::server::{
    BannedIp, BannedUser, Config, ConfigError, Connected, IpAddress, NamedWorld, Server,
};
use oxine::salt::salt_of;
use oxine::world::{World, WORLD_CAPACITY};
use rand::rngs::StdRng;
use rand::SeedableRng;

fn at(x: i16, y: i16, z: i16) -> Location {
    Location {
        position: Vector3 { x: X16::from_bits(x), y: X16::from_bits(y), z: X16::from_bits(z) },
        yaw: 0,
        pitch: 0,
    }
}

fn quiet_config() -> Config {
    Config {
        banned_ips: Vec::new(),
        banned_users: Vec::new(),
        ..Config::default()
    }
}

fn server_with(config: Config) -> Server {
    let worlds = vec![
        NamedWorld { name: "default".to_string(), world: World::new(at(32, 64, 32)) },
        NamedWorld { name: "other".to_string(), world: World::new(at(0, 0, 0)) },
    ];
    Server::new(worlds, config)
}

#[test]
fn default_config_has_the_documented_values() {
    let config = Config::default();
    assert_eq!(config.packet_timeout, 10_000);
    assert_eq!(config.ping_spacing, 500);
    assert_eq!(config.default_world, "default");
    assert_eq!(config.banned_ips.len(), 3);
    for (index, ban) in config.banned_ips.iter().enumerate() {
        assert_eq!(ban.ip, IpAddress::V4(index as u32));
        assert_eq!(ban.reason, "<ban reason>");
    }
    let names: Vec<&str> = config.banned_users.iter().map(|ban| ban.username.as_str()).collect();
    assert_eq!(names, vec!["Alice", "Bob", "Charlie"]);
    assert!(config.banned_users.iter().all(|ban| ban.reason == "<ban reason>"));
    assert!(config.operators.is_empty());
    assert_eq!(config.kept_salts, 0);
    assert_eq!(config.name, "<Unnamed Server>");
    assert_eq!(config.heartbeat_url, "");
    assert_eq!(config.heartbeat_retries, 5);
    assert_eq!(config.heartbeat_spacing, 5_000);
    assert_eq!(config.heartbeat_timeout, 5_000);
    assert_eq!(config.port, 25565);
    assert_eq!(config.max_players, 64);
    assert!(!config.public);
    assert_eq!(config.motd, "Running on Honeybit");
    assert_eq!(config.max_message_length, 256);
    assert_eq!(config.validate(), Ok(()));
}

#[test]
fn salts_without_heartbeat_are_a_configuration_error() {
    let mut config = Config::default();
    config.kept_salts = 1;
    assert_eq!(config.validate(), Err(ConfigError::SaltsWithoutHeartbeat));
    config.heartbeat_url = "https://example.org/heartbeat".to_string();
    assert_eq!(config.validate(), Ok(()));
    config.kept_salts = 0;
    assert_eq!(config.validate(), Ok(()));
}

#[test]
fn bans_are_looked_up_by_address_and_name() {
    let mut config = Config::default();
    config.banned_ips.push(BannedIp { ip: IpAddress::V6(1), reason: "six".to_string() });
    config.banned_ips.push(BannedIp { ip: IpAddress::V4(1), reason: "later".to_string() });
    config.banned_users.push(BannedUser { username: "Dave".to_string(), reason: "rude".to_string() });
    assert_eq!(config.banned_ip_reason(IpAddress::V4(1)), Some("<ban reason>".to_string()));
    assert_eq!(config.banned_ip_reason(IpAddress::V6(1)), Some("six".to_string()));
    assert_eq!(config.banned_ip_reason(IpAddress::V4(3)), None);
    assert_eq!(config.banned_ip_reason(IpAddress::V6(0)), None);
    assert_eq!(config.banned_user_reason(&"Dave".to_string()), Some("rude".to_string()));
    assert_eq!(config.banned_user_reason(&"Alice".to_string()), Some("<ban reason>".to_string()));
    assert_eq!(config.banned_user_reason(&"alice".to_string()), None);
}

#[test]
fn operators_are_looked_up_by_name() {
    let mut config = Config::default();
    assert!(!config.is_operator(&"Alice".to_string()));
    config.operators.push("Alice".to_string());
    config.operators.push("Bob".to_string());
    assert!(config.is_operator(&"Alice".to_string()));
    assert!(config.is_operator(&"Bob".to_string()));
    assert!(!config.is_operator(&"Bo".to_string()));
}

#[test]
fn world_gives_the_least_free_id() {
    let mut world = World::new(at(1, 2, 3));
    assert_eq!(world.next_free(), Some(0));
    assert_eq!(world.add_player(at(0, 0, 0)), Some(0));
    assert_eq!(world.add_player(at(1, 0, 0)), Some(1));
    assert_eq!(world.add_player(at(2, 0, 0)), Some(2));
    world.remove_player(1);
    assert_eq!(world.location_of(1), None);
    assert_eq!(world.next_free(), Some(1));
    assert_eq!(world.add_player(at(9, 9, 9)), Some(1));
    assert_eq!(world.location_of(1), Some(at(9, 9, 9)));
    assert_eq!(world.add_player(at(3, 0, 0)), Some(3));
    assert_eq!(world.spawn, at(1, 2, 3));
}

#[test]
fn world_holds_at_most_its_capacity() {
    assert_eq!(WORLD_CAPACITY, 128);
    let mut world = World::new(at(0, 0, 0));
    for expected in 0..128 {
        assert_eq!(world.add_player(at(0, 0, 0)), Some(expected as i8));
    }
    let full = world.clone();
    assert_eq!(world.next_free(), None);
    assert_eq!(world.add_player(at(0, 0, 0)), None);
    assert_eq!(world, full);
    world.remove_player(127);
    assert_eq!(world.add_player(at(0, 0, 0)), Some(127));
}

#[test]
fn removing_an_absent_player_changes_nothing() {
    let mut world = World::new(at(0, 0, 0));
    world.add_player(at(1, 1, 1));
    let before = world.clone();
    world.remove_player(5);
    world.remove_player(-1);
    world.remove_player(i8::MIN);
    assert_eq!(world, before);
    world.remove_player(0);
    let emptied = world.clone();
    world.remove_player(0);
    assert_eq!(world, emptied);
}

#[test]
fn moving_a_player_changes_its_location() {
    let mut world = World::new(at(0, 0, 0));
    world.add_player(at(1, 1, 1));
    assert!(world.move_player(0, at(5, 6, 7)));
    assert_eq!(world.location_of(0), Some(at(5, 6, 7)));
    let before = world.clone();
    assert!(!world.move_player(1, at(5, 6, 7)));
    assert!(!world.move_player(-1, at(5, 6, 7)));
    assert_eq!(world, before);
}

#[test]
fn register_adds_an_entry() {
    let mut server = server_with(quiet_config());
    assert_eq!(server.player_count(), 0);
    server.register("Alice".to_string(), "default".to_string(), 0);
    server.register("Bob".to_string(), "other".to_string(), 0);
    assert_eq!(server.player_count(), 2);
    assert_eq!(server.find_player(&"Alice".to_string()), Some(0));
    assert_eq!(server.find_player(&"Bob".to_string()), Some(1));
    assert_eq!(server.find_player(&"Carol".to_string()), None);
    assert_eq!(
        server.players_connected[1],
        Connected { username: "Bob".to_string(), world: "other".to_string(), id: 0 }
    );
}

#[test]
fn disconnect_removes_the_entry_and_frees_the_slot() {
    let mut server = server_with(quiet_config());
    let id = server.worlds[0].world.add_player(at(1, 1, 1)).unwrap();
    server.register("Alice".to_string(), "default".to_string(), id);
    let other = server.worlds[0].world.add_player(at(2, 2, 2)).unwrap();
    server.register("Bob".to_string(), "default".to_string(), other);
    let left = server.disconnect(&"Alice".to_string());
    assert_eq!(
        left,
        Some(Connected { username: "Alice".to_string(), world: "default".to_string(), id: 0 })
    );
    assert_eq!(server.find_player(&"Alice".to_string()), None);
    assert_eq!(server.find_player(&"Bob".to_string()), Some(0));
    assert_eq!(server.worlds[0].world.location_of(0), None);
    assert_eq!(server.worlds[0].world.location_of(1), Some(at(2, 2, 2)));
    assert_eq!(server.worlds[0].world.next_free(), Some(0));
}

#[test]
fn disconnect_of_an_absent_player_changes_nothing() {
    let mut server = server_with(quiet_config());
    let id = server.worlds[0].world.add_player(at(1, 1, 1)).unwrap();
    server.register("Alice".to_string(), "default".to_string(), id);
    server.keep_salt("salt".to_string());
    let before = server.clone();
    assert_eq!(server.disconnect(&"Nobody".to_string()), None);
    assert_eq!(server, before);
    assert!(server.disconnect(&"Alice".to_string()).is_some());
    let after = server.clone();
    assert_eq!(server.disconnect(&"Alice".to_string()), None);
    assert_eq!(server, after);
}

#[test]
fn disconnect_tolerates_a_missing_world() {
    let mut server = server_with(quiet_config());
    server.register("Alice".to_string(), "nowhere".to_string(), 3);
    let worlds = server.worlds.clone();
    assert!(server.disconnect(&"Alice".to_string()).is_some());
    assert_eq!(server.worlds, worlds);
    assert_eq!(server.player_count(), 0);
}

#[test]
fn find_world_goes_by_name() {
    let server = server_with(quiet_config());
    assert_eq!(server.find_world(&"default".to_string()), Some(0));
    assert_eq!(server.find_world(&"other".to_string()), Some(1));
    assert_eq!(server.find_world(&"Default".to_string()), None);
}

#[test]
fn room_depends_on_the_maximum() {
    let mut config = quiet_config();
    config.max_players = 2;
    let mut server = server_with(config);
    assert!(server.can_accept());
    server.register("a".to_string(), "default".to_string(), 0);
    assert!(server.can_accept());
    server.register("b".to_string(), "default".to_string(), 1);
    assert!(!server.can_accept());
    server.config.max_players = 0;
    assert!(server.can_accept());
}

#[test]
fn server_keeps_as_many_salts_as_configured() {
    let mut config = quiet_config();
    config.kept_salts = 3;
    config.heartbeat_url = "https://example.org".to_string();
    let mut server = server_with(config);
    for number in 0..8u128 {
        server.keep_salt(salt_of(number));
    }
    let kept: Vec<String> = server.last_salts.iter().cloned().collect();
    assert_eq!(kept, vec!["5".to_string(), "6".to_string(), "7".to_string()]);
}

#[test]
fn issued_salts_enter_the_history() {
    let mut config = quiet_config();
    config.kept_salts = 2;
    let mut server = server_with(config);
    let mut rng = StdRng::seed_from_u64(11);
    let first = server.issue_salt(&mut rng);
    let second = server.issue_salt(&mut rng);
    let third = server.issue_salt(&mut rng);
    assert_ne!(first, second);
    let kept: Vec<String> = server.last_salts.iter().cloned().collect();
    assert_eq!(kept, vec![second, third]);
}

#[test]
fn no_salts_are_kept_without_verification() {
    let mut server = server_with(quiet_config());
    let mut rng = StdRng::seed_from_u64(3);
    let salt = server.issue_salt(&mut rng);
    assert!(!salt.is_empty());
    assert!(server.last_salts.is_empty());
}

#[test]
fn any_expected_key_is_accepted() {
    let mut config = quiet_config();
    config.kept_salts = 3;
    let server = server_with(config);
    let expected = vec!["old".to_string(), "mid".to_string(), "new".to_string()];
    assert!(server.verify(&"old".to_string(), &expected));
    assert!(server.verify(&"mid".to_string(), &expected));
    assert!(server.verify(&"new".to_string(), &expected));
    assert!(!server.verify(&"other".to_string(), &expected));
    assert!(!server.verify(&"".to_string(), &expected));
    assert!(!server.verify(&"old".to_string(), &Vec::new()));
}

#[test]
fn every_key_is_accepted_without_verification() {
    let server = server_with(quiet_config());
    let expected = vec!["key".to_string()];
    assert!(server.verify(&"key".to_string(), &expected));
    assert!(server.verify(&"wrong".to_string(), &expected));
    assert!(server.verify(&"".to_string(), &Vec::new()));
}
