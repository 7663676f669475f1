use oxine::fixed::X16;
use oxine::level::level_packets;
use oxine::packets::{Incoming, Location, Outgoing, Vector3};
use oxine::server::{BannedIp, BannedUser, Config, Connected, IpAddress, NamedWorld, Server};
use oxine::session::{
    clip, elapsed, Action, Connection, Refusal, Stage, PROTOCOL_VERSION, SELF_ID,
};
use oxine::world::World;

const PEER: IpAddress = IpAddress::V4(0x7f00_0001);

fn spawn() -> Location {
    Location {
        position: Vector3 {
            x: X16::from_bits(32 * 8),
            y: X16::from_bits(32 * 40),
            z: X16::from_bits(32 * 8),
        },
        yaw: 0,
        pitch: 0,
    }
}

fn elsewhere() -> Location {
    Location {
        position: Vector3 { x: X16::from_bits(1), y: X16::from_bits(2), z: X16::from_bits(3) },
        yaw: 90,
        pitch: 10,
    }
}

fn config() -> Config {
    Config {
        banned_ips: Vec::new(),
        banned_users: Vec::new(),
        kept_salts: 0,
        name: "Test".to_string(),
        motd: "Welcome".to_string(),
        ..Config::default()
    }
}

fn server_with(config: Config) -> Server {
    Server::new(vec![NamedWorld { name: "default".to_string(), world: World::new(spawn()) }], config)
}

fn identification(username: &str, key: &str) -> Incoming {
    Incoming::PlayerIdentification {
        version: 7,
        username: username.to_string(),
        key: key.to_string(),
    }
}

fn turned_away(reason: &str) -> Vec<Action> {
    vec![Action::Send(Outgoing::Disconnect { reason: reason.to_string() }), Action::Close]
}

fn join(server: &mut Server, username: &str, now: u64) -> Connection {
    let mut connection = Connection::accept(now);
    connection.receive(server, PEER, identification(username, ""), &Vec::new());
    assert_eq!(connection.stage, Stage::Identified);
    connection
}

#[test]
fn identification_without_verification_is_welcomed() {
    let mut server = server_with(config());
    let mut connection = Connection::accept(0);
    assert_eq!(connection.stage, Stage::AwaitingIdentification);
    let actions =
        connection.receive(&mut server, PEER, identification("Alice", ""), &Vec::new());
    assert_eq!(
        actions,
        vec![
            Action::Send(Outgoing::ServerIdentification {
                version: 7,
                name: "Test".to_string(),
                motd: "Welcome".to_string(),
                operator: false,
            }),
            Action::TransferLevel { world: "default".to_string() },
            Action::Send(Outgoing::SpawnPlayer {
                id: -1,
                name: "Alice".to_string(),
                location: spawn(),
            }),
            Action::Broadcast {
                world: "default".to_string(),
                packet: Outgoing::SpawnPlayer {
                    id: 0,
                    name: "Alice".to_string(),
                    location: spawn(),
                },
            },
        ]
    );
    assert_eq!(connection.stage, Stage::Identified);
    assert_eq!(
        connection.player,
        Some(Connected { username: "Alice".to_string(), world: "default".to_string(), id: 0 })
    );
    assert_eq!(connection.waiting_since, None);
    assert_eq!(server.find_player(&"Alice".to_string()), Some(0));
    assert_eq!(server.worlds[0].world.location_of(0), Some(spawn()));

    // The level that the second action asks for.
    let level = level_packets(&[1u8; 3000], Vector3 { x: 16, y: 16, z: 16 });
    assert_eq!(level[0], Outgoing::LevelInit);
    assert!(level.len() >= 3);
    assert!(matches!(
        level[level.len() - 2],
        Outgoing::LevelDataChunk { percent_complete: 100, .. }
    ));
    assert!(matches!(level[level.len() - 1], Outgoing::LevelFinalize { .. }));
}

#[test]
fn protocol_constants() {
    assert_eq!(PROTOCOL_VERSION, 7);
    assert_eq!(SELF_ID, -1);
}

#[test]
fn newcomer_is_told_of_the_players_in_its_world() {
    let mut server = server_with(config());
    server.worlds.push(NamedWorld { name: "far".to_string(), world: World::new(elsewhere()) });
    let mut first = join(&mut server, "Alice", 0);
    let _second = join(&mut server, "Bob", 0);
    first.receive(
        &mut server,
        PEER,
        Incoming::SetLocation { location: elsewhere() },
        &Vec::new(),
    );
    let far = server.worlds[1].world.add_player(elsewhere()).unwrap();
    server.register("Faraway".to_string(), "far".to_string(), far);
    server.register("Ghost".to_string(), "default".to_string(), 77);

    let mut third = Connection::accept(0);
    let actions = third.receive(&mut server, PEER, identification("Carol", ""), &Vec::new());
    assert_eq!(actions.len(), 6);
    assert_eq!(
        actions[3],
        Action::Send(Outgoing::SpawnPlayer {
            id: 0,
            name: "Alice".to_string(),
            location: elsewhere(),
        })
    );
    assert_eq!(
        actions[4],
        Action::Send(Outgoing::SpawnPlayer { id: 1, name: "Bob".to_string(), location: spawn() })
    );
    assert_eq!(
        actions[5],
        Action::Broadcast {
            world: "default".to_string(),
            packet: Outgoing::SpawnPlayer {
                id: 2,
                name: "Carol".to_string(),
                location: spawn(),
            },
        }
    );
}

#[test]
fn operator_is_told_so() {
    let mut config = config();
    config.operators.push("Alice".to_string());
    let mut server = server_with(config);
    let mut connection = Connection::accept(0);
    let actions =
        connection.receive(&mut server, PEER, identification("Alice", ""), &Vec::new());
    assert!(matches!(
        actions[0],
        Action::Send(Outgoing::ServerIdentification { operator: true, .. })
    ));
}

#[test]
fn banned_address_is_turned_away_with_its_reason() {
    let mut config = config();
    config.banned_ips.push(BannedIp { ip: PEER, reason: "No griefing".to_string() });
    config.banned_users.push(BannedUser {
        username: "Alice".to_string(),
        reason: "name ban".to_string(),
    });
    let mut server = server_with(config);
    let before = server.clone();
    let mut connection = Connection::accept(0);
    let actions =
        connection.receive(&mut server, PEER, identification("Alice", ""), &Vec::new());
    assert_eq!(actions, turned_away("No griefing"));
    assert_eq!(connection.stage, Stage::Disconnected);
    assert_eq!(connection.player, None);
    assert_eq!(server, before);
    assert_eq!(server.player_count(), 0);
}

#[test]
fn banned_user_is_turned_away_with_its_reason() {
    let mut config = config();
    config.banned_users.push(BannedUser {
        username: "Alice".to_string(),
        reason: "name ban".to_string(),
    });
    let mut server = server_with(config);
    let before = server.clone();
    let mut connection = Connection::accept(0);
    let actions =
        connection.receive(&mut server, PEER, identification("Alice", ""), &Vec::new());
    assert_eq!(actions, turned_away("name ban"));
    assert_eq!(server, before);
    let mut other = Connection::accept(0);
    other.receive(&mut server, PEER, identification("Bob", ""), &Vec::new());
    assert_eq!(other.stage, Stage::Identified);
}

#[test]
fn full_server_turns_away() {
    let mut config = config();
    config.max_players = 1;
    let mut server = server_with(config);
    join(&mut server, "Alice", 0);
    let before = server.clone();
    let mut connection = Connection::accept(0);
    let actions = connection.receive(&mut server, PEER, identification("Bob", ""), &Vec::new());
    assert_eq!(actions, turned_away("The server is full."));
    assert_eq!(actions, turned_away(&Refusal::Full.to_text()));
    assert_eq!(server, before);
}

#[test]
fn second_connection_of_a_name_is_turned_away() {
    let mut server = server_with(config());
    join(&mut server, "Alice", 0);
    let before = server.clone();
    let mut connection = Connection::accept(0);
    let actions =
        connection.receive(&mut server, PEER, identification("Alice", ""), &Vec::new());
    assert_eq!(actions, turned_away(&Refusal::AlreadyConnected.to_text()));
    assert_eq!(actions, turned_away("You are already connected."));
    assert_eq!(server, before);
}

#[test]
fn wrong_key_is_turned_away() {
    let mut config = config();
    config.kept_salts = 2;
    config.heartbeat_url = "https://example.org".to_string();
    let mut server = server_with(config);
    let expected = vec!["first".to_string(), "second".to_string()];
    let before = server.clone();
    let mut connection = Connection::accept(0);
    let actions =
        connection.receive(&mut server, PEER, identification("Alice", "third"), &expected);
    assert_eq!(actions, turned_away(&Refusal::BadKey.to_text()));
    assert_eq!(actions, turned_away("Your login could not be verified."));
    assert_eq!(server, before);
    let mut connection = Connection::accept(0);
    connection.receive(&mut server, PEER, identification("Alice", "first"), &expected);
    assert_eq!(connection.stage, Stage::Identified);
    let mut connection = Connection::accept(0);
    connection.receive(&mut server, PEER, identification("Bob", "second"), &expected);
    assert_eq!(connection.stage, Stage::Identified);
}

#[test]
fn missing_default_world_turns_away() {
    let mut config = config();
    config.default_world = "nowhere".to_string();
    let mut server = server_with(config);
    let mut connection = Connection::accept(0);
    let actions =
        connection.receive(&mut server, PEER, identification("Alice", ""), &Vec::new());
    assert_eq!(actions, turned_away(&Refusal::NoWorld.to_text()));
    assert_eq!(actions, turned_away("There is no world to join."));
}

#[test]
fn full_world_turns_away() {
    let mut config = config();
    config.max_players = 0;
    let mut server = server_with(config);
    for _ in 0..128 {
        server.worlds[0].world.add_player(spawn());
    }
    let before = server.clone();
    let mut connection = Connection::accept(0);
    let actions =
        connection.receive(&mut server, PEER, identification("Alice", ""), &Vec::new());
    assert_eq!(actions, turned_away(&Refusal::WorldFull.to_text()));
    assert_eq!(actions, turned_away("The world is full."));
    assert_eq!(server, before);
}

#[test]
fn other_packets_before_identification_are_violations() {
    for packet in [
        Incoming::Message { message: "hi".to_string() },
        Incoming::SetLocation { location: elsewhere() },
        Incoming::SetBlock { position: Vector3 { x: 1, y: 2, z: 3 }, state: 1 },
    ] {
        let mut server = server_with(config());
        let before = server.clone();
        let mut connection = Connection::accept(0);
        let actions = connection.receive(&mut server, PEER, packet, &Vec::new());
        assert_eq!(actions, turned_away("Unexpected packet."));
        assert_eq!(actions, turned_away(&Refusal::Violation.to_text()));
        assert_eq!(connection.stage, Stage::Disconnected);
        assert_eq!(server, before);
    }
}

#[test]
fn second_identification_is_a_violation() {
    let mut server = server_with(config());
    let mut connection = join(&mut server, "Alice", 0);
    let actions =
        connection.receive(&mut server, PEER, identification("Alice", ""), &Vec::new());
    assert_eq!(
        actions,
        vec![
            Action::Send(Outgoing::Disconnect { reason: "Unexpected packet.".to_string() }),
            Action::Broadcast {
                world: "default".to_string(),
                packet: Outgoing::DespawnPlayer { id: 0 },
            },
            Action::Close,
        ]
    );
    assert_eq!(connection.stage, Stage::Disconnected);
    assert_eq!(server.player_count(), 0);
    assert_eq!(server.worlds[0].world.location_of(0), None);
}

#[test]
fn packets_of_an_identified_client_are_passed_on() {
    let mut server = server_with(config());
    let _first = join(&mut server, "Alice", 0);
    let mut second = join(&mut server, "Bob", 0);
    let before = server.clone();

    let position = Vector3 { x: 4, y: 5, z: 6 };
    let actions = second.receive(
        &mut server,
        PEER,
        Incoming::SetBlock { position, state: 9 },
        &Vec::new(),
    );
    assert_eq!(
        actions,
        vec![
            Action::PlaceBlock { world: "default".to_string(), position, state: 9 },
            Action::Broadcast {
                world: "default".to_string(),
                packet: Outgoing::SetBlock { position, block: 9 },
            },
        ]
    );
    assert_eq!(server, before);

    let actions = second.receive(
        &mut server,
        PEER,
        Incoming::Message { message: "hello".to_string() },
        &Vec::new(),
    );
    assert_eq!(
        actions,
        vec![Action::Broadcast {
            world: "default".to_string(),
            packet: Outgoing::Message { id: 1, message: "hello".to_string() },
        }]
    );
    assert_eq!(server, before);

    let actions = second.receive(
        &mut server,
        PEER,
        Incoming::SetLocation { location: elsewhere() },
        &Vec::new(),
    );
    assert_eq!(
        actions,
        vec![Action::Broadcast {
            world: "default".to_string(),
            packet: Outgoing::TeleportPlayer { id: 1, location: elsewhere() },
        }]
    );
    assert_eq!(server.worlds[0].world.location_of(1), Some(elsewhere()));
    assert_eq!(server.worlds[0].world.location_of(0), Some(spawn()));
    assert_eq!(server.players_connected, before.players_connected);
    assert_eq!(second.stage, Stage::Identified);
}

#[test]
fn silent_client_is_taken_down_after_a_ping() {
    let mut server = server_with(config());
    let timeout = server.config.packet_timeout;
    let spacing = server.config.ping_spacing;
    let _other = join(&mut server, "Bob", 0);
    let mut connection = join(&mut server, "Alice", 1_000);
    assert_eq!(connection.waiting_since, None);

    assert_eq!(connection.tick(&mut server, 1_000 + spacing - 1), Vec::new());
    assert_eq!(
        connection.tick(&mut server, 1_000 + spacing),
        vec![Action::Send(Outgoing::Ping)]
    );
    let pinged = 1_000 + spacing;
    assert_eq!(connection.waiting_since, Some(pinged));
    assert_eq!(
        connection.tick(&mut server, pinged + spacing),
        vec![Action::Send(Outgoing::Ping)]
    );
    assert_eq!(connection.waiting_since, Some(pinged));
    assert_eq!(connection.tick(&mut server, pinged + timeout).len(), 1);
    assert_eq!(connection.stage, Stage::Identified);

    let actions = connection.tick(&mut server, pinged + timeout + 1);
    assert_eq!(
        actions,
        vec![
            Action::Broadcast {
                world: "default".to_string(),
                packet: Outgoing::DespawnPlayer { id: 1 },
            },
            Action::Close,
        ]
    );
    assert_eq!(connection.stage, Stage::Disconnected);
    assert_eq!(connection.player, None);
    assert_eq!(server.find_player(&"Alice".to_string()), None);
    assert_eq!(server.find_player(&"Bob".to_string()), Some(0));
    assert_eq!(server.worlds[0].world.location_of(1), None);
    assert_eq!(connection.tick(&mut server, pinged + 10 * timeout), Vec::new());
}

#[test]
fn a_packet_stops_the_wait() {
    let mut server = server_with(config());
    let timeout = server.config.packet_timeout;
    let spacing = server.config.ping_spacing;
    let mut connection = join(&mut server, "Alice", 0);
    assert_eq!(connection.tick(&mut server, spacing), vec![Action::Send(Outgoing::Ping)]);
    assert_eq!(connection.waiting_since, Some(spacing));
    connection.receive(
        &mut server,
        PEER,
        Incoming::Message { message: "still here".to_string() },
        &Vec::new(),
    );
    assert_eq!(connection.waiting_since, None);
    let actions = connection.tick(&mut server, spacing + timeout + 1);
    assert_eq!(actions, vec![Action::Send(Outgoing::Ping)]);
    assert_eq!(connection.stage, Stage::Identified);
    assert_eq!(connection.waiting_since, Some(spacing + timeout + 1));
}

#[test]
fn client_that_never_identifies_is_dropped() {
    let mut server = server_with(config());
    let timeout = server.config.packet_timeout;
    let before = server.clone();
    let mut connection = Connection::accept(100);
    assert_eq!(connection.tick(&mut server, 100 + timeout), Vec::new());
    assert_eq!(connection.stage, Stage::AwaitingIdentification);
    assert_eq!(connection.tick(&mut server, 100 + timeout + 1), vec![Action::Close]);
    assert_eq!(connection.stage, Stage::Disconnected);
    assert_eq!(server, before);
}

#[test]
fn broken_socket_takes_the_player_out() {
    let mut server = server_with(config());
    let mut connection = join(&mut server, "Alice", 0);
    let actions = connection.leave(&mut server);
    assert_eq!(
        actions,
        vec![
            Action::Broadcast {
                world: "default".to_string(),
                packet: Outgoing::DespawnPlayer { id: 0 },
            },
            Action::Close,
        ]
    );
    assert_eq!(server.player_count(), 0);
    assert_eq!(connection.leave(&mut server), Vec::new());
    let mut fresh = Connection::accept(0);
    assert_eq!(fresh.leave(&mut server), vec![Action::Close]);
    assert_eq!(fresh.stage, Stage::Disconnected);
}

#[test]
fn a_connection_that_is_down_ignores_packets() {
    let mut server = server_with(config());
    let mut connection = Connection::accept(0);
    connection.leave(&mut server);
    let before = server.clone();
    let state = connection.clone();
    let actions =
        connection.receive(&mut server, PEER, identification("Alice", ""), &Vec::new());
    assert_eq!(actions, Vec::new());
    assert_eq!(connection, state);
    assert_eq!(server, before);
}

#[test]
fn elapsed_never_goes_negative() {
    assert_eq!(elapsed(10, 3), 7);
    assert_eq!(elapsed(3, 10), 0);
    assert_eq!(elapsed(5, 5), 0);
    assert_eq!(elapsed(u64::MAX, 0), u64::MAX);
}

#[test]
fn turn_away_tells_why_and_closes() {
    let mut connection = Connection::accept(0);
    assert_eq!(connection.turn_away("Because".to_string()), turned_away("Because"));
    assert_eq!(connection.stage, Stage::Disconnected);
    assert_eq!(connection.waiting_since, None);
}

#[test]
fn long_messages_are_clipped_to_the_configured_length() {
    let mut config = config();
    config.max_message_length = 5;
    let mut server = server_with(config);
    let mut connection = join(&mut server, "Alice", 0);
    let actions = connection.receive(
        &mut server,
        PEER,
        Incoming::Message { message: "hello world".to_string() },
        &Vec::new(),
    );
    assert_eq!(
        actions,
        vec![Action::Broadcast {
            world: "default".to_string(),
            packet: Outgoing::Message { id: 0, message: "hello".to_string() },
        }]
    );
    let actions = connection.receive(
        &mut server,
        PEER,
        Incoming::Message { message: "hello".to_string() },
        &Vec::new(),
    );
    assert_eq!(
        actions,
        vec![Action::Broadcast {
            world: "default".to_string(),
            packet: Outgoing::Message { id: 0, message: "hello".to_string() },
        }]
    );
}

#[test]
fn clip_counts_characters() {
    assert_eq!(clip("abc".to_string(), 5), "abc");
    assert_eq!(clip("abcdef".to_string(), 5), "abcde");
    assert_eq!(clip("abcdef".to_string(), 0), "");
    assert_eq!(clip("\u{263B}\u{00E9}\u{263A}".to_string(), 2), "\u{263B}\u{00E9}");
    assert_eq!(clip(String::new(), 0), "");
}
