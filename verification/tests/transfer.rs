use oxine::heartbeat::{announcement, later, Announcement, Beat, Heartbeat, Order};
use oxine::level::level_packets;
use oxine::packets::{Outgoing, Vector3};
use oxine::server::{Config, Server};
use oxine::setup::{set_up_defaults, Provision};

fn chunks_of(packets: &[Outgoing]) -> Vec<(u16, [u8; 1024], u8)> {
    packets[1..packets.len() - 1]
        .iter()
        .map(|packet| match packet {
            Outgoing::LevelDataChunk { data_length, data_chunk, percent_complete } => {
                (*data_length, *data_chunk, *percent_complete)
            },
            other => panic!("not a chunk: {:?}", other),
        })
        .collect()
}

fn size() -> Vector3<u16> {
    Vector3 { x: 16, y: 8, z: 32 }
}

fn check_frame(packets: &[Outgoing]) {
    assert!(packets.len() >= 3);
    assert_eq!(packets[0], Outgoing::LevelInit);
    assert_eq!(packets[packets.len() - 1], Outgoing::LevelFinalize { size: size() });
}

#[test]
fn empty_level_takes_one_empty_chunk() {
    let packets = level_packets(&[], size());
    check_frame(&packets);
    assert_eq!(chunks_of(&packets), vec![(0, [0u8; 1024], 100)]);
}

#[test]
fn small_level_takes_one_padded_chunk() {
    let packets = level_packets(&[1, 2, 3], size());
    check_frame(&packets);
    let mut chunk = [0u8; 1024];
    chunk[..3].copy_from_slice(&[1, 2, 3]);
    assert_eq!(chunks_of(&packets), vec![(3, chunk, 100)]);
}

#[test]
fn level_of_one_chunk_exactly() {
    let data = vec![7u8; 1024];
    let packets = level_packets(&data, size());
    check_frame(&packets);
    assert_eq!(chunks_of(&packets), vec![(1024, [7u8; 1024], 100)]);
}

#[test]
fn level_of_one_byte_more_takes_two_chunks() {
    let data = vec![7u8; 1025];
    let packets = level_packets(&data, size());
    check_frame(&packets);
    let mut last = [0u8; 1024];
    last[0] = 7;
    assert_eq!(chunks_of(&packets), vec![(1024, [7u8; 1024], 99), (1, last, 100)]);
}

#[test]
fn chunks_carry_the_data_in_order() {
    let data: Vec<u8> = (0..5000u32).map(|index| (index % 253) as u8).collect();
    let packets = level_packets(&data, size());
    check_frame(&packets);
    let chunks = chunks_of(&packets);
    assert_eq!(chunks.len(), 5);
    let lengths: Vec<u16> = chunks.iter().map(|chunk| chunk.0).collect();
    assert_eq!(lengths, vec![1024, 1024, 1024, 1024, 904]);
    let percents: Vec<u8> = chunks.iter().map(|chunk| chunk.2).collect();
    assert_eq!(percents, vec![20, 40, 61, 81, 100]);
    let mut joined = Vec::new();
    for (length, chunk, _) in &chunks {
        joined.extend_from_slice(&chunk[..*length as usize]);
        assert!(chunk[*length as usize..].iter().all(|&byte| byte == 0));
    }
    assert_eq!(joined, data);
}

#[test]
fn heartbeat_never_runs_without_a_url() {
    let config = Config::default();
    let mut state = Heartbeat::start(0);
    for beat in [Beat::Tick(0), Beat::Tick(1_000_000), Beat::Failed, Beat::Succeeded] {
        assert_eq!(state.step(&config, beat), Order::Rest);
        assert_eq!(state, Heartbeat::start(0));
    }
}

fn announcing() -> Config {
    Config {
        heartbeat_url: "https://example.org/heartbeat".to_string(),
        heartbeat_retries: 2,
        heartbeat_spacing: 1_000,
        heartbeat_timeout: 300,
        ..Config::default()
    }
}

#[test]
fn heartbeat_announces_at_each_interval() {
    let config = announcing();
    let mut state = Heartbeat::start(50);
    assert_eq!(state.step(&config, Beat::Tick(49)), Order::Rest);
    assert_eq!(state.step(&config, Beat::Tick(50)), Order::Announce { timeout: 300 });
    assert_eq!(state, Heartbeat { trying: true, failures: 0, next_at: 1_050 });
    assert_eq!(state.step(&config, Beat::Tick(2_000)), Order::Rest);
    assert_eq!(state.step(&config, Beat::Succeeded), Order::Rest);
    assert_eq!(state.step(&config, Beat::Tick(1_049)), Order::Rest);
    assert_eq!(state.step(&config, Beat::Tick(1_070)), Order::Announce { timeout: 300 });
    assert_eq!(state.next_at, 2_070);
}

#[test]
fn heartbeat_retries_a_bounded_number_of_times() {
    let config = announcing();
    let mut state = Heartbeat::start(0);
    assert_eq!(state.step(&config, Beat::Tick(0)), Order::Announce { timeout: 300 });
    assert_eq!(state.step(&config, Beat::Failed), Order::Announce { timeout: 300 });
    assert_eq!(state.step(&config, Beat::Failed), Order::Announce { timeout: 300 });
    assert_eq!(state.step(&config, Beat::Failed), Order::GiveUp);
    assert_eq!(state.step(&config, Beat::Failed), Order::Rest);
    assert!(!state.trying);
    assert_eq!(state.step(&config, Beat::Tick(999)), Order::Rest);
    assert_eq!(state.step(&config, Beat::Tick(1_000)), Order::Announce { timeout: 300 });
    assert_eq!(state.failures, 0);
}

#[test]
fn heartbeat_without_retries_gives_up_at_once() {
    let mut config = announcing();
    config.heartbeat_retries = 0;
    let mut state = Heartbeat::start(0);
    assert_eq!(state.step(&config, Beat::Tick(5)), Order::Announce { timeout: 300 });
    assert_eq!(state.step(&config, Beat::Failed), Order::GiveUp);
}

#[test]
fn later_stops_at_the_last_time() {
    assert_eq!(later(1, 2), 3);
    assert_eq!(later(u64::MAX, 1), u64::MAX);
    assert_eq!(later(u64::MAX - 5, 5), u64::MAX);
    assert_eq!(later(u64::MAX - 5, 6), u64::MAX);
    assert_eq!(later(0, u64::MAX), u64::MAX);
}

#[test]
fn announcement_tells_of_the_server() {
    let mut config = announcing();
    config.name = "Here".to_string();
    config.public = true;
    config.max_players = 10;
    config.banned_users = Vec::new();
    let mut server = Server::new(Vec::new(), config);
    server.register("Alice".to_string(), "default".to_string(), 0);
    assert_eq!(
        announcement(&server),
        Announcement {
            name: "Here".to_string(),
            port: 25565,
            players: 1,
            max_players: 10,
            public: true
        }
    );
}

#[test]
fn defaults_are_set_up_where_they_are_missing() {
    assert_eq!(set_up_defaults(true, true), Vec::new());
    assert_eq!(set_up_defaults(false, true), vec![Provision::WriteConfig]);
    assert_eq!(set_up_defaults(true, false), vec![Provision::CreateWorlds]);
    assert_eq!(
        set_up_defaults(false, false),
        vec![Provision::WriteConfig, Provision::CreateWorlds]
    );
}
