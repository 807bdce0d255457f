use bot_client::client::{Client, ReadEvent, SendEvent, SendStep};
use bot_client::packet::{ConnectionState, Effect, Packet, Protocol};
use bot_client::wire::{RawPacket, ReadingError};

fn protocol() -> Protocol {
    Protocol {
        version: 776,
        flag_on_ground: 1,
        encryption_request: 1,
        set_compression: 3,
        login_disconnect: 0,
        login_success: 2,
        config_disconnect: 2,
        known_packs: 14,
        config_ping: 5,
        finish_config: 3,
        keep_alive: 43,
        entity_velocity: 99,
        player_position: 70,
        combat_death: 66,
        set_health: 102,
        entity_status: 34,
        respawn: 80,
        login: 48,
        play_disconnect: 32,
    }
}

#[test]
fn a_new_client_has_said_nothing() {
    let c = Client::new();
    assert_eq!(c.connection_state, ConnectionState::HandShake);
    assert!(!c.closed);
    assert!(!c.is_loaded);
    assert!(!c.is_dead);
    assert_eq!(c.entity_id, 0);
    assert_eq!(c.message_spam_cooldown, 1);
    assert_eq!(c.message_count, 0);
    assert_eq!(c.swing_cooldown, 0);
    assert!(c.body.on_ground);
    assert!(c.last_sent.on_ground);
    assert_eq!(c.body.y, 0.0f64.to_bits());
    assert_eq!(c.look.progress, 1.0f32.to_bits());
    assert_eq!(c.look.cooldown, 0);
    assert!(!c.walk.is_walking);
    assert_eq!(c.walk.move_cooldown, 0);
}

#[test]
fn joining_introduces_and_names_the_bot() {
    let mut c = Client::new();
    let (hello, start) =
        c.join_server(&protocol(), "127.0.0.1".to_string(), 25565, "BOT_0".to_string());
    assert_eq!(
        hello,
        Packet::HandShake {
            protocol_version: 776,
            server_address: "127.0.0.1".to_string(),
            server_port: 25565,
            next_state: ConnectionState::Login,
        }
    );
    match start {
        Packet::LoginStart { name, uuid } => {
            assert_eq!(name, "BOT_0");
            let id = uuid::Uuid::from_u128(uuid);
            assert_eq!(id.get_version_num(), 4);
            assert_eq!(id.get_variant(), uuid::Variant::RFC4122);
        }
        other => panic!("no login: {other:?}"),
    }
    let joined = Client { connection_state: ConnectionState::Login, ..Client::new() };
    assert_eq!(c, joined);
}

#[test]
fn every_bot_joins_with_its_own_uuid() {
    let mut c = Client::new();
    let (_, one) = c.join_server(&protocol(), String::new(), 0, String::new());
    let (_, two) = c.join_server(&protocol(), String::new(), 0, String::new());
    assert_ne!(one, two);
}

#[test]
fn closing_is_remembered() {
    let mut c = Client::new();
    assert_eq!(c.close(), Effect::Close);
    assert!(c.closed);
    assert_eq!(c.close(), Effect::Close);
    assert_eq!(c, Client { closed: true, ..Client::new() });
}

#[test]
fn compression_is_turned_on_and_off() {
    let c = Client::new();
    assert_eq!(
        c.set_compression(Some((256, 4))),
        vec![Effect::SetCompression { threshold: 256, level: 4 }]
    );
    assert_eq!(c.set_compression(None), vec![Effect::StopCompression]);
}

#[test]
fn a_death_is_answered_once() {
    let mut c = Client::new();
    c.is_loaded = true;
    c.walk.is_walking = true;
    c.body.velocity_x = 1.0f64.to_bits();
    c.body.velocity_y = (-1.0f64).to_bits();
    c.body.velocity_z = 0.5f64.to_bits();
    c.body.x = 3.0f64.to_bits();
    assert_eq!(c.respawn(), vec![Effect::Send(Packet::ClientCommand { action_id: 0 })]);
    assert!(c.is_dead);
    assert!(!c.is_loaded);
    assert!(!c.walk.is_walking);
    assert_eq!(c.body.velocity_x, 0);
    assert_eq!(c.body.velocity_y, 0);
    assert_eq!(c.body.velocity_z, 0);
    assert_eq!(c.body.x, 3.0f64.to_bits());
    let dead = c;
    assert_eq!(c.respawn(), vec![]);
    assert_eq!(c, dead);
}

#[test]
fn chat_messages_are_numbered() {
    let mut c = Client::new();
    assert_eq!(
        c.chat_message("hello", 1_700_000_000_123, -5),
        Packet::ChatMessage {
            message: "hello".to_string(),
            timestamp: 1_700_000_000_123,
            salt: -5,
            message_count: 0,
            acknowledged: vec![0, 0, 0],
            checksum: 0,
        }
    );
    assert_eq!(c.message_count, 1);
    match c.chat_message("", 0, 0) {
        Packet::ChatMessage { message_count, .. } => assert_eq!(message_count, 1),
        other => panic!("no message: {other:?}"),
    }
}

#[test]
fn message_numbers_and_times_wrap() {
    let mut c = Client::new();
    c.message_count = u32::MAX;
    match c.chat_message("x", (1u128 << 64) + 7, 0) {
        Packet::ChatMessage { message_count, timestamp, .. } => {
            assert_eq!(message_count, -1);
            assert_eq!(timestamp, 7);
        }
        other => panic!("no message: {other:?}"),
    }
    assert_eq!(c.message_count, 0);
}

#[test]
fn sent_messages_have_random_salts() {
    let mut c = Client::new();
    let mut salts: Vec<i64> = Vec::new();
    for i in 0..4 {
        match c.send_message("Hello from bot!", 99) {
            Packet::ChatMessage { message, timestamp, salt, message_count, acknowledged, checksum } => {
                assert_eq!(message, "Hello from bot!");
                assert_eq!(timestamp, 99);
                assert_eq!(message_count, i);
                assert_eq!(acknowledged, vec![0, 0, 0]);
                assert_eq!(checksum, 0);
                salts.push(salt);
            }
            other => panic!("no message: {other:?}"),
        }
    }
    salts.sort();
    salts.dedup();
    assert_eq!(salts.len(), 4);
}

#[test]
fn an_arrived_packet_is_handed_on() {
    let mut c = Client::new();
    let (packet, actions) =
        c.get_packet(ReadEvent::Arrived(RawPacket { id: 4, payload: vec![1, 2] }));
    let packet = packet.unwrap();
    assert_eq!(packet.id, 4);
    assert_eq!(packet.payload, vec![1, 2]);
    assert_eq!(actions, vec![]);
    assert_eq!(c, Client::new());
}

#[test]
fn an_interrupted_wait_brings_nothing() {
    let mut c = Client::new();
    let (packet, actions) = c.get_packet(ReadEvent::Interrupted);
    assert!(packet.is_none());
    assert_eq!(actions, vec![]);
    assert_eq!(c, Client::new());
}

#[test]
fn only_undecodable_input_closes() {
    let mut c = Client::new();
    let (packet, actions) = c.get_packet(ReadEvent::Failed { connection_closed: true });
    assert!(packet.is_none());
    assert_eq!(actions, vec![]);
    assert!(!c.closed);
    let (packet, actions) = c.get_packet(ReadEvent::Failed { connection_closed: false });
    assert!(packet.is_none());
    assert_eq!(actions, vec![Effect::Close]);
    assert!(c.closed);
}

#[test]
fn an_unreadable_packet_closes() {
    let mut c = Client::new();
    let done = vec![Effect::Send(Packet::PlayerLoaded)];
    assert_eq!(
        c.process_packets(Some(Ok(done))),
        (true, vec![Effect::Send(Packet::PlayerLoaded)])
    );
    assert!(!c.closed);
    assert_eq!(
        c.process_packets(Some(Err(ReadingError::Incomplete))),
        (true, vec![Effect::Close])
    );
    assert!(c.closed);
}

#[test]
fn without_a_packet_there_is_nothing_to_do() {
    let mut c = Client::new();
    assert_eq!(c.process_packets(None), (false, vec![]));
    assert_eq!(c, Client::new());
}

#[test]
fn nothing_opens_a_closed_connection() {
    let mut c = Client { closed: true, ..Client::new() };
    c.join_server(&protocol(), String::new(), 1, String::new());
    c.send_message("hello", 5);
    c.get_packet(ReadEvent::Failed { connection_closed: true });
    c.get_packet(ReadEvent::Interrupted);
    c.process_packets(Some(Ok(vec![])));
    c.process_packets(None);
    c.send_packet(SendEvent::Written { ok: true });
    c.send_packet(SendEvent::Flushed { ok: true });
    assert!(c.closed);
}

#[test]
fn what_is_written_is_flushed() {
    let mut c = Client::new();
    assert_eq!(
        c.send_packet(SendEvent::Written { ok: true }),
        SendStep { flush: true, close: false }
    );
    assert_eq!(
        c.send_packet(SendEvent::Flushed { ok: true }),
        SendStep { flush: false, close: false }
    );
    assert!(!c.closed);
}

#[test]
fn a_failure_to_write_closes_and_ends_the_sending() {
    let mut c = Client::new();
    assert_eq!(
        c.send_packet(SendEvent::Written { ok: false }),
        SendStep { flush: false, close: true }
    );
    assert!(c.closed);
}

#[test]
fn a_failure_to_flush_closes() {
    let mut c = Client::new();
    assert_eq!(
        c.send_packet(SendEvent::Flushed { ok: false }),
        SendStep { flush: false, close: true }
    );
    assert!(c.closed);
}

#[test]
fn failures_on_a_closed_connection_are_passed_over() {
    let mut c = Client::new();
    c.closed = true;
    assert_eq!(
        c.send_packet(SendEvent::Written { ok: false }),
        SendStep { flush: true, close: false }
    );
    assert_eq!(
        c.send_packet(SendEvent::Flushed { ok: false }),
        SendStep { flush: false, close: false }
    );
    assert!(c.closed);
}
