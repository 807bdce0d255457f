//! Whole conversations with a server, and what the rules of motion amount to.

use bot_client::args::Args;
use bot_client::client::Client;
use bot_client::naming::bot_name;
use bot_client::packet::{Action, ConnectionState, Effect, Packet, Protocol};
use bot_client::receive::{Decode, Decoded, Step};
use bot_client::term::{DoubleTerm, SingleTerm, Values};
use bot_client::tick::{Round, TickStep};
use bot_client::wire::{write_var_int, RawPacket};
use rsa::pkcs8::EncodePublicKey;

fn protocol() -> Protocol {
    Protocol {
        version: 776,
        flag_on_ground: 1,
        encryption_request: 1,
        set_compression: 3,
        login_disconnect: 0,
        login_success: 2,
        config_disconnect: 2,
        known_packs: 14,
        config_ping: 5,
        finish_config: 3,
        keep_alive: 43,
        entity_velocity: 99,
        player_position: 70,
        combat_death: 66,
        set_health: 102,
        entity_status: 34,
        respawn: 80,
        login: 48,
        play_disconnect: 32,
    }
}

fn only_physics() -> Args {
    Args {
        ip: String::new(),
        count: 1,
        delay: 200,
        timeout: 5000,
        spam_message: None,
        spam_message_delay_min: 150,
        spam_message_delay_max: 250,
        enable_rotation: false,
        enable_swing: false,
        enable_movement: false,
        enable_jumping: false,
        enable_physics: true,
    }
}

fn double(t: &DoubleTerm) -> f64 {
    match t {
        DoubleTerm::Lit(bits) => f64::from_bits(*bits),
        DoubleTerm::Sum(x, y) => double(x) + double(y),
        DoubleTerm::Difference(x, y) => double(x) - double(y),
        DoubleTerm::Product(x, y) => double(x) * double(y),
        other => panic!("no part of physics: {other:?}"),
    }
}

fn single(t: &SingleTerm) -> f32 {
    match t {
        SingleTerm::Lit(bits) => f32::from_bits(*bits),
        SingleTerm::Difference(x, y) => single(x) - single(y),
        other => panic!("no part of physics: {other:?}"),
    }
}

fn physics_tick(client: &mut Client) {
    let args = only_physics();
    let mut step = client.tick_physics(&args);
    loop {
        match step {
            TickStep::Evaluate { round: Round::Drift, .. } => return,
            TickStep::Evaluate { round, terms } => {
                let values = Values {
                    a: double(&terms.a).to_bits(),
                    b: double(&terms.b).to_bits(),
                    c: double(&terms.c).to_bits(),
                    s: single(&terms.s).to_bits(),
                    t: single(&terms.t).to_bits(),
                };
                step = client.tick_values(&args, &protocol(), round, values).step;
            }
            other => panic!("no part of physics: {other:?}"),
        }
    }
}

fn active_client() -> Client {
    Client { connection_state: ConnectionState::Play, is_loaded: true, ..Client::new() }
}

fn handle(client: &mut Client, id: i32, payload: Vec<u8>) -> Step<Vec<Action>> {
    client.handle_packet(&protocol(), &RawPacket { id, payload })
}

fn actions(client: &mut Client, id: i32, payload: Vec<u8>) -> Vec<Action> {
    match handle(client, id, payload) {
        Step::Done(actions) => actions,
        other => panic!("not done: {other:?}"),
    }
}

fn decoded(client: &mut Client, id: i32, what: Decode, value: Decoded) -> Vec<Action> {
    match handle(client, id, Vec::new()) {
        Step::Decode(wanted) => assert_eq!(wanted, what),
        other => panic!("nothing to decode: {other:?}"),
    }
    client.handle_decoded(value)
}

fn server_key() -> (rsa::RsaPrivateKey, Vec<u8>) {
    let key = rsa::RsaPrivateKey::new(&mut rand::rng(), 1024).unwrap();
    let der = key.to_public_key().to_public_key_der().unwrap().into_vec();
    (key, der)
}

/// Lets the server ask for encryption, and returns what the server finds in the
/// client's answer: the secret and the token.
fn encrypt(
    client: &mut Client,
    key: &rsa::RsaPrivateKey,
    der: &[u8],
    token: &[u8],
) -> (Vec<u8>, Vec<u8>) {
    match handle(client, protocol().encryption_request, Vec::new()) {
        Step::Decode(wanted) => assert_eq!(wanted, Decode::EncryptionRequest),
        other => panic!("nothing to decode: {other:?}"),
    }
    let answer = client.handle_encryption_request(der, token).unwrap();
    assert_eq!(answer.len(), 2);
    match (&answer[0], &answer[1]) {
        (
            Effect::Send(Packet::EncryptionResponse { shared_secret, verify_token }),
            Effect::SetEncryption(secret),
        ) => {
            let found = key.decrypt(rsa::Pkcs1v15Encrypt, shared_secret).unwrap();
            assert_eq!(found, secret);
            (found, key.decrypt(rsa::Pkcs1v15Encrypt, verify_token).unwrap())
        }
        other => panic!("not an answer: {other:?}"),
    }
}

fn keep_alive(client: &mut Client, keep_alive_id: i64) -> Vec<Action> {
    decoded(client, protocol().keep_alive, Decode::KeepAlive, Decoded::KeepAlive { keep_alive_id })
}

fn place(client: &mut Client, teleport_id: i32, at: [f64; 3], yaw: f32, pitch: f32) -> Vec<Action> {
    decoded(
        client,
        protocol().player_position,
        Decode::PlayerPosition,
        Decoded::PlayerPosition {
            teleport_id,
            x: at[0].to_bits(),
            y: at[1].to_bits(),
            z: at[2].to_bits(),
            delta_x: 0.0f64.to_bits(),
            delta_y: 0.0f64.to_bits(),
            delta_z: 0.0f64.to_bits(),
            yaw: yaw.to_bits(),
            pitch: pitch.to_bits(),
        },
    )
}

fn respawn_request() -> Vec<Action> {
    vec![Effect::Send(Packet::ClientCommand { action_id: 0 })]
}

/// The payload that tells the bot its health, with 20 food and 5.0 saturation.
fn health(points: f32) -> Vec<u8> {
    let mut payload = points.to_be_bytes().to_vec();
    write_var_int(20, &mut payload);
    payload.extend_from_slice(&5.0f32.to_be_bytes());
    payload
}

#[test]
fn test_gravity_and_ground_collision() {
    let mut client = Client::new();
    client.body.y = 10.0f64.to_bits();
    client.body.ground_y = 0.0f64.to_bits();
    client.body.on_ground = false;

    for _ in 0..10 {
        physics_tick(&mut client);
    }
    assert!(f64::from_bits(client.body.y) < 10.0);
    assert!(f64::from_bits(client.body.velocity_y) < 0.0);

    for _ in 0..50 {
        physics_tick(&mut client);
    }
    assert_eq!(f64::from_bits(client.body.y), 0.0);
    assert_eq!(f64::from_bits(client.body.velocity_y), 0.0);
    assert!(client.body.on_ground);
}

#[test]
fn test_jump_physics() {
    let mut client = Client::new();
    client.body.y = 0.0f64.to_bits();
    client.body.ground_y = 0.0f64.to_bits();
    client.body.velocity_y = 0.42f64.to_bits();
    client.body.on_ground = false;

    physics_tick(&mut client);
    assert!(f64::from_bits(client.body.y) > 0.0);
    assert!(!client.body.on_ground);

    for _ in 0..50 {
        physics_tick(&mut client);
    }
    assert_eq!(f64::from_bits(client.body.y), 0.0);
    assert!(client.body.on_ground);
}

#[test]
fn test_horizontal_friction_decay() {
    let mut client = Client::new();
    client.body.y = 0.0f64.to_bits();
    client.body.ground_y = 0.0f64.to_bits();
    client.body.on_ground = true;
    client.body.velocity_x = 1.0f64.to_bits();

    physics_tick(&mut client);
    let vx = f64::from_bits(client.body.velocity_x);
    assert!(vx < 1.0);
    assert!((vx - 0.546).abs() < 1e-3);
}

#[test]
fn test_encryption_handshake_and_encrypted_stream() {
    let (key, der) = server_key();
    let mut client = Client { connection_state: ConnectionState::Login, ..Client::new() };

    let verify_token = [1u8, 2, 3, 4];
    let (secret, token) = encrypt(&mut client, &key, &der, &verify_token);
    assert_eq!(token, verify_token);
    assert_eq!(secret.len(), 16);

    client.connection_state = ConnectionState::Play;
    assert_eq!(
        keep_alive(&mut client, 123456),
        vec![Effect::Send(Packet::KeepAlive { keep_alive_id: 123456 })]
    );
}

#[test]
fn test_chat_message_with_encryption_and_compression() {
    let (key, der) = server_key();
    let mut client = Client { connection_state: ConnectionState::Login, ..Client::new() };

    assert_eq!(
        decoded(
            &mut client,
            protocol().set_compression,
            Decode::SetCompression,
            Decoded::SetCompression { threshold: 256 },
        ),
        vec![Effect::SetCompression { threshold: 256, level: 6 }]
    );

    let verify_token = [1u8, 2, 3, 4];
    let (secret, token) = encrypt(&mut client, &key, &der, &verify_token);
    assert_eq!(secret.len(), 16);
    assert_eq!(token, verify_token);

    client.connection_state = ConnectionState::Play;
    match client.send_message("Hello from bot!", 1_000) {
        Packet::ChatMessage { message, .. } => assert_eq!(message, "Hello from bot!"),
        other => panic!("no message: {other:?}"),
    }

    // A chat message from the server is none of the packets that matter.
    assert_eq!(actions(&mut client, 120, b"<BOT_0> Hello from bot!".to_vec()), vec![]);

    assert_eq!(
        keep_alive(&mut client, 999999),
        vec![Effect::Send(Packet::KeepAlive { keep_alive_id: 999999 })]
    );
}

#[test]
fn test_multiple_compressed_packets_streaming() {
    let mut client = Client { connection_state: ConnectionState::Play, ..Client::new() };
    assert_eq!(
        client.set_compression(Some((256, 4))),
        vec![Effect::SetCompression { threshold: 256, level: 4 }]
    );
    assert_eq!(actions(&mut client, 120, "A".repeat(1000).into_bytes()), vec![]);
    assert_eq!(
        keep_alive(&mut client, 111222),
        vec![Effect::Send(Packet::KeepAlive { keep_alive_id: 111222 })]
    );
}

#[test]
fn test_respawn_on_combat_death() {
    let mut client = Client { entity_id: 42, ..active_client() };
    let mut payload: Vec<u8> = Vec::new();
    write_var_int(42, &mut payload);
    payload.extend_from_slice(b"Bot died");

    assert_eq!(actions(&mut client, protocol().combat_death, payload), respawn_request());
    assert!(client.is_dead);
    assert!(!client.is_loaded);
}

#[test]
fn test_respawn_on_set_health_zero() {
    let mut client = active_client();
    assert_eq!(actions(&mut client, protocol().set_health, health(0.0)), respawn_request());
    assert!(client.is_dead);
}

#[test]
fn test_respawn_on_entity_status_death() {
    let mut client = Client { entity_id: 100, ..active_client() };
    let mut payload = 100i32.to_be_bytes().to_vec();
    payload.push(3);
    assert_eq!(actions(&mut client, protocol().entity_status, payload), respawn_request());
    assert!(client.is_dead);
}

#[test]
fn test_respawn_cycle_and_post_respawn_teleport() {
    let mut client = Client { entity_id: 7, ..active_client() };
    assert_eq!(actions(&mut client, protocol().set_health, health(0.0)), respawn_request());
    assert!(client.is_dead);

    assert_eq!(
        actions(&mut client, protocol().respawn, Vec::new()),
        vec![Effect::Send(Packet::PlayerLoaded)]
    );

    assert_eq!(
        place(&mut client, 55, [10.0, 64.0, 20.0], 90.0, 0.0),
        vec![Effect::Send(Packet::ConfirmTeleport { teleport_id: 55 })]
    );
    assert!(!client.is_dead);
    assert!(client.is_loaded);
    assert_eq!(f64::from_bits(client.body.x), 10.0);
    assert_eq!(f64::from_bits(client.body.y), 64.0);
    assert_eq!(f64::from_bits(client.body.z), 20.0);
}

#[test]
fn test_full_join_handshake_flow_with_encryption() {
    let (key, der) = server_key();
    let mut client = Client::new();
    let (handshake, login_start) =
        client.join_server(&protocol(), "127.0.0.1".to_string(), 25565, bot_name(1));
    match handshake {
        Packet::HandShake { next_state, .. } => assert_eq!(next_state, ConnectionState::Login),
        other => panic!("no handshake: {other:?}"),
    }
    match login_start {
        Packet::LoginStart { name, .. } => assert_eq!(name, "BOT_1"),
        other => panic!("no login: {other:?}"),
    }

    let verify_token = [9u8, 8, 7, 6];
    let (secret, token) = encrypt(&mut client, &key, &der, &verify_token);
    assert_eq!(token, verify_token);
    assert_eq!(secret.len(), 16);

    assert_eq!(
        actions(&mut client, protocol().login_success, Vec::new()),
        vec![Effect::Send(Packet::LoginAcknowledged), Effect::Send(Packet::KnownPacks)]
    );
    assert_eq!(
        actions(&mut client, protocol().finish_config, Vec::new()),
        vec![Effect::Send(Packet::AcknowledgeFinishConfig)]
    );
    assert_eq!(
        actions(&mut client, protocol().login, 123i32.to_be_bytes().to_vec()),
        vec![Effect::Send(Packet::PlayerLoaded)]
    );
    assert_eq!(
        place(&mut client, 101, [50.0, 70.0, -100.0], 45.0, 0.0),
        vec![Effect::Send(Packet::ConfirmTeleport { teleport_id: 101 })]
    );

    assert_eq!(client.connection_state, ConnectionState::Play);
    assert_eq!(client.entity_id, 123);
    assert!(client.is_loaded);
    assert!(!client.is_dead);
    assert_eq!(f64::from_bits(client.body.x), 50.0);
    assert_eq!(f64::from_bits(client.body.y), 70.0);
    assert_eq!(f64::from_bits(client.body.z), -100.0);

    match client.send_message("Bot connected successfully!", 1_000) {
        Packet::ChatMessage { message, .. } => {
            assert_eq!(message, "Bot connected successfully!")
        }
        other => panic!("no message: {other:?}"),
    }
    assert_eq!(client.close(), Effect::Close);
    assert!(client.closed);
}

#[test]
fn test_full_join_handshake_flow_with_encryption_and_compression() {
    let (key, der) = server_key();
    let mut client = Client::new();
    client.join_server(&protocol(), "127.0.0.1".to_string(), 25565, "BOT_COMPRESSED".to_string());

    assert_eq!(
        decoded(
            &mut client,
            protocol().set_compression,
            Decode::SetCompression,
            Decoded::SetCompression { threshold: 256 },
        ),
        vec![Effect::SetCompression { threshold: 256, level: 6 }]
    );

    let verify_token = [3u8, 2, 1, 0];
    let (secret, token) = encrypt(&mut client, &key, &der, &verify_token);
    assert_eq!(token, verify_token);
    assert_eq!(secret.len(), 16);

    assert_eq!(
        actions(&mut client, protocol().login_success, Vec::new()),
        vec![Effect::Send(Packet::LoginAcknowledged), Effect::Send(Packet::KnownPacks)]
    );
    assert_eq!(
        actions(&mut client, protocol().finish_config, Vec::new()),
        vec![Effect::Send(Packet::AcknowledgeFinishConfig)]
    );
    assert_eq!(
        actions(&mut client, protocol().login, 200i32.to_be_bytes().to_vec()),
        vec![Effect::Send(Packet::PlayerLoaded)]
    );
    assert_eq!(
        place(&mut client, 77, [12.3, 65.4, 78.9], 180.0, 10.0),
        vec![Effect::Send(Packet::ConfirmTeleport { teleport_id: 77 })]
    );

    assert_eq!(client.connection_state, ConnectionState::Play);
    assert!(client.is_loaded);
    assert_eq!(f64::from_bits(client.body.x), 12.3);
    assert_eq!(f64::from_bits(client.body.y), 65.4);
    assert_eq!(f64::from_bits(client.body.z), 78.9);
    assert_eq!(client.close(), Effect::Close);
}
