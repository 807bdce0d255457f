//! What a client does with the packets it receives.
//!
//! A packet is taken in by [`Client::handle_packet`].  Where the fields of the
//! packet are needed, it asks for them; they are then handed to
//! [`Client::handle_decoded`], or, for an encryption request, to
//! [`Client::handle_encryption_request`].

use crate::client::{closed_client, respawn_actions, respawned, Body, Client, LastSent, Look, Walk};
use crate::crypt::{
    answer_request, byte_length, decoded_public_key, is_answer, is_encryption, is_key_size,
    key_complaint, says, token_complaint, Handshake, KeyNumbers, DOCUMENT_LIMIT,
};
use crate::float::{
    double_le, double_lt, le_double, le_single, lt_double, single_le, Double, Single, SINGLE_ONE,
};
use crate::packet::{
    both, nothing, only, plain, Action, ActionModel, ConnectionState, Effect, Packet, Protocol,
};
use crate::random::draw;
use crate::wire::{
    byte_at, int_at, law_var_int_within, read_byte, read_int, read_single, read_var_int, single_at,
    var_int_at, RawPacket, ReadingError,
};
use vstd::prelude::*;

verus! {

/// The compression level that a server's threshold is used with.
pub const COMPRESSION_LEVEL: u32 = 6;

/// The entity status that reports a death.
pub const STATUS_DEATH: i8 = 3;

/// Which fields of the packet at hand are needed.
#[derive(Clone, Copy, Debug, PartialEq, Eq, Structural)]
pub enum Decode {
    EncryptionRequest,
    SetCompression,
    ConfigPing,
    KeepAlive,
    /// The velocity that begins at byte `from` of the payload.
    EntityVelocity { from: usize },
    PlayerPosition,
}

/// The fields of the packet at hand.
#[derive(Clone, Copy, Debug, PartialEq, Eq, Structural)]
pub enum Decoded {
    SetCompression { threshold: i32 },
    ConfigPing { id: i32 },
    KeepAlive { keep_alive_id: i64 },
    EntityVelocity { x: Double, y: Double, z: Double },
    PlayerPosition {
        teleport_id: i32,
        x: Double,
        y: Double,
        z: Double,
        delta_x: Double,
        delta_y: Double,
        delta_z: Double,
        yaw: Single,
        pitch: Single,
    },
}

/// What is to be done about a packet, over some representation of actions.
#[derive(Debug)]
pub enum Step<Actions> {
    /// Do this, in this order, and be done with the packet.
    Done(Actions),
    /// Decode these fields and hand them over.
    Decode(Decode),
    /// The packet cannot be read.
    Failed(ReadingError),
}

/// What is to be done about a packet.
pub type PacketStep = Step<Vec<Action>>;

/// What is to be done about a packet, as contracts speak of it.
pub type StepModel = Step<Seq<ActionModel>>;

impl View for Step<Vec<Action>> {
    type V = StepModel;

    open spec fn view(&self) -> StepModel {
        match *self {
            Step::Done(actions) => Step::Done(plain(actions@)),
            Step::Decode(what) => Step::Decode(what),
            Step::Failed(e) => Step::Failed(e),
        }
    }
}

/// Nothing to be done.
pub open spec fn idle() -> StepModel {
    Step::Done(Seq::empty())
}

/// A client and its connection being closed.
pub open spec fn kicked(c: Client) -> (Client, StepModel) {
    (closed_client(c), Step::Done(seq![Effect::Close]))
}

/// A client that has learnt of its death.
pub open spec fn killed(c: Client) -> (Client, StepModel) {
    (respawned(c), Step::Done(respawn_actions(c)))
}

/// A packet being received in the login phase.
pub open spec fn login_received(c: Client, p: Protocol, id: i32) -> (Client, StepModel) {
    if id == p.encryption_request {
        (c, Step::Decode(Decode::EncryptionRequest))
    } else if id == p.set_compression {
        (c, Step::Decode(Decode::SetCompression))
    } else if id == p.login_disconnect {
        kicked(c)
    } else if id == p.login_success {
        (
            Client { connection_state: ConnectionState::Config, ..c },
            Step::Done(
                seq![Effect::Send(Packet::LoginAcknowledged), Effect::Send(Packet::KnownPacks)],
            ),
        )
    } else {
        (c, idle())
    }
}

/// A packet being received in the configuration phase.
pub open spec fn config_received(c: Client, p: Protocol, id: i32) -> (Client, StepModel) {
    if id == p.config_disconnect {
        kicked(c)
    } else if id == p.known_packs {
        (c, Step::Done(seq![Effect::Send(Packet::KnownPacks)]))
    } else if id == p.config_ping {
        (c, Step::Decode(Decode::ConfigPing))
    } else if id == p.finish_config {
        (
            Client { connection_state: ConnectionState::Play, ..c },
            Step::Done(seq![Effect::Send(Packet::AcknowledgeFinishConfig)]),
        )
    } else {
        (c, idle())
    }
}

/// A velocity being received: only the bot's own is looked at.
pub open spec fn velocity_received(c: Client, payload: Seq<u8>) -> (Client, StepModel) {
    match var_int_at(payload) {
        Err(e) => (c, Step::Failed(e)),
        Ok((entity, n)) => if entity == c.entity_id {
            (c, Step::Decode(Decode::EntityVelocity { from: n as usize }))
        } else {
            (c, idle())
        },
    }
}

/// News of a death in combat being received.
pub open spec fn death_received(c: Client, payload: Seq<u8>) -> (Client, StepModel) {
    match var_int_at(payload) {
        Err(e) => (c, Step::Failed(e)),
        Ok((player, _)) => if player == c.entity_id {
            killed(c)
        } else {
            (c, idle())
        },
    }
}

/// The bot's health being received: without any left, it is dead.
pub open spec fn health_received(c: Client, payload: Seq<u8>) -> (Client, StepModel) {
    match single_at(payload) {
        Err(e) => (c, Step::Failed(e)),
        Ok(health) => if single_le(health, 0) {
            killed(c)
        } else {
            (Client { is_dead: false, ..c }, idle())
        },
    }
}

/// An entity's status being received.
pub open spec fn status_received(c: Client, payload: Seq<u8>) -> (Client, StepModel) {
    match (int_at(payload), byte_at(payload, 4)) {
        (Err(e), _) => (c, Step::Failed(e)),
        (Ok(_), Err(e)) => (c, Step::Failed(e)),
        (Ok(entity), Ok(status)) => if entity == c.entity_id && status == STATUS_DEATH {
            killed(c)
        } else {
            (c, idle())
        },
    }
}

/// The bot's own entity number being received.
pub open spec fn spawn_received(c: Client, payload: Seq<u8>) -> (Client, StepModel) {
    match int_at(payload) {
        Err(e) => (c, Step::Failed(e)),
        Ok(entity_id) => (
            Client { entity_id, ..c },
            Step::Done(seq![Effect::Send(Packet::PlayerLoaded)]),
        ),
    }
}

/// A packet being received in the play phase.
pub open spec fn play_received(c: Client, p: Protocol, id: i32, payload: Seq<u8>) -> (
    Client,
    StepModel,
) {
    if id == p.keep_alive {
        (c, Step::Decode(Decode::KeepAlive))
    } else if id == p.entity_velocity {
        velocity_received(c, payload)
    } else if id == p.player_position {
        (c, Step::Decode(Decode::PlayerPosition))
    } else if id == p.combat_death {
        death_received(c, payload)
    } else if id == p.set_health {
        health_received(c, payload)
    } else if id == p.entity_status {
        status_received(c, payload)
    } else if id == p.respawn {
        (c, Step::Done(seq![Effect::Send(Packet::PlayerLoaded)]))
    } else if id == p.login {
        spawn_received(c, payload)
    } else if id == p.play_disconnect {
        kicked(c)
    } else {
        (c, idle())
    }
}

/// Whether a client may receive packets: not before it has asked to log in,
/// and never for a mere status inquiry.
pub open spec fn can_receive(c: Client) -> bool {
    c.connection_state != ConnectionState::HandShake && c.connection_state
        != ConnectionState::Status
}

/// A packet being received.
pub open spec fn received(c: Client, p: Protocol, id: i32, payload: Seq<u8>) -> (
    Client,
    StepModel,
) {
    match c.connection_state {
        ConnectionState::Login => login_received(c, p, id),
        ConnectionState::Config => config_received(c, p, id),
        ConnectionState::Play => play_received(c, p, id, payload),
        _ => (c, idle()),
    }
}

/// The client after the fields of a packet have been handed over.  `rest` is
/// how many ticks it will rest where the server has just placed it.
pub open spec fn informed(c: Client, value: Decoded, rest: u32) -> Client {
    match value {
        Decoded::EntityVelocity { x, y, z } => Client {
            body: Body {
                velocity_x: x,
                velocity_y: y,
                velocity_z: z,
                on_ground: c.body.on_ground && !double_lt(0, y),
                ..c.body
            },
            ..c
        },
        Decoded::PlayerPosition {
            teleport_id: _,
            x,
            y,
            z,
            delta_x,
            delta_y,
            delta_z,
            yaw,
            pitch,
        } => {
            let on_ground = double_le(delta_y, 0);
            Client {
                is_loaded: true,
                is_dead: false,
                body: Body {
                    x,
                    y,
                    z,
                    ground_y: y,
                    on_ground,
                    velocity_x: delta_x,
                    velocity_y: delta_y,
                    velocity_z: delta_z,
                },
                last_sent: LastSent { x, y, z, yaw, pitch, on_ground, ..c.last_sent },
                walk: Walk { is_walking: false, move_cooldown: rest, ..c.walk },
                look: Look {
                    yaw,
                    pitch,
                    target_yaw: yaw,
                    target_pitch: pitch,
                    progress: SINGLE_ONE,
                    ..c.look
                },
                ..c
            }
        },
        _ => c,
    }
}

/// What the fields of a packet call for.
pub open spec fn reply(value: Decoded) -> Seq<ActionModel> {
    match value {
        Decoded::SetCompression { threshold } => seq![
            Effect::SetCompression { threshold: threshold as usize, level: COMPRESSION_LEVEL },
        ],
        Decoded::ConfigPing { id } => seq![Effect::Send(Packet::ConfigPong { id })],
        Decoded::KeepAlive { keep_alive_id } => seq![
            Effect::Send(Packet::KeepAlive { keep_alive_id }),
        ],
        Decoded::PlayerPosition { teleport_id, .. } => seq![
            Effect::Send(Packet::ConfirmTeleport { teleport_id }),
        ],
        _ => Seq::empty(),
    }
}

/// What a handshake calls for: to send its two ciphers, and only then to
/// encrypt with its secret.
pub open spec fn handshake_actions(shared_secret: Seq<u8>, verify_token: Seq<u8>, key: [u8; 16]) -> Seq<
    ActionModel,
> {
    seq![
        Effect::Send(Packet::EncryptionResponse { shared_secret, verify_token }),
        Effect::SetEncryption(key),
    ]
}

/// What an encryption request calls for, when its document decodes to `key` and
/// the given secret is used.
pub open spec fn is_encryption_reply(
    r: Result<Vec<Action>, ReadingError>,
    key: Result<KeyNumbers, Seq<char>>,
    token: Seq<u8>,
    secret: [u8; 16],
) -> bool {
    match key {
        Err(words) => r matches Err(e) && says(e, key_complaint(words)),
        Ok(key) => if token.len() + 11 > byte_length(key.modulus) {
            r matches Err(e) && says(e, token_complaint())
        } else {
            r matches Ok(actions) && exists|shared: Seq<u8>, verify: Seq<u8>|
                plain(actions@) == #[trigger] handshake_actions(shared, verify, secret)
                    && is_encryption(shared, secret@, key) && is_encryption(verify, token, key)
        },
    }
}

/// The ticks that a client rests where the server has placed it.
pub open spec fn is_placed_rest(rest: u32) -> bool {
    20 <= rest < 60
}

/// What a handshake, or the failure to make one, calls for.
pub fn encryption_actions(answer: Result<Handshake, ReadingError>) -> (r: Result<
    Vec<Action>,
    ReadingError,
>)
    ensures
        match answer {
            Ok(h) => r matches Ok(actions) && plain(actions@) == handshake_actions(
                h.shared_secret@,
                h.verify_token@,
                h.secret,
            ),
            Err(e) => r == Err::<Vec<Action>, ReadingError>(e),
        },
{
    match answer {
        Ok(h) => Ok(
            both(
                Effect::Send(
                    Packet::EncryptionResponse {
                        shared_secret: h.shared_secret,
                        verify_token: h.verify_token,
                    },
                ),
                Effect::SetEncryption(h.secret),
            ),
        ),
        Err(e) => Err(e),
    }
}

impl Client {
    /// Takes in a packet.
    pub fn handle_packet(&mut self, protocol: &Protocol, packet: &RawPacket) -> (r: PacketStep)
        requires
            can_receive(*old(self)),
        ensures
            (*final(self), r@) == received(*old(self), *protocol, packet.id, packet.payload@),
    {
        match self.connection_state {
            ConnectionState::Login => self.handle_login_packet(protocol, packet.id),
            ConnectionState::Config => self.handle_config_packet(protocol, packet.id),
            ConnectionState::Play => self.handle_play_packet(protocol, packet),
            _ => Step::Done(nothing()),
        }
    }

    /// Takes in a packet of the login phase.
    pub fn handle_login_packet(&mut self, protocol: &Protocol, id: i32) -> (r: PacketStep)
        ensures
            (*final(self), r@) == login_received(*old(self), *protocol, id),
    {
        if id == protocol.encryption_request {
            Step::Decode(Decode::EncryptionRequest)
        } else if id == protocol.set_compression {
            Step::Decode(Decode::SetCompression)
        } else if id == protocol.login_disconnect {
            Step::Done(only(self.close()))
        } else if id == protocol.login_success {
            self.connection_state = ConnectionState::Config;
            Step::Done(
                both(Effect::Send(Packet::LoginAcknowledged), Effect::Send(Packet::KnownPacks)),
            )
        } else {
            Step::Done(nothing())
        }
    }

    /// Takes in a packet of the configuration phase.
    pub fn handle_config_packet(&mut self, protocol: &Protocol, id: i32) -> (r: PacketStep)
        ensures
            (*final(self), r@) == config_received(*old(self), *protocol, id),
    {
        if id == protocol.config_disconnect {
            Step::Done(only(self.close()))
        } else if id == protocol.known_packs {
            Step::Done(only(Effect::Send(Packet::KnownPacks)))
        } else if id == protocol.config_ping {
            Step::Decode(Decode::ConfigPing)
        } else if id == protocol.finish_config {
            self.connection_state = ConnectionState::Play;
            Step::Done(only(Effect::Send(Packet::AcknowledgeFinishConfig)))
        } else {
            Step::Done(nothing())
        }
    }

    /// Takes in a packet of the play phase.
    pub fn handle_play_packet(&mut self, protocol: &Protocol, packet: &RawPacket) -> (r: PacketStep)
        ensures
            (*final(self), r@) == play_received(
                *old(self),
                *protocol,
                packet.id,
                packet.payload@,
            ),
    {
        let id: i32 = packet.id;
        let payload: &[u8] = packet.payload.as_slice();
        if id == protocol.keep_alive {
            Step::Decode(Decode::KeepAlive)
        } else if id == protocol.entity_velocity {
            match read_var_int(payload) {
                Err(e) => Step::Failed(e),
                Ok((entity, n)) => {
                    proof {
                        law_var_int_within(payload@);
                    }
                    if entity == self.entity_id {
                        Step::Decode(Decode::EntityVelocity { from: n })
                    } else {
                        Step::Done(nothing())
                    }
                },
            }
        } else if id == protocol.player_position {
            Step::Decode(Decode::PlayerPosition)
        } else if id == protocol.combat_death {
            match read_var_int(payload) {
                Err(e) => Step::Failed(e),
                Ok((player, _)) => {
                    if player == self.entity_id {
                        Step::Done(self.respawn())
                    } else {
                        Step::Done(nothing())
                    }
                },
            }
        } else if id == protocol.set_health {
            match read_single(payload) {
                Err(e) => Step::Failed(e),
                Ok(health) => {
                    if le_single(health, 0) {
                        Step::Done(self.respawn())
                    } else {
                        self.is_dead = false;
                        Step::Done(nothing())
                    }
                },
            }
        } else if id == protocol.entity_status {
            match read_int(payload) {
                Err(e) => Step::Failed(e),
                Ok(entity) => match read_byte(payload, 4) {
                    Err(e) => Step::Failed(e),
                    Ok(status) => {
                        if entity == self.entity_id && status == STATUS_DEATH {
                            Step::Done(self.respawn())
                        } else {
                            Step::Done(nothing())
                        }
                    },
                },
            }
        } else if id == protocol.respawn {
            Step::Done(only(Effect::Send(Packet::PlayerLoaded)))
        } else if id == protocol.login {
            match read_int(payload) {
                Err(e) => Step::Failed(e),
                Ok(entity_id) => {
                    self.entity_id = entity_id;
                    Step::Done(only(Effect::Send(Packet::PlayerLoaded)))
                },
            }
        } else if id == protocol.play_disconnect {
            Step::Done(only(self.close()))
        } else {
            Step::Done(nothing())
        }
    }

    /// Takes in the fields of a packet, with the rest given.
    pub fn handle_decoded_with(&mut self, value: Decoded, rest: u32) -> (r: Vec<Action>)
        ensures
            *final(self) == informed(*old(self), value, rest),
            plain(r@) == reply(value),
    {
        match value {
            Decoded::SetCompression { threshold } => self.set_compression(
                Some((threshold as usize, COMPRESSION_LEVEL)),
            ),
            Decoded::ConfigPing { id } => only(Effect::Send(Packet::ConfigPong { id })),
            Decoded::KeepAlive { keep_alive_id } => only(
                Effect::Send(Packet::KeepAlive { keep_alive_id }),
            ),
            Decoded::EntityVelocity { x, y, z } => {
                self.body.velocity_x = x;
                self.body.velocity_y = y;
                self.body.velocity_z = z;
                if lt_double(0, y) {
                    self.body.on_ground = false;
                }
                nothing()
            },
            Decoded::PlayerPosition {
                teleport_id,
                x,
                y,
                z,
                delta_x,
                delta_y,
                delta_z,
                yaw,
                pitch,
            } => {
                self.look.yaw = yaw;
                self.look.pitch = pitch;
                self.look.target_yaw = yaw;
                self.look.target_pitch = pitch;
                self.look.progress = SINGLE_ONE;
                let on_ground: bool = le_double(delta_y, 0);
                self.body = Body {
                    x,
                    y,
                    z,
                    ground_y: y,
                    on_ground,
                    velocity_x: delta_x,
                    velocity_y: delta_y,
                    velocity_z: delta_z,
                };
                self.last_sent.x = x;
                self.last_sent.y = y;
                self.last_sent.z = z;
                self.last_sent.yaw = yaw;
                self.last_sent.pitch = pitch;
                self.last_sent.on_ground = on_ground;
                self.walk.is_walking = false;
                self.walk.move_cooldown = rest;
                self.is_loaded = true;
                self.is_dead = false;
                only(Effect::Send(Packet::ConfirmTeleport { teleport_id }))
            },
        }
    }

    /// Takes in the fields of a packet.  A client that has been placed rests
    /// there for a random time.
    pub fn handle_decoded(&mut self, value: Decoded) -> (r: Vec<Action>)
        ensures
            exists|rest: u32|
                (value is PlayerPosition ==> is_placed_rest(rest)) && *final(self)
                    == #[trigger] informed(*old(self), value, rest),
            plain(r@) == reply(value),
    {
        let rest: u32 = match value {
            Decoded::PlayerPosition { .. } => draw(20, 60),
            _ => 0,
        };
        self.handle_decoded_with(value, rest)
    }

    /// Answers a request to encrypt the connection: a random secret goes to the
    /// server, encrypted under the server's public key like the server's token,
    /// and becomes the key of the connection.
    pub fn handle_encryption_request(&self, public_key: &[u8], verify_token: &[u8]) -> (r: Result<
        Vec<Action>,
        ReadingError,
    >)
        requires
            public_key@.len() < DOCUMENT_LIMIT,
        ensures
            exists|secret: [u8; 16]|
                is_encryption_reply(
                    r,
                    decoded_public_key(public_key@),
                    verify_token@,
                    secret,
                ),
            decoded_public_key(public_key@) matches Ok(key) ==> is_key_size(key),
    {
        let answer: Result<Handshake, ReadingError> = answer_request(public_key, verify_token);
        let ghost key = decoded_public_key(public_key@);
        let ghost secret = choose|secret: [u8; 16]|
            is_answer(answer, key, verify_token@, secret);
        let r = encryption_actions(answer);
        assert(is_encryption_reply(r, key, verify_token@, secret));
        r
    }
}

} // verus!
