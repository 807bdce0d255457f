//! What travels between the client and the server, as plain values.

use crate::float::{Double, Single};
use vstd::prelude::*;

verus! {

/// The phase that a connection is in.
#[derive(Clone, Copy, Debug, PartialEq, Eq, Structural)]
pub enum ConnectionState {
    HandShake,
    Status,
    Login,
    Transfer,
    Config,
    Play,
}

/// The numbers of the protocol version that is spoken: the version itself, the
/// flag for standing on the ground, and the ids of the packets that the client
/// listens to.
#[derive(Clone, Copy, Debug, PartialEq, Eq, Structural)]
pub struct Protocol {
    pub version: i32,
    pub flag_on_ground: u8,
    // Login
    pub encryption_request: i32,
    pub set_compression: i32,
    pub login_disconnect: i32,
    pub login_success: i32,
    // Configuration
    pub config_disconnect: i32,
    pub known_packs: i32,
    pub config_ping: i32,
    pub finish_config: i32,
    // Play
    pub keep_alive: i32,
    pub entity_velocity: i32,
    pub player_position: i32,
    pub combat_death: i32,
    pub set_health: i32,
    pub entity_status: i32,
    pub respawn: i32,
    pub login: i32,
    pub play_disconnect: i32,
}

/// A packet to the server, over some representation of text and bytes.
#[derive(Debug, PartialEq)]
pub enum Packet<Text, Bytes> {
    HandShake {
        protocol_version: i32,
        server_address: Text,
        server_port: u16,
        next_state: ConnectionState,
    },
    LoginStart { name: Text, uuid: u128 },
    EncryptionResponse { shared_secret: Bytes, verify_token: Bytes },
    LoginAcknowledged,
    /// The list of known packs, which is always empty.
    KnownPacks,
    ConfigPong { id: i32 },
    AcknowledgeFinishConfig,
    KeepAlive { keep_alive_id: i64 },
    ConfirmTeleport { teleport_id: i32 },
    PlayerLoaded,
    ClientCommand { action_id: i32 },
    SwingArm { hand: i32 },
    /// A chat message without a signature.
    ChatMessage {
        message: Text,
        timestamp: i64,
        salt: i64,
        message_count: i32,
        acknowledged: Bytes,
        checksum: u8,
    },
    PlayerPosition { x: Double, y: Double, z: Double, collision: u8 },
    PlayerPositionRotation {
        x: Double,
        y: Double,
        z: Double,
        yaw: Single,
        pitch: Single,
        collision: u8,
    },
    PlayerRotation { yaw: Single, pitch: Single, ground: bool },
    SetPlayerGround { on_ground: bool },
}

/// A packet to the server.
pub type Serverbound = Packet<String, Vec<u8>>;

/// A packet to the server as contracts speak of it.
pub type PacketModel = Packet<Seq<char>, Seq<u8>>;

impl View for Packet<String, Vec<u8>> {
    type V = PacketModel;

    open spec fn view(&self) -> PacketModel {
        match *self {
            Packet::HandShake { protocol_version, server_address, server_port, next_state } =>
                Packet::HandShake {
                    protocol_version,
                    server_address: server_address@,
                    server_port,
                    next_state,
                },
            Packet::LoginStart { name, uuid } => Packet::LoginStart { name: name@, uuid },
            Packet::EncryptionResponse { shared_secret, verify_token } =>
                Packet::EncryptionResponse {
                    shared_secret: shared_secret@,
                    verify_token: verify_token@,
                },
            Packet::LoginAcknowledged => Packet::LoginAcknowledged,
            Packet::KnownPacks => Packet::KnownPacks,
            Packet::ConfigPong { id } => Packet::ConfigPong { id },
            Packet::AcknowledgeFinishConfig => Packet::AcknowledgeFinishConfig,
            Packet::KeepAlive { keep_alive_id } => Packet::KeepAlive { keep_alive_id },
            Packet::ConfirmTeleport { teleport_id } => Packet::ConfirmTeleport { teleport_id },
            Packet::PlayerLoaded => Packet::PlayerLoaded,
            Packet::ClientCommand { action_id } => Packet::ClientCommand { action_id },
            Packet::SwingArm { hand } => Packet::SwingArm { hand },
            Packet::ChatMessage {
                message,
                timestamp,
                salt,
                message_count,
                acknowledged,
                checksum,
            } => Packet::ChatMessage {
                message: message@,
                timestamp,
                salt,
                message_count,
                acknowledged: acknowledged@,
                checksum,
            },
            Packet::PlayerPosition { x, y, z, collision } => Packet::PlayerPosition {
                x,
                y,
                z,
                collision,
            },
            Packet::PlayerPositionRotation { x, y, z, yaw, pitch, collision } =>
                Packet::PlayerPositionRotation { x, y, z, yaw, pitch, collision },
            Packet::PlayerRotation { yaw, pitch, ground } => Packet::PlayerRotation {
                yaw,
                pitch,
                ground,
            },
            Packet::SetPlayerGround { on_ground } => Packet::SetPlayerGround { on_ground },
        }
    }
}

/// Something to be done to the connection, over some representation of packets.
#[derive(Debug, PartialEq)]
pub enum Effect<P> {
    /// Send a packet.
    Send(P),
    /// Compress from here on what is at least `threshold` bytes long.
    SetCompression { threshold: usize, level: u32 },
    /// Compress nothing from here on.
    StopCompression,
    /// Encrypt both directions from here on.
    SetEncryption([u8; 16]),
    /// Wake whoever waits for the connection to close.
    Close,
}

/// Something to be done to the connection.
pub type Action = Effect<Serverbound>;

/// Something to be done to the connection, as contracts speak of it.
pub type ActionModel = Effect<PacketModel>;

impl View for Effect<Serverbound> {
    type V = ActionModel;

    open spec fn view(&self) -> ActionModel {
        match *self {
            Effect::Send(packet) => Effect::Send(packet@),
            Effect::SetCompression { threshold, level } => Effect::SetCompression {
                threshold,
                level,
            },
            Effect::StopCompression => Effect::StopCompression,
            Effect::SetEncryption(key) => Effect::SetEncryption(key),
            Effect::Close => Effect::Close,
        }
    }
}

/// Actions in the order in which they are to be done, as contracts speak of them.
pub open spec fn plain(actions: Seq<Action>) -> Seq<ActionModel> {
    actions.map_values(|a: Action| a@)
}

/// No action.
pub(crate) fn nothing() -> (r: Vec<Action>)
    ensures
        plain(r@) == Seq::<ActionModel>::empty(),
{
    let v: Vec<Action> = Vec::new();
    assert(plain(v@) =~= Seq::<ActionModel>::empty());
    v
}

/// One action.
pub(crate) fn only(first: Action) -> (r: Vec<Action>)
    ensures
        plain(r@) == seq![first@],
{
    let mut v: Vec<Action> = Vec::new();
    v.push(first);
    assert(plain(v@) =~= seq![first@]);
    v
}

/// Two actions, one after the other.
pub(crate) fn both(first: Action, second: Action) -> (r: Vec<Action>)
    ensures
        plain(r@) == seq![first@, second@],
{
    let mut v: Vec<Action> = Vec::new();
    v.push(first);
    v.push(second);
    assert(plain(v@) =~= seq![first@, second@]);
    v
}

} // verus!
