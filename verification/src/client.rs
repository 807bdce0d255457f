//! The state of one bot, and what it does outside of its tick and of the
//! packets it receives.

use crate::float::{Double, Single, SINGLE_ONE};
use crate::packet::{
    nothing, only, plain, Action, ActionModel, ConnectionState, Effect, Packet, PacketModel,
    Protocol, Serverbound,
};
use crate::random::{draw_salt, draw_uuid, is_random_uuid};
use crate::wire::{packet_bytes, write_var_int, RawPacket, ReadingError};
use vstd::prelude::*;

verus! {

/// Where a bot is and how it moves.
#[derive(Clone, Copy, Debug, PartialEq, Eq, Structural)]
pub struct Body {
    pub x: Double,
    pub y: Double,
    pub z: Double,
    /// The height of the ground below the bot.
    pub ground_y: Double,
    pub on_ground: bool,
    pub velocity_x: Double,
    pub velocity_y: Double,
    pub velocity_z: Double,
}

/// What the server was last told of a bot's place.
#[derive(Clone, Copy, Debug, PartialEq, Eq, Structural)]
pub struct LastSent {
    pub x: Double,
    pub y: Double,
    pub z: Double,
    pub yaw: Single,
    pub pitch: Single,
    pub on_ground: bool,
    /// Ticks since the server was last told anything.
    pub ticks: u32,
}

/// A bot's walking about.
#[derive(Clone, Copy, Debug, PartialEq, Eq, Structural)]
pub struct Walk {
    pub is_walking: bool,
    /// Ticks that the present walk still lasts.
    pub move_ticks: u32,
    /// Ticks until the next walk.
    pub move_cooldown: u32,
    pub dir_x: Double,
    pub dir_z: Double,
    /// Ticks until the next jump is possible.
    pub jump_cooldown: u32,
}

/// A bot's looking around: a turn from one direction to another.
#[derive(Clone, Copy, Debug, PartialEq, Eq, Structural)]
pub struct Look {
    pub yaw: Single,
    pub pitch: Single,
    pub start_yaw: Single,
    pub start_pitch: Single,
    pub target_yaw: Single,
    pub target_pitch: Single,
    /// How much of the turn is done, from zero to one.
    pub progress: Single,
    /// Ticks until the next turn.
    pub cooldown: u32,
}

/// One bot and its connection to the server.
#[derive(Clone, Copy, Debug, PartialEq, Eq, Structural)]
pub struct Client {
    /// The phase that the connection is in.
    pub connection_state: ConnectionState,
    /// Whether the connection has been closed.
    pub closed: bool,
    /// The number by which the server speaks of this bot.
    pub entity_id: i32,
    /// Ticks until the next chat message.
    pub message_spam_cooldown: u32,
    /// How many chat messages have been sent.
    pub message_count: u32,
    /// Whether the server has placed the bot in the world.
    pub is_loaded: bool,
    pub is_dead: bool,
    /// Ticks until the next arm swing is possible.
    pub swing_cooldown: u32,
    pub body: Body,
    pub last_sent: LastSent,
    pub walk: Walk,
    pub look: Look,
}

/// A bot that has not said anything yet.
pub open spec fn fresh_client() -> Client {
    Client {
        connection_state: ConnectionState::HandShake,
        closed: false,
        entity_id: 0,
        message_spam_cooldown: 1,
        message_count: 0,
        is_loaded: false,
        is_dead: false,
        swing_cooldown: 0,
        body: Body {
            x: 0,
            y: 0,
            z: 0,
            ground_y: 0,
            on_ground: true,
            velocity_x: 0,
            velocity_y: 0,
            velocity_z: 0,
        },
        last_sent: LastSent { x: 0, y: 0, z: 0, yaw: 0, pitch: 0, on_ground: true, ticks: 0 },
        walk: Walk {
            is_walking: false,
            move_ticks: 0,
            move_cooldown: 0,
            dir_x: 0,
            dir_z: 0,
            jump_cooldown: 0,
        },
        look: Look {
            yaw: 0,
            pitch: 0,
            start_yaw: 0,
            start_pitch: 0,
            target_yaw: 0,
            target_pitch: 0,
            progress: SINGLE_ONE,
            cooldown: 0,
        },
    }
}

/// The client once its connection is closed.
pub open spec fn closed_client(c: Client) -> Client {
    Client { closed: true, ..c }
}

/// The client once it has asked to be brought back to life.
pub open spec fn dead_client(c: Client) -> Client {
    Client {
        is_dead: true,
        is_loaded: false,
        walk: Walk { is_walking: false, ..c.walk },
        body: Body { velocity_x: 0, velocity_y: 0, velocity_z: 0, ..c.body },
        ..c
    }
}

/// The client after news of its death: a client that knows of it already stays
/// as it is.
pub open spec fn respawned(c: Client) -> Client {
    if c.is_dead {
        c
    } else {
        dead_client(c)
    }
}

/// What news of its death makes a client send.
pub open spec fn respawn_actions(c: Client) -> Seq<ActionModel> {
    if c.is_dead {
        Seq::empty()
    } else {
        seq![Effect::Send(Packet::ClientCommand { action_id: 0 })]
    }
}

/// The client with one more chat message counted.
pub open spec fn counted(c: Client) -> Client {
    Client { message_count: vstd::wrapping::u32_specs::wrapping_add(c.message_count, 1), ..c }
}

/// The chat message that a client sends at a given time with a given salt.
pub open spec fn chat_packet(c: Client, message: Seq<char>, millis: u128, salt: i64) -> PacketModel {
    Packet::ChatMessage {
        message,
        timestamp: millis as i64,
        salt,
        message_count: c.message_count as i32,
        acknowledged: seq![0, 0, 0],
        checksum: 0,
    }
}

/// What came of waiting for a packet.
#[derive(Debug)]
pub enum ReadEvent {
    /// The connection was closed while waiting.
    Interrupted,
    /// A packet.
    Arrived(RawPacket),
    /// No packet could be made of what came in, because the server closed the
    /// connection or for another reason.
    Failed { connection_closed: bool },
}

/// A wait for a packet coming to its end: the client after it, the packet if one
/// has come, and what is to be done.
pub open spec fn got(c: Client, event: ReadEvent) -> (
    Client,
    Option<RawPacket>,
    Seq<ActionModel>,
) {
    match event {
        ReadEvent::Interrupted => (c, None, Seq::empty()),
        ReadEvent::Arrived(packet) => (c, Some(packet), Seq::empty()),
        ReadEvent::Failed { connection_closed } => if connection_closed {
            (c, None, Seq::empty())
        } else {
            (closed_client(c), None, seq![Effect::Close])
        },
    }
}

/// What came of handling a packet, if there was one, as contracts speak of it.
pub open spec fn outcome_model(outcome: Option<Result<Vec<Action>, ReadingError>>) -> Option<
    Result<Seq<ActionModel>, ReadingError>,
> {
    match outcome {
        None => None,
        Some(Ok(actions)) => Some(Ok(plain(actions@))),
        Some(Err(e)) => Some(Err(e)),
    }
}

/// The end of a packet's processing: the client after it, whether there was a
/// packet, and what is to be done.
pub open spec fn concluded(c: Client, outcome: Option<Result<Seq<ActionModel>, ReadingError>>) -> (
    Client,
    bool,
    Seq<ActionModel>,
) {
    match outcome {
        None => (c, false, Seq::empty()),
        Some(Ok(actions)) => (c, true, actions),
        Some(Err(_)) => (closed_client(c), true, seq![Effect::Close]),
    }
}

/// What came of a step of sending a packet.
#[derive(Clone, Copy, Debug, PartialEq, Eq, Structural)]
pub enum SendEvent {
    /// The packet was written, or could not be.
    Written { ok: bool },
    /// What was written was flushed, or could not be.
    Flushed { ok: bool },
}

/// What to do after a step of sending a packet.
#[derive(Clone, Copy, Debug, PartialEq, Eq, Structural)]
pub struct SendStep {
    /// Flush what was written.
    pub flush: bool,
    /// Warn of the failure, and wake whoever waits for the connection to close.
    pub close: bool,
}

/// What to do after a step of sending a packet.  A failure closes a connection
/// that is still open and ends the sending.  On a connection that is closed
/// already a failure changes nothing, and sending goes on.
pub open spec fn send_step(closed: bool, event: SendEvent) -> SendStep {
    match event {
        SendEvent::Written { ok } => SendStep { flush: ok || closed, close: !ok && !closed },
        SendEvent::Flushed { ok } => SendStep { flush: false, close: !ok && !closed },
    }
}

/// The client after a step of sending a packet.
pub open spec fn after_send(c: Client, event: SendEvent) -> Client {
    if send_step(c.closed, event).close {
        closed_client(c)
    } else {
        c
    }
}

/// The client once it has asked to log in.
pub open spec fn joined(c: Client) -> Client {
    Client { connection_state: ConnectionState::Login, ..c }
}

impl Client {
    /// A bot whose connection has just been made.
    pub fn new() -> (r: Client)
        ensures
            r == fresh_client(),
    {
        Client {
            connection_state: ConnectionState::HandShake,
            closed: false,
            entity_id: 0,
            message_spam_cooldown: 1,
            message_count: 0,
            is_loaded: false,
            is_dead: false,
            swing_cooldown: 0,
            body: Body {
                x: 0,
                y: 0,
                z: 0,
                ground_y: 0,
                on_ground: true,
                velocity_x: 0,
                velocity_y: 0,
                velocity_z: 0,
            },
            last_sent: LastSent { x: 0, y: 0, z: 0, yaw: 0, pitch: 0, on_ground: true, ticks: 0 },
            walk: Walk {
                is_walking: false,
                move_ticks: 0,
                move_cooldown: 0,
                dir_x: 0,
                dir_z: 0,
                jump_cooldown: 0,
            },
            look: Look {
                yaw: 0,
                pitch: 0,
                start_yaw: 0,
                start_pitch: 0,
                target_yaw: 0,
                target_pitch: 0,
                progress: SINGLE_ONE,
                cooldown: 0,
            },
        }
    }

    /// Closes the connection.  Whoever waits for that is to be woken.
    pub fn close(&mut self) -> (r: Action)
        ensures
            *final(self) == closed_client(*old(self)),
            r@ == (ActionModel::Close),
    {
        self.closed = true;
        Effect::Close
    }

    /// Turns compression on with the given threshold and level, or, with `None`,
    /// off.
    pub fn set_compression(&self, compression: Option<(usize, u32)>) -> (r: Vec<Action>)
        ensures
            plain(r@) == match compression {
                Some((threshold, level)) => seq![ActionModel::SetCompression { threshold, level }],
                None => seq![ActionModel::StopCompression],
            },
    {
        match compression {
            Some((threshold, level)) => only(Effect::SetCompression { threshold, level }),
            None => only(Effect::StopCompression),
        }
    }

    /// Asks the server to bring the bot back to life, unless it has been asked
    /// already since the bot died.
    pub fn respawn(&mut self) -> (r: Vec<Action>)
        ensures
            *final(self) == respawned(*old(self)),
            plain(r@) == respawn_actions(*old(self)),
    {
        if self.is_dead {
            return nothing();
        }
        self.is_dead = true;
        self.is_loaded = false;
        self.walk.is_walking = false;
        self.body.velocity_x = 0;
        self.body.velocity_y = 0;
        self.body.velocity_z = 0;
        only(Effect::Send(Packet::ClientCommand { action_id: 0 }))
    }

    /// Makes a chat message with the given salt.  `millis` is the time in
    /// milliseconds since the epoch; the packet carries its low 64 bits.
    pub fn chat_message(&mut self, message: &str, millis: u128, salt: i64) -> (r: Serverbound)
        ensures
            *final(self) == counted(*old(self)),
            r@ == chat_packet(*old(self), message@, millis, salt),
    {
        let count: u32 = self.message_count;
        self.message_count = count.wrapping_add(1);
        let mut acknowledged: Vec<u8> = Vec::new();
        acknowledged.push(0);
        acknowledged.push(0);
        acknowledged.push(0);
        assert(acknowledged@ =~= seq![0, 0, 0]);
        Packet::ChatMessage {
            message: message.to_owned(),
            timestamp: millis as i64,
            salt,
            message_count: count as i32,
            acknowledged,
            checksum: 0,
        }
    }

    /// Makes a chat message with a random salt.
    pub fn send_message(&mut self, message: &str, millis: u128) -> (r: Serverbound)
        ensures
            *final(self) == counted(*old(self)),
            exists|salt: i64| r@ == chat_packet(*old(self), message@, millis, salt),
    {
        let salt: i64 = draw_salt();
        self.chat_message(message, millis, salt)
    }

    /// Begins to log in: introduces the client and asks for a login, then gives
    /// the bot's name with a fresh random UUID.
    pub fn join_server(
        &mut self,
        protocol: &Protocol,
        server_address: String,
        server_port: u16,
        name: String,
    ) -> (r: (Serverbound, Serverbound))
        ensures
            *final(self) == joined(*old(self)),
            r.0@ == (PacketModel::HandShake {
                protocol_version: protocol.version,
                server_address: server_address@,
                server_port,
                next_state: ConnectionState::Login,
            }),
            r.1@ matches PacketModel::LoginStart { name: given, uuid } && given == name@
                && is_random_uuid(uuid),
    {
        self.connection_state = ConnectionState::Login;
        (
            Packet::HandShake {
                protocol_version: protocol.version,
                server_address,
                server_port,
                next_state: ConnectionState::Login,
            },
            Packet::LoginStart { name, uuid: draw_uuid() },
        )
    }

    /// The packet that has come, if one has.  Input that cannot be decoded
    /// closes the connection, unless the server had closed it.
    pub fn get_packet(&mut self, event: ReadEvent) -> (r: (Option<RawPacket>, Vec<Action>))
        ensures
            (*final(self), r.0, plain(r.1@)) == got(*old(self), event),
    {
        match event {
            ReadEvent::Interrupted => (None, nothing()),
            ReadEvent::Arrived(packet) => (Some(packet), nothing()),
            ReadEvent::Failed { connection_closed } => {
                if connection_closed {
                    (None, nothing())
                } else {
                    (None, only(self.close()))
                }
            },
        }
    }

    /// Ends the processing of a packet: says whether there was one, and what to
    /// do, which is what handling it called for, or, where it could not be read,
    /// to close the connection.
    pub fn process_packets(&mut self, outcome: Option<Result<Vec<Action>, ReadingError>>) -> (r: (
        bool,
        Vec<Action>,
    ))
        ensures
            (*final(self), r.0, plain(r.1@)) == concluded(*old(self), outcome_model(outcome)),
    {
        match outcome {
            None => (false, nothing()),
            Some(Ok(actions)) => (true, actions),
            Some(Err(_)) => (true, only(self.close())),
        }
    }

    /// What to do after a step of sending a packet.
    pub fn send_packet(&mut self, event: SendEvent) -> (r: SendStep)
        ensures
            r == send_step(old(self).closed, event),
            *final(self) == after_send(*old(self), event),
    {
        let ok: bool = match event {
            SendEvent::Written { ok } => ok,
            SendEvent::Flushed { ok } => ok,
        };
        let close: bool = !ok && !self.closed;
        let flush: bool = match event {
            SendEvent::Written { .. } => !close,
            SendEvent::Flushed { .. } => false,
        };
        if close {
            let _ = self.close();
        }
        SendStep { flush, close }
    }

    /// The bytes of a packet: its id as a variable-length integer, then its data.
    pub fn write_packet(id: i32, data: &[u8]) -> (r: Vec<u8>)
        ensures
            r@ == packet_bytes(id, data@),
    {
        let mut out: Vec<u8> = Vec::new();
        write_var_int(id, &mut out);
        out.extend_from_slice(data);
        assert(out@ =~= packet_bytes(id, data@));
        out
    }
}

} // verus!
