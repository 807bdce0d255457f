//! What every operation comes to, stated of what goes in and what comes out.

use crate::args::Args;
use crate::client::{
    after_send, chat_packet, closed_client, concluded, counted, fresh_client, got, joined,
    respawn_actions, respawned, send_step, Body, Client, LastSent, Look, ReadEvent, SendEvent, Walk,
};
use crate::float::{
    double_le, double_lt, double_magnitude, single_is_nan, single_le, single_lt, single_magnitude,
    Double, SINGLE_MINUS_NINETY, SINGLE_NINETY, SINGLE_ONE,
};
use crate::laws::distinct_ids;
use crate::motion::begun;
use crate::packet::{ActionModel, ConnectionState, Packet, PacketModel, Protocol};
use crate::receive::{
    can_receive, informed, is_placed_rest, received, reply, Decode, Decoded, Step,
};
use crate::term::{round_values, Arithmetic, Values};
use crate::tick::{
    chance_told, clock_told, is_active, is_chance_draw, is_round_draw, movement_stage,
    physics_stage, rotation_stage, swing_stage, sync_stage, tick_begun, values_told, Gamble, Round,
    TickStep, AIR_ACCELERATION, AIR_FRICTION, FALL_DRAG, FULL_CIRCLE, GRAVITY,
    GROUND_ACCELERATION, GROUND_SLIP, HALF_CIRCLE, HALF_TURN, JUMP_CHANCE, JUMP_SPEED,
    MINUS_HALF_CIRCLE, MINUS_HALF_TURN, MINUS_REST_PITCH, MINUS_WALK_PITCH, REST_PITCH, SLIGHT,
    SLIGHT_TURN, SWING_CHANCE, THREE, TURN_STEP, TWO, WALK_PITCH,
};
use crate::wire::{byte_at, int_at, single_at, var_int_at, RawPacket, ReadingError};
use vstd::prelude::*;

verus! {

// ---------------------------------------------------------------------------
// Dying

/// News of its death send exactly one packet for every client that is not dead,
/// whatever the rest of its state: the request to be brought back.  They stop
/// it where it is and take it out of the world, and touch nothing else.
pub proof fn law_death_is_answered(c: Client)
    ensures
        !c.is_dead ==> respawn_actions(c) == seq![
            ActionModel::Send(Packet::ClientCommand { action_id: 0 }),
        ],
        c.is_dead ==> respawn_actions(c) == Seq::<ActionModel>::empty() && respawned(c) == c,
        respawned(c).is_dead,
        !c.is_dead ==> {
            let after = respawned(c);
            &&& !after.is_loaded
            &&& !after.walk.is_walking
            &&& after.walk == (Walk { is_walking: false, ..c.walk })
            &&& after.body.velocity_x == 0
            &&& after.body.velocity_y == 0
            &&& after.body.velocity_z == 0
            &&& after.body.x == c.body.x
            &&& after.body.y == c.body.y
            &&& after.body.z == c.body.z
            &&& after.body.ground_y == c.body.ground_y
            &&& after.body.on_ground == c.body.on_ground
            &&& after == (Client {
                is_dead: true,
                is_loaded: false,
                walk: after.walk,
                body: after.body,
                ..c
            })
        },
{
}

/// Whether a packet brings news of the bot's own death.
pub open spec fn is_death_news(c: Client, p: Protocol, id: i32, payload: Seq<u8>) -> bool {
    ||| id == p.combat_death && (var_int_at(payload) matches Ok((who, _)) && who == c.entity_id)
    ||| id == p.set_health && (single_at(payload) matches Ok(health) && single_le(health, 0))
    ||| id == p.entity_status && (int_at(payload) matches Ok(who) && who == c.entity_id) && (byte_at(
        payload,
        4,
    ) matches Ok(status) && status == 3)
}

/// Each of the three packets that bring news of the bot's death makes a bot that
/// is not dead send the request to be brought back, and nothing else, whatever
/// the rest of its state; a bot that is dead sends nothing and stays as it is.
pub proof fn law_death_packets(c: Client, p: Protocol, id: i32, payload: Seq<u8>)
    requires
        c.connection_state == ConnectionState::Play,
        distinct_ids(p),
        is_death_news(c, p, id, payload),
    ensures
        ({
            let (after, step) = received(c, p, id, payload);
            &&& after.is_dead
            &&& !c.is_dead ==> step == (Step::<Seq<ActionModel>>::Done(
                seq![ActionModel::Send(Packet::ClientCommand { action_id: 0 })],
            ))
            &&& c.is_dead ==> after == c && step == (Step::<Seq<ActionModel>>::Done(Seq::empty()))
            &&& !c.is_dead ==> !after.is_loaded && !after.walk.is_walking && after.body == (Body {
                velocity_x: 0,
                velocity_y: 0,
                velocity_z: 0,
                ..c.body
            })
        }),
{
    lemma_ids(p);
}

/// Nothing but news of its death makes a packet of the game mark a bot as dead,
/// and only health above zero, or a placing, makes a dead bot alive.
pub proof fn law_death_needs_news(c: Client, p: Protocol, id: i32, payload: Seq<u8>)
    requires
        c.connection_state == ConnectionState::Play,
        distinct_ids(p),
        !is_death_news(c, p, id, payload),
    ensures
        received(c, p, id, payload).0.is_dead == (c.is_dead && !(id == p.set_health
            && single_at(payload) is Ok)),
        received(c, p, id, payload).0.is_loaded == c.is_loaded,
{
    lemma_ids(p);
}

// ---------------------------------------------------------------------------
// Being pushed and placed

/// After the server has told the bot's own velocity, the bot's three components
/// are exactly the three that were told, whatever they are.  It is in the air if
/// it goes up, and keeps its footing otherwise.  Nothing else changes, and
/// nothing is sent.
pub proof fn law_push_is_taken(c: Client, x: Double, y: Double, z: Double, rest: u32)
    ensures
        ({
            let value = Decoded::EntityVelocity { x, y, z };
            let after = informed(c, value, rest);
            &&& after.body.velocity_x == x
            &&& after.body.velocity_y == y
            &&& after.body.velocity_z == z
            &&& double_lt(0, y) ==> !after.body.on_ground
            &&& !double_lt(0, y) ==> after.body.on_ground == c.body.on_ground
            &&& after.body.x == c.body.x
            &&& after.body.y == c.body.y
            &&& after.body.z == c.body.z
            &&& after.body.ground_y == c.body.ground_y
            &&& after == (Client { body: after.body, ..c })
            &&& reply(value) == Seq::<ActionModel>::empty()
        }),
{
}

/// A bot that is placed is where it was placed, with the speed and the look it
/// was given, on the ground unless it goes up; it takes the height for the
/// ground's, is alive and in the world, ends its walk and its turn, rests, and
/// counts on the server to know all that.  It confirms the placing by its
/// number, and keeps everything else.
pub proof fn law_placing_is_taken(c: Client, value: Decoded, rest: u32)
    requires
        value is PlayerPosition,
    ensures
        ({
            let after = informed(c, value, rest);
            let on_ground = double_le(value->PlayerPosition_delta_y, 0);
            &&& after.body.x == value->PlayerPosition_x
            &&& after.body.y == value->PlayerPosition_y
            &&& after.body.z == value->PlayerPosition_z
            &&& after.body.ground_y == value->PlayerPosition_y
            &&& after.body.velocity_x == value->delta_x
            &&& after.body.velocity_y == value->delta_y
            &&& after.body.velocity_z == value->delta_z
            &&& after.body.on_ground == on_ground
            &&& after.look.yaw == value->yaw
            &&& after.look.pitch == value->pitch
            &&& after.look.target_yaw == value->yaw
            &&& after.look.target_pitch == value->pitch
            &&& after.look.progress == SINGLE_ONE
            &&& after.look.start_yaw == c.look.start_yaw
            &&& after.look.start_pitch == c.look.start_pitch
            &&& after.look.cooldown == c.look.cooldown
            &&& after.last_sent.x == value->PlayerPosition_x
            &&& after.last_sent.y == value->PlayerPosition_y
            &&& after.last_sent.z == value->PlayerPosition_z
            &&& after.last_sent.yaw == value->yaw
            &&& after.last_sent.pitch == value->pitch
            &&& after.last_sent.on_ground == on_ground
            &&& after.last_sent.ticks == c.last_sent.ticks
            &&& after.walk == (Walk { is_walking: false, move_cooldown: rest, ..c.walk })
            &&& after.is_loaded
            &&& !after.is_dead
            &&& after == (Client {
                is_loaded: true,
                is_dead: false,
                body: after.body,
                last_sent: after.last_sent,
                walk: after.walk,
                look: after.look,
                ..c
            })
            &&& reply(value) == seq![
                ActionModel::Send(Packet::ConfirmTeleport { teleport_id: value->teleport_id }),
            ]
        }),
{
}

/// The other fields that are asked for change nothing of the bot, and each is
/// answered with what it brought.
pub proof fn law_fields_are_answered(c: Client, threshold: i32, id: i32, number: i64, rest: u32)
    ensures
        informed(c, Decoded::SetCompression { threshold }, rest) == c,
        reply(Decoded::SetCompression { threshold }) == seq![
            ActionModel::SetCompression { threshold: threshold as usize, level: 6 },
        ],
        informed(c, Decoded::ConfigPing { id }, rest) == c,
        reply(Decoded::ConfigPing { id }) == seq![ActionModel::Send(Packet::ConfigPong { id })],
        informed(c, Decoded::KeepAlive { keep_alive_id: number }, rest) == c,
        reply(Decoded::KeepAlive { keep_alive_id: number }) == seq![
            ActionModel::Send(Packet::KeepAlive { keep_alive_id: number }),
        ],
{
}

// ---------------------------------------------------------------------------
// Receiving

proof fn lemma_ids(p: Protocol)
    requires
        distinct_ids(p),
    ensures
        forall|i: int, j: int|
            0 <= i < 9 && 0 <= j < 9 && i != j ==> #[trigger] play_id(p, i) != #[trigger] play_id(
                p,
                j,
            ),
        play_id(p, 0) == p.keep_alive,
        play_id(p, 1) == p.entity_velocity,
        play_id(p, 2) == p.player_position,
        play_id(p, 3) == p.combat_death,
        play_id(p, 4) == p.set_health,
        play_id(p, 5) == p.entity_status,
        play_id(p, 6) == p.respawn,
        play_id(p, 7) == p.login,
        play_id(p, 8) == p.play_disconnect,
        p.set_compression != p.encryption_request,
        p.login_disconnect != p.encryption_request,
        p.login_disconnect != p.set_compression,
        p.login_success != p.encryption_request,
        p.login_success != p.set_compression,
        p.login_success != p.login_disconnect,
        p.known_packs != p.config_disconnect,
        p.config_ping != p.config_disconnect,
        p.config_ping != p.known_packs,
        p.finish_config != p.config_disconnect,
        p.finish_config != p.known_packs,
        p.finish_config != p.config_ping,
{
    let play = seq![
        p.keep_alive,
        p.entity_velocity,
        p.player_position,
        p.combat_death,
        p.set_health,
        p.entity_status,
        p.respawn,
        p.login,
        p.play_disconnect,
    ];
    assert(play.no_duplicates());
    assert forall|i: int| 0 <= i < 9 implies #[trigger] play_id(p, i) == play[i] by {}
    let login = seq![
        p.encryption_request,
        p.set_compression,
        p.login_disconnect,
        p.login_success,
    ];
    assert(login.no_duplicates());
    assert(login[0] == p.encryption_request && login[1] == p.set_compression && login[2]
        == p.login_disconnect && login[3] == p.login_success);
    let config = seq![p.config_disconnect, p.known_packs, p.config_ping, p.finish_config];
    assert(config.no_duplicates());
    assert(config[0] == p.config_disconnect && config[1] == p.known_packs && config[2]
        == p.config_ping && config[3] == p.finish_config);
}

spec fn play_id(p: Protocol, i: int) -> i32 {
    if i == 0 {
        p.keep_alive
    } else if i == 1 {
        p.entity_velocity
    } else if i == 2 {
        p.player_position
    } else if i == 3 {
        p.combat_death
    } else if i == 4 {
        p.set_health
    } else if i == 5 {
        p.entity_status
    } else if i == 6 {
        p.respawn
    } else if i == 7 {
        p.login
    } else {
        p.play_disconnect
    }
}

/// What the packets of the login phase come to, whatever else the client's state
/// and the payload are.
pub proof fn law_login_packets(c: Client, p: Protocol, payload: Seq<u8>)
    requires
        c.connection_state == ConnectionState::Login,
        distinct_ids(p),
    ensures
        received(c, p, p.encryption_request, payload) == (
            c,
            Step::<Seq<ActionModel>>::Decode(Decode::EncryptionRequest),
        ),
        received(c, p, p.set_compression, payload) == (
            c,
            Step::<Seq<ActionModel>>::Decode(Decode::SetCompression),
        ),
        received(c, p, p.login_disconnect, payload) == (
            Client { closed: true, ..c },
            Step::<Seq<ActionModel>>::Done(seq![ActionModel::Close]),
        ),
        received(c, p, p.login_success, payload) == (
            Client { connection_state: ConnectionState::Config, ..c },
            Step::<Seq<ActionModel>>::Done(
                seq![
                    ActionModel::Send(Packet::LoginAcknowledged),
                    ActionModel::Send(Packet::KnownPacks),
                ],
            ),
        ),
{
    lemma_ids(p);
}

/// What the packets of the configuration phase come to, whatever else the
/// client's state and the payload are.
pub proof fn law_config_packets(c: Client, p: Protocol, payload: Seq<u8>)
    requires
        c.connection_state == ConnectionState::Config,
        distinct_ids(p),
    ensures
        received(c, p, p.config_disconnect, payload) == (
            Client { closed: true, ..c },
            Step::<Seq<ActionModel>>::Done(seq![ActionModel::Close]),
        ),
        received(c, p, p.known_packs, payload) == (
            c,
            Step::<Seq<ActionModel>>::Done(seq![ActionModel::Send(Packet::KnownPacks)]),
        ),
        received(c, p, p.config_ping, payload) == (
            c,
            Step::<Seq<ActionModel>>::Decode(Decode::ConfigPing),
        ),
        received(c, p, p.finish_config, payload) == (
            Client { connection_state: ConnectionState::Play, ..c },
            Step::<Seq<ActionModel>>::Done(seq![ActionModel::Send(Packet::AcknowledgeFinishConfig)]),
        ),
{
    lemma_ids(p);
}

/// What the packets of the game come to that are not about the bot's death,
/// whatever else the client's state is.
pub proof fn law_play_packets(c: Client, p: Protocol, payload: Seq<u8>)
    requires
        c.connection_state == ConnectionState::Play,
        distinct_ids(p),
    ensures
        received(c, p, p.keep_alive, payload) == (
            c,
            Step::<Seq<ActionModel>>::Decode(Decode::KeepAlive),
        ),
        received(c, p, p.player_position, payload) == (
            c,
            Step::<Seq<ActionModel>>::Decode(Decode::PlayerPosition),
        ),
        received(c, p, p.respawn, payload) == (
            c,
            Step::<Seq<ActionModel>>::Done(seq![ActionModel::Send(Packet::PlayerLoaded)]),
        ),
        received(c, p, p.play_disconnect, payload) == (
            Client { closed: true, ..c },
            Step::<Seq<ActionModel>>::Done(seq![ActionModel::Close]),
        ),
        received(c, p, p.login, payload) == (match int_at(payload) {
            Ok(entity_id) => (
                Client { entity_id, ..c },
                Step::<Seq<ActionModel>>::Done(seq![ActionModel::Send(Packet::PlayerLoaded)]),
            ),
            Err(e) => (c, Step::<Seq<ActionModel>>::Failed(e)),
        }),
        received(c, p, p.entity_velocity, payload) == (match var_int_at(payload) {
            Ok((who, n)) => (
                c,
                if who == c.entity_id {
                    Step::<Seq<ActionModel>>::Decode(Decode::EntityVelocity { from: n as usize })
                } else {
                    Step::<Seq<ActionModel>>::Done(Seq::empty())
                },
            ),
            Err(e) => (c, Step::<Seq<ActionModel>>::Failed(e)),
        }),
{
    lemma_ids(p);
}

/// What the packets that can bring news of a death come to when they do not:
/// health above zero means that the bot is alive; otherwise nothing changes, and
/// a payload that ends too early is a failure.
pub proof fn law_other_news(c: Client, p: Protocol, payload: Seq<u8>)
    requires
        c.connection_state == ConnectionState::Play,
        distinct_ids(p),
    ensures
        match var_int_at(payload) {
            Ok((who, _)) => who != c.entity_id ==> received(c, p, p.combat_death, payload) == (
                c,
                Step::<Seq<ActionModel>>::Done(Seq::empty()),
            ),
            Err(e) => received(c, p, p.combat_death, payload) == (
                c,
                Step::<Seq<ActionModel>>::Failed(e),
            ),
        },
        match single_at(payload) {
            Ok(health) => !single_le(health, 0) ==> received(c, p, p.set_health, payload) == (
                Client { is_dead: false, ..c },
                Step::<Seq<ActionModel>>::Done(Seq::empty()),
            ),
            Err(e) => received(c, p, p.set_health, payload) == (
                c,
                Step::<Seq<ActionModel>>::Failed(e),
            ),
        },
        match (int_at(payload), byte_at(payload, 4)) {
            (Ok(who), Ok(status)) => who != c.entity_id || status != 3 ==> received(
                c,
                p,
                p.entity_status,
                payload,
            ) == (c, Step::<Seq<ActionModel>>::Done(Seq::empty())),
            (Err(e), _) => received(c, p, p.entity_status, payload) == (
                c,
                Step::<Seq<ActionModel>>::Failed(e),
            ),
            (_, Err(e)) => received(c, p, p.entity_status, payload) == (
                c,
                Step::<Seq<ActionModel>>::Failed(e),
            ),
        },
{
    lemma_ids(p);
}

/// A client that waits to be transferred does nothing about any packet; and one
/// may receive packets in every phase but before it has asked for anything and
/// in a status inquiry.
pub proof fn law_other_phases(c: Client, p: Protocol, id: i32, payload: Seq<u8>)
    ensures
        c.connection_state == ConnectionState::Transfer ==> received(c, p, id, payload) == (
            c,
            Step::<Seq<ActionModel>>::Done(Seq::empty()),
        ),
        can_receive(c) <==> (c.connection_state == ConnectionState::Login || c.connection_state
            == ConnectionState::Transfer || c.connection_state == ConnectionState::Config
            || c.connection_state == ConnectionState::Play),
{
}

// ---------------------------------------------------------------------------
// The connection

/// A new client stands at the origin, on the ground, still, looking straight
/// ahead with no turn to finish, unplaced and alive, and is to chat in its
/// second tick.
pub proof fn law_fresh_client()
    ensures
        ({
            let c = fresh_client();
            &&& c.connection_state == ConnectionState::HandShake
            &&& !c.closed && !c.is_loaded && !c.is_dead
            &&& c.entity_id == 0
            &&& c.message_spam_cooldown == 1
            &&& c.message_count == 0
            &&& c.swing_cooldown == 0
            &&& c.body.x == 0 && c.body.y == 0 && c.body.z == 0 && c.body.ground_y == 0
            &&& c.body.velocity_x == 0 && c.body.velocity_y == 0 && c.body.velocity_z == 0
            &&& c.body.on_ground
            &&& c.last_sent.x == 0 && c.last_sent.y == 0 && c.last_sent.z == 0
            &&& c.last_sent.yaw == 0 && c.last_sent.pitch == 0
            &&& c.last_sent.on_ground && c.last_sent.ticks == 0
            &&& !c.walk.is_walking
            &&& c.walk.move_ticks == 0 && c.walk.move_cooldown == 0 && c.walk.jump_cooldown == 0
            &&& c.walk.dir_x == 0 && c.walk.dir_z == 0
            &&& c.look.yaw == 0 && c.look.pitch == 0
            &&& c.look.start_yaw == 0 && c.look.start_pitch == 0
            &&& c.look.target_yaw == 0 && c.look.target_pitch == 0
            &&& c.look.progress == SINGLE_ONE && c.look.cooldown == 0
        }),
{
}

/// Closing and joining change one thing each, and a chat message is counted
/// by one, from the largest count on to zero.
pub proof fn law_small_changes(c: Client)
    ensures
        closed_client(c) == (Client { closed: true, ..c }),
        joined(c) == (Client { connection_state: ConnectionState::Login, ..c }),
        counted(c) == (Client { message_count: counted(c).message_count, ..c }),
        c.message_count < u32::MAX ==> counted(c).message_count == c.message_count + 1,
        c.message_count == u32::MAX ==> counted(c).message_count == 0,
{
}

/// A chat message carries the words, the time, the salt and the number of
/// messages before it as they are, and acknowledges nothing.
pub proof fn law_chat_message(c: Client, words: Seq<char>, millis: u128, salt: i64)
    ensures
        chat_packet(c, words, millis, salt) matches Packet::ChatMessage {
            message,
            timestamp,
            salt: given,
            message_count,
            acknowledged,
            checksum,
        } && {
            &&& message == words
            &&& timestamp == millis as i64
            &&& millis <= i64::MAX ==> timestamp == millis
            &&& given == salt
            &&& message_count == c.message_count as i32
            &&& acknowledged == seq![0u8, 0u8, 0u8]
            &&& checksum == 0
        },
{
}

/// Waiting for a packet ends with the packet that came, and with none
/// otherwise.  Only input that cannot be decoded on a connection that the
/// server has not closed closes it.
pub proof fn law_waiting(c: Client, event: ReadEvent)
    ensures
        got(c, event).1 == (match event {
            ReadEvent::Arrived(packet) => Some(packet),
            _ => None::<RawPacket>,
        }),
        event matches ReadEvent::Failed { connection_closed: false } ==> got(c, event).0
            == (Client { closed: true, ..c }) && got(c, event).2 == seq![ActionModel::Close],
        !(event matches ReadEvent::Failed { connection_closed: false }) ==> got(c, event).0 == c
            && got(c, event).2 == Seq::<ActionModel>::empty(),
{
}

/// A packet's processing ends with what it called for, or with closing where it
/// failed; whether there was one is all that is said besides.
pub proof fn law_concluding(c: Client, actions: Seq<ActionModel>, e: ReadingError)
    ensures
        concluded(c, None) == (c, false, Seq::<ActionModel>::empty()),
        concluded(c, Some(Ok(actions))) == (c, true, actions),
        concluded(c, Some(Err(e))) == (Client { closed: true, ..c }, true, seq![ActionModel::Close]),
{
}

/// What is written is flushed, except where writing failed on an open
/// connection.  Exactly a failure on an open connection closes it.
pub proof fn law_sending(c: Client, ok: bool)
    ensures
        ({
            let written = SendEvent::Written { ok };
            let flushed = SendEvent::Flushed { ok };
            &&& send_step(c.closed, written).flush <==> (ok || c.closed)
            &&& send_step(c.closed, written).close <==> (!ok && !c.closed)
            &&& !send_step(c.closed, flushed).flush
            &&& send_step(c.closed, flushed).close <==> (!ok && !c.closed)
            &&& after_send(c, written) == (Client { closed: c.closed || !ok, ..c })
            &&& after_send(c, flushed) == (Client { closed: c.closed || !ok, ..c })
        }),
{
}

// ---------------------------------------------------------------------------
// A tick: chatting and swinging

/// A client acts on its own exactly when it takes part in the game, has been
/// placed and is alive; otherwise a tick is over as soon as it has begun.  An
/// active bot with something to say counts its chat down, or asks for the time
/// when there is nothing left to count.
pub proof fn law_tick_begins(c: Client, args: Args)
    ensures
        is_active(c) <==> (c.connection_state == ConnectionState::Play && c.is_loaded
            && !c.is_dead),
        !is_active(c) ==> tick_begun(c, args) == (c, TickStep::Done),
        is_active(c) && args.spam_message is None ==> tick_begun(c, args) == swing_stage(c, args),
        is_active(c) && args.spam_message is Some && c.message_spam_cooldown == 0 ==> tick_begun(
            c,
            args,
        ) == (c, TickStep::Clock),
        is_active(c) && args.spam_message is Some && c.message_spam_cooldown > 0 ==> tick_begun(
            c,
            args,
        ) == swing_stage(
            Client { message_spam_cooldown: (c.message_spam_cooldown - 1) as u32, ..c },
            args,
        ),
{
}

/// Told the time, a bot says its words once, with the number of messages before
/// it, counts the message and the drawn delay, and goes on to its swing.
pub proof fn law_time_told(c: Client, args: Args, millis: u128, delay: u32, salt: i64)
    requires
        args.spam_message is Some,
    ensures
        ({
            let t = clock_told(c, args, millis, delay, salt);
            let stage = swing_stage(
                Client {
                    message_spam_cooldown: delay,
                    message_count: if c.message_count == u32::MAX {
                        0
                    } else {
                        (c.message_count + 1) as u32
                    },
                    ..c
                },
                args,
            );
            &&& t.client == stage.0
            &&& t.step == stage.1
            &&& t.send == Some(
                PacketModel::ChatMessage {
                    message: args.spam_message.unwrap()@,
                    timestamp: millis as i64,
                    salt,
                    message_count: c.message_count as i32,
                    acknowledged: seq![0u8, 0u8, 0u8],
                    checksum: 0,
                },
            )
        }),
{
}

/// The arm rests while its cooldown lasts or swinging is switched off; when the
/// cooldown is over, luck decides.
pub proof fn law_swing_begins(c: Client, args: Args)
    ensures
        !args.enable_swing ==> swing_stage(c, args) == movement_stage(c, args),
        args.enable_swing && c.swing_cooldown > 0 ==> swing_stage(c, args) == movement_stage(
            Client { swing_cooldown: (c.swing_cooldown - 1) as u32, ..c },
            args,
        ),
        args.enable_swing && c.swing_cooldown == 0 ==> swing_stage(c, args) == (
            c,
            TickStep::Chance { gamble: Gamble::Swing, probability: SWING_CHANCE },
        ),
{
}

/// With luck the arm is swung and the drawn cooldown begins; without, nothing
/// happens.  Either way the bot goes on to its walk.
pub proof fn law_swing_decided(c: Client, args: Args, cooldown: u32, rest: u32)
    ensures
        ({
            let hit = chance_told(c, args, Gamble::Swing, true, cooldown, rest);
            let stage = movement_stage(Client { swing_cooldown: cooldown, ..c }, args);
            &&& hit.send == Some(PacketModel::SwingArm { hand: 0 })
            &&& hit.client == stage.0
            &&& hit.step == stage.1
        }),
        chance_told(c, args, Gamble::Swing, false, cooldown, rest) == begun(
            movement_stage(c, args),
        ),
{
}

/// The ranges that numbers are drawn from.
pub proof fn law_draws(at: Gamble, round: Round, a: u32, b: u32)
    ensures
        is_chance_draw(at, a, b) <==> match at {
            Gamble::Swing => 20 <= a < 40,
            Gamble::Jump { .. } => 15 <= a < 40 && 20 <= b < 80,
        },
        is_round_draw(round, a) <==> match round {
            Round::Stride { .. } => 20 <= a < 80,
            Round::Bearing => 20 <= a < 60,
            Round::Gaze => 40 <= a < 100,
            _ => true,
        },
        is_placed_rest(a) <==> 20 <= a < 60,
{
}

// ---------------------------------------------------------------------------
// A tick: walking and jumping

/// How a bot's walking about begins in a tick.  A walking bot uses up a tick of
/// its walk and asks for its speed, which grows by a step in the direction of
/// the walk, a longer one on the ground.  A bot at the end of its rest asks for
/// an angle.  A resting bot, and one that does not walk about, goes on.
pub proof fn law_walk_begins(m: Arithmetic, c: Client, args: Args)
    ensures
        !args.enable_movement ==> movement_stage(c, args) == rotation_stage(c, args),
        args.enable_movement && c.walk.is_walking ==> {
            let (after, step) = movement_stage(c, args);
            let pace = if c.body.on_ground {
                GROUND_ACCELERATION
            } else {
                AIR_ACCELERATION
            };
            &&& after == (Client { walk: Walk { move_ticks: after.walk.move_ticks, ..c.walk }, ..c })
            &&& c.walk.move_ticks > 0 ==> after.walk.move_ticks == c.walk.move_ticks - 1
            &&& c.walk.move_ticks == 0 ==> after.walk.move_ticks == u32::MAX
            &&& step matches TickStep::Evaluate { round: Round::Stride { last }, terms } && last == (
            c.walk.move_ticks <= 1) && round_values(m, terms) == (Values {
                a: (m.sum)(c.body.velocity_x, (m.product)(c.walk.dir_x, pace)),
                b: (m.sum)(c.body.velocity_z, (m.product)(c.walk.dir_z, pace)),
                c: 0,
                s: 0,
                t: 0,
            })
        },
        args.enable_movement && !c.walk.is_walking && c.walk.move_cooldown == 0 ==> {
            let (after, step) = movement_stage(c, args);
            &&& after == c
            &&& step matches TickStep::Evaluate { round: Round::Heading, terms } && round_values(
                m,
                terms,
            ) == (Values { a: (m.uniform)(MINUS_HALF_TURN, HALF_TURN), b: 0, c: 0, s: 0, t: 0 })
        },
        args.enable_movement && !c.walk.is_walking && c.walk.move_cooldown > 0 ==> movement_stage(
            c,
            args,
        ) == rotation_stage(
            Client {
                walk: Walk {
                    move_cooldown: (c.walk.move_cooldown - 1) as u32,
                    jump_cooldown: if c.walk.jump_cooldown > 0 {
                        (c.walk.jump_cooldown - 1) as u32
                    } else {
                        0
                    },
                    ..c.walk
                },
                ..c
            },
            args,
        ),
{
    reveal_with_fuel(crate::term::double_value, 4);
    reveal_with_fuel(crate::term::single_value, 4);
}

/// Told its speed after a step, a walking bot has it, and keeps its vertical
/// speed.  On the ground, with no cooldown left, it tries its luck at a jump if
/// it may.  Otherwise the jump comes a tick closer, and the last step ends the
/// walk with the drawn rest.
pub proof fn law_stride_told(c: Client, args: Args, flag: u8, last: bool, v: Values, count: u32)
    ensures
        ({
            let t = values_told(c, args, flag, Round::Stride { last }, v, count);
            let body = Body { velocity_x: v.a, velocity_z: v.b, ..c.body };
            let tries = args.enable_jumping && c.walk.jump_cooldown == 0 && c.body.on_ground;
            &&& t.send is None
            &&& tries ==> t.client == (Client { body, ..c }) && t.step == (TickStep::Chance {
                gamble: Gamble::Jump { last },
                probability: JUMP_CHANCE,
            })
            &&& !tries ==> t == begun(
                rotation_stage(
                    Client {
                        body,
                        walk: Walk {
                            is_walking: c.walk.is_walking && !last,
                            move_cooldown: if last {
                                count
                            } else {
                                c.walk.move_cooldown
                            },
                            jump_cooldown: if args.enable_jumping && c.walk.jump_cooldown > 0 {
                                (c.walk.jump_cooldown - 1) as u32
                            } else {
                                c.walk.jump_cooldown
                            },
                            ..c.walk
                        },
                        ..c
                    },
                    args,
                ),
            )
        }),
{
}

/// A jump that comes off changes nothing of the body but its vertical speed and
/// its footing, and begins its cooldown; one that does not changes nothing.  In
/// the last step of a walk the walk ends with the drawn rest either way.
pub proof fn law_jump_decided(
    c: Client,
    args: Args,
    last: bool,
    hit: bool,
    cooldown: u32,
    rest: u32,
)
    ensures
        chance_told(c, args, Gamble::Jump { last }, hit, cooldown, rest) == begun(
            rotation_stage(
                Client {
                    body: if hit {
                        Body { velocity_y: JUMP_SPEED, on_ground: false, ..c.body }
                    } else {
                        c.body
                    },
                    walk: Walk {
                        is_walking: c.walk.is_walking && !last,
                        move_cooldown: if last {
                            rest
                        } else {
                            c.walk.move_cooldown
                        },
                        jump_cooldown: if hit {
                            cooldown
                        } else {
                            c.walk.jump_cooldown
                        },
                        ..c.walk
                    },
                    ..c
                },
                args,
            ),
        ),
{
}

/// A jump leaves the bot's sideways speed, place and ground alone, whether it
/// comes off or not, and sends nothing: the speed after a tick's walking is the
/// speed after the step.  A jump that comes off lifts the bot.
pub proof fn law_jump_goes_forward(
    c: Client,
    args: Args,
    last: bool,
    hit: bool,
    cooldown: u32,
    rest: u32,
)
    ensures
        ({
            let t = chance_told(c, args, Gamble::Jump { last }, hit, cooldown, rest);
            &&& t.send is None
            &&& t.client.body.velocity_x == c.body.velocity_x
            &&& t.client.body.velocity_z == c.body.velocity_z
            &&& hit ==> t.client.body == (Body {
                velocity_y: JUMP_SPEED,
                on_ground: false,
                ..c.body
            })
            &&& !hit ==> t.client.body == c.body
        }),
{
    law_jump_decided(c, args, last, hit, cooldown, rest);
    let after = Client {
        body: if hit {
            Body { velocity_y: JUMP_SPEED, on_ground: false, ..c.body }
        } else {
            c.body
        },
        walk: Walk {
            is_walking: c.walk.is_walking && !last,
            move_cooldown: if last {
                rest
            } else {
                c.walk.move_cooldown
            },
            jump_cooldown: if hit {
                cooldown
            } else {
                c.walk.jump_cooldown
            },
            ..c.walk
        },
        ..c
    };
    lemma_rotation_keeps_body(after, args);
}

proof fn lemma_rotation_keeps_body(c: Client, args: Args)
    ensures
        rotation_stage(c, args).0.body == c.body,
{
}

/// Told an angle, a bot asks for its direction: forward is against the sine and
/// along the cosine.  A bot that looks around asks where to look: along the
/// walk, at a random pitch.
pub proof fn law_heading_told(
    m: Arithmetic,
    c: Client,
    args: Args,
    flag: u8,
    v: Values,
    count: u32,
)
    ensures
        ({
            let t = values_told(c, args, flag, Round::Heading, v, count);
            &&& t.client == c
            &&& t.send is None
            &&& t.step matches TickStep::Evaluate { round: Round::Bearing, terms } && round_values(
                m,
                terms,
            ) == (Values {
                a: (m.negated)((m.sine)(v.a)),
                b: (m.cosine)(v.a),
                c: 0,
                s: if args.enable_rotation {
                    (m.degrees)(v.a)
                } else {
                    0
                },
                t: if args.enable_rotation {
                    (m.single_uniform)(MINUS_WALK_PITCH, WALK_PITCH)
                } else {
                    0
                },
            })
        }),
{
    reveal_with_fuel(crate::term::double_value, 4);
    reveal_with_fuel(crate::term::single_value, 4);
}

/// Told its direction, a bot sets out for the drawn number of ticks.  A bot that
/// looks around begins to turn from where it looks to where it was told; its
/// look itself stays for now.  The next jump comes a tick closer.
pub proof fn law_bearing_told(c: Client, args: Args, flag: u8, v: Values, count: u32)
    ensures
        values_told(c, args, flag, Round::Bearing, v, count) == begun(
            rotation_stage(
                Client {
                    walk: Walk {
                        is_walking: true,
                        move_ticks: count,
                        move_cooldown: c.walk.move_cooldown,
                        dir_x: v.a,
                        dir_z: v.b,
                        jump_cooldown: if c.walk.jump_cooldown > 0 {
                            (c.walk.jump_cooldown - 1) as u32
                        } else {
                            0
                        },
                    },
                    look: if args.enable_rotation {
                        Look {
                            start_yaw: c.look.yaw,
                            start_pitch: c.look.pitch,
                            target_yaw: v.s,
                            target_pitch: v.t,
                            progress: 0,
                            yaw: c.look.yaw,
                            pitch: c.look.pitch,
                            cooldown: c.look.cooldown,
                        }
                    } else {
                        c.look
                    },
                    ..c
                },
                args,
            ),
        ),
{
}

// ---------------------------------------------------------------------------
// A tick: looking around

/// How a bot's looking around begins in a tick.  An unfinished turn asks for its
/// next step.  After a finished one the bot waits; then, unless it walks, it
/// asks for a new direction, any way round and not too steep.
pub proof fn law_turn_begins(m: Arithmetic, c: Client, args: Args)
    ensures
        !args.enable_rotation ==> rotation_stage(c, args) == physics_stage(c, args),
        args.enable_rotation && !single_le(SINGLE_ONE, c.look.progress) ==> {
            let (after, step) = rotation_stage(c, args);
            &&& after == c
            &&& step matches TickStep::Evaluate { round: Round::Ramp, terms } && round_values(
                m,
                terms,
            ) == (Values {
                a: 0,
                b: 0,
                c: 0,
                s: (m.single_sum)(c.look.progress, TURN_STEP),
                t: 0,
            })
        },
        args.enable_rotation && single_le(SINGLE_ONE, c.look.progress) && c.look.cooldown > 0
            ==> rotation_stage(c, args) == physics_stage(
            Client { look: Look { cooldown: (c.look.cooldown - 1) as u32, ..c.look }, ..c },
            args,
        ),
        args.enable_rotation && single_le(SINGLE_ONE, c.look.progress) && c.look.cooldown == 0
            && c.walk.is_walking ==> rotation_stage(c, args) == physics_stage(c, args),
        args.enable_rotation && single_le(SINGLE_ONE, c.look.progress) && c.look.cooldown == 0
            && !c.walk.is_walking ==> {
            let (after, step) = rotation_stage(c, args);
            &&& after == c
            &&& step matches TickStep::Evaluate { round: Round::Gaze, terms } && round_values(
                m,
                terms,
            ) == (Values {
                a: 0,
                b: 0,
                c: 0,
                s: (m.single_uniform)(MINUS_HALF_CIRCLE, HALF_CIRCLE),
                t: (m.single_uniform)(MINUS_REST_PITCH, REST_PITCH),
            })
        },
{
    reveal_with_fuel(crate::term::double_value, 4);
    reveal_with_fuel(crate::term::single_value, 4);
}

/// Told where to look, a resting bot begins to turn there from where it looks at
/// that moment, and waits the drawn time after it.  Its look itself stays for
/// now, and so does everything else.
pub proof fn law_gaze_told(c: Client, args: Args, flag: u8, v: Values, count: u32)
    ensures
        ({
            let t = values_told(c, args, flag, Round::Gaze, v, count);
            let look = t.client.look;
            &&& t.send is None
            &&& look.start_yaw == c.look.yaw
            &&& look.start_pitch == c.look.pitch
            &&& look.target_yaw == v.s
            &&& look.target_pitch == v.t
            &&& look.progress == 0
            &&& look.cooldown == count
            &&& look.yaw == c.look.yaw
            &&& look.pitch == c.look.pitch
            &&& t.client == (Client { look, ..c })
            &&& t.step == physics_stage(t.client, args).1
        }),
{
}

/// Told how much of a turn is done, a bot has done that much, one at most, and
/// asks how far that takes it: `p` comes to `3p^2 - 2p^3` of the way, which is
/// what is left of the whole circles between start and target.
pub proof fn law_ramp_told(m: Arithmetic, c: Client, args: Args, flag: u8, v: Values, count: u32)
    ensures
        ({
            let t = values_told(c, args, flag, Round::Ramp, v, count);
            let p = t.client.look.progress;
            &&& t.send is None
            &&& single_lt(v.s, SINGLE_ONE) ==> p == v.s
            &&& !single_lt(v.s, SINGLE_ONE) ==> p == SINGLE_ONE
            &&& t.client == (Client { look: Look { progress: p, ..c.look }, ..c })
            &&& t.step matches TickStep::Evaluate { round: Round::Ease, terms } && round_values(
                m,
                terms,
            ) == (Values {
                a: 0,
                b: 0,
                c: 0,
                s: (m.single_difference)(
                    (m.single_product)(THREE, (m.single_power)(p, 2)),
                    (m.single_product)(TWO, (m.single_power)(p, 3)),
                ),
                t: (m.single_remainder)(
                    (m.single_difference)(c.look.target_yaw, c.look.start_yaw),
                    FULL_CIRCLE,
                ),
            })
        }),
{
    reveal_with_fuel(crate::term::double_value, 4);
    reveal_with_fuel(crate::term::single_value, 5);
}

/// Told the share and the way, a bot asks where it looks: that share of the
/// shorter way on from the start, and that share of the way between the pitches.
pub proof fn law_ease_told(m: Arithmetic, c: Client, args: Args, flag: u8, v: Values, count: u32)
    ensures
        ({
            let t = values_told(c, args, flag, Round::Ease, v, count);
            let short = if single_lt(HALF_CIRCLE, v.t) {
                (m.single_difference)(v.t, FULL_CIRCLE)
            } else if single_lt(v.t, MINUS_HALF_CIRCLE) {
                (m.single_sum)(v.t, FULL_CIRCLE)
            } else {
                v.t
            };
            &&& t.client == c
            &&& t.send is None
            &&& t.step matches TickStep::Evaluate { round: Round::Facing, terms } && round_values(
                m,
                terms,
            ) == (Values {
                a: 0,
                b: 0,
                c: 0,
                s: (m.single_remainder)(
                    (m.single_sum)(c.look.start_yaw, (m.single_product)(short, v.s)),
                    FULL_CIRCLE,
                ),
                t: (m.single_sum)(
                    c.look.start_pitch,
                    (m.single_product)(
                        (m.single_difference)(c.look.target_pitch, c.look.start_pitch),
                        v.s,
                    ),
                ),
            })
        }),
{
    reveal_with_fuel(crate::term::double_value, 4);
    reveal_with_fuel(crate::term::single_value, 5);
}

/// Told where it looks, a bot looks there, no steeper than straight up or down;
/// the turn itself and everything else stays.
pub proof fn law_facing_told(c: Client, args: Args, flag: u8, v: Values, count: u32)
    ensures
        ({
            let t = values_told(c, args, flag, Round::Facing, v, count);
            let pitch = t.client.look.pitch;
            &&& t.send is None
            &&& t.client.look.yaw == v.s
            &&& single_is_nan(v.t) ==> pitch == v.t
            &&& single_le(SINGLE_MINUS_NINETY, v.t) && single_le(v.t, SINGLE_NINETY) ==> pitch
                == v.t
            &&& single_lt(v.t, SINGLE_MINUS_NINETY) ==> pitch == SINGLE_MINUS_NINETY
            &&& single_lt(SINGLE_NINETY, v.t) ==> pitch == SINGLE_NINETY
            &&& t.client == (Client { look: Look { yaw: v.s, pitch, ..c.look }, ..c })
            &&& t.step == physics_stage(t.client, args).1
        }),
{
}

// ---------------------------------------------------------------------------
// A tick: falling

/// How a bot's falling begins in a tick: it asks for its speed.  Sideways it
/// keeps a share, less of it on the ground.  In the air it falls faster, on the
/// ground it does not sink.
pub proof fn law_fall_begins(m: Arithmetic, c: Client, args: Args)
    ensures
        physics_stage(c, args).0 == c,
        !args.enable_physics ==> physics_stage(c, args) == sync_stage(c),
        args.enable_physics ==> {
            let share = if c.body.on_ground {
                (m.product)(GROUND_SLIP, AIR_FRICTION)
            } else {
                AIR_FRICTION
            };
            &&& physics_stage(c, args).1 matches TickStep::Evaluate { round: Round::Velocity, terms }
                && round_values(m, terms) == (Values {
                a: (m.product)(c.body.velocity_x, share),
                b: if !c.body.on_ground {
                    (m.product)((m.difference)(c.body.velocity_y, GRAVITY), FALL_DRAG)
                } else if double_lt(c.body.velocity_y, 0) {
                    0
                } else {
                    c.body.velocity_y
                },
                c: (m.product)(c.body.velocity_z, share),
                s: 0,
                t: 0,
            })
        },
{
    reveal_with_fuel(crate::term::double_value, 4);
    reveal_with_fuel(crate::term::single_value, 4);
}

/// Told its speed, a bot has it, but for what is too slight to count, on the
/// ground also upwards and downwards, and asks where that takes it.
pub proof fn law_velocity_told(
    m: Arithmetic,
    c: Client,
    args: Args,
    flag: u8,
    v: Values,
    count: u32,
)
    ensures
        ({
            let t = values_told(c, args, flag, Round::Velocity, v, count);
            let body = t.client.body;
            &&& t.send is None
            &&& body.velocity_x == if double_lt(double_magnitude(v.a) as u64, SLIGHT) {
                0
            } else {
                v.a
            }
            &&& body.velocity_y == if c.body.on_ground && double_lt(
                double_magnitude(v.b) as u64,
                SLIGHT,
            ) {
                0
            } else {
                v.b
            }
            &&& body.velocity_z == if double_lt(double_magnitude(v.c) as u64, SLIGHT) {
                0
            } else {
                v.c
            }
            &&& t.client == (Client {
                body: Body {
                    velocity_x: body.velocity_x,
                    velocity_y: body.velocity_y,
                    velocity_z: body.velocity_z,
                    ..c.body
                },
                ..c
            })
            &&& t.step matches TickStep::Evaluate { round: Round::Position, terms } && round_values(
                m,
                terms,
            ) == (Values {
                a: (m.sum)(c.body.x, body.velocity_x),
                b: (m.sum)(c.body.y, body.velocity_y),
                c: (m.sum)(c.body.z, body.velocity_z),
                s: 0,
                t: 0,
            })
        }),
{
    reveal_with_fuel(crate::term::double_value, 4);
    reveal_with_fuel(crate::term::single_value, 4);
}

/// Told where its speed takes it, a bot is there, unless that is at or below the
/// ground: then it is on the ground, at its height, and falls no more.  Its
/// sideways speed stays.
pub proof fn law_position_told(c: Client, args: Args, flag: u8, v: Values, count: u32)
    ensures
        ({
            let t = values_told(c, args, flag, Round::Position, v, count);
            let lands = double_le(v.b, c.body.ground_y);
            &&& t.send is None
            &&& t.client == (Client {
                body: Body {
                    x: v.a,
                    y: if lands {
                        c.body.ground_y
                    } else {
                        v.b
                    },
                    z: v.c,
                    ground_y: c.body.ground_y,
                    on_ground: lands,
                    velocity_x: c.body.velocity_x,
                    velocity_y: if lands {
                        0
                    } else {
                        c.body.velocity_y
                    },
                    velocity_z: c.body.velocity_z,
                },
                ..c
            })
            &&& t.step == sync_stage(t.client).1
        }),
{
}

// ---------------------------------------------------------------------------
// A tick: telling the server

/// At its end a tick asks how far the bot is from what the server was told, in
/// each coordinate and each angle.
pub proof fn law_sync_begins(m: Arithmetic, c: Client)
    ensures
        sync_stage(c).0 == c,
        sync_stage(c).1 matches TickStep::Evaluate { round: Round::Drift, terms } && round_values(
            m,
            terms,
        ) == (Values {
            a: (m.difference)(c.body.x, c.last_sent.x),
            b: (m.difference)(c.body.y, c.last_sent.y),
            c: (m.difference)(c.body.z, c.last_sent.z),
            s: (m.single_difference)(c.look.yaw, c.last_sent.yaw),
            t: (m.single_difference)(c.look.pitch, c.last_sent.pitch),
        }),
{
    reveal_with_fuel(crate::term::double_value, 4);
    reveal_with_fuel(crate::term::single_value, 4);
}

/// A tick tells the place exactly when one of the three distances is a number
/// whose magnitude is above 0.0001, whatever its sign; the look exactly when one
/// of the two angles is above 0.01 either way; and when neither, that the bot is
/// there exactly when its footing changed or 20 ticks have passed.  What it
/// tells is where the bot is and how it looks, and whether it is on the ground.
pub proof fn law_drift_told(c: Client, args: Args, flag: u8, v: Values, count: u32)
    ensures
        ({
            let t = values_told(c, args, flag, Round::Drift, v, count);
            let far = double_lt(SLIGHT, double_magnitude(v.a) as u64) || double_lt(
                SLIGHT,
                double_magnitude(v.b) as u64,
            ) || double_lt(SLIGHT, double_magnitude(v.c) as u64);
            let wide = single_lt(SLIGHT_TURN, single_magnitude(v.s) as u32) || single_lt(
                SLIGHT_TURN,
                single_magnitude(v.t) as u32,
            );
            let due = c.body.on_ground != c.last_sent.on_ground || c.last_sent.ticks >= 20;
            let collision = if c.body.on_ground {
                flag
            } else {
                0
            };
            &&& t.step is Done
            &&& far && wide <==> t.send is Some && t.send.unwrap() is PlayerPositionRotation
            &&& far && !wide <==> t.send is Some && t.send.unwrap() is PlayerPosition
            &&& !far && wide <==> t.send is Some && t.send.unwrap() is PlayerRotation
            &&& !far && !wide && due <==> t.send is Some && t.send.unwrap() is SetPlayerGround
            &&& !far && !wide && !due <==> t.send is None
            &&& t.send matches Some(PacketModel::PlayerPositionRotation {
                x,
                y,
                z,
                yaw,
                pitch,
                collision: told,
            }) ==> x == c.body.x && y == c.body.y && z == c.body.z && yaw == c.look.yaw && pitch
                == c.look.pitch && told == collision
            &&& t.send matches Some(PacketModel::PlayerPosition { x, y, z, collision: told }) ==> x
                == c.body.x && y == c.body.y && z == c.body.z && told == collision
            &&& t.send matches Some(PacketModel::PlayerRotation { yaw, pitch, ground }) ==> yaw
                == c.look.yaw && pitch == c.look.pitch && ground == c.body.on_ground
            &&& t.send matches Some(PacketModel::SetPlayerGround { on_ground }) ==> on_ground
                == c.body.on_ground
            &&& t.client == (Client {
                last_sent: LastSent {
                    x: c.body.x,
                    y: c.body.y,
                    z: c.body.z,
                    yaw: c.look.yaw,
                    pitch: c.look.pitch,
                    on_ground: c.body.on_ground,
                    ticks: t.client.last_sent.ticks,
                },
                ..c
            })
            &&& t.send is Some ==> t.client.last_sent.ticks == 0
            &&& t.send is None ==> t.client.last_sent.ticks == c.last_sent.ticks + 1
        }),
{
}

/// The direction of a change does not matter: a difference and its negation,
/// in any of the coordinates and angles, tell the server the very same.
pub proof fn law_drift_has_no_direction(
    c: Client,
    args: Args,
    flag: u8,
    v: Values,
    w: Values,
    count: u32,
)
    requires
        double_magnitude(v.a) == double_magnitude(w.a),
        double_magnitude(v.b) == double_magnitude(w.b),
        double_magnitude(v.c) == double_magnitude(w.c),
        single_magnitude(v.s) == single_magnitude(w.s),
        single_magnitude(v.t) == single_magnitude(w.t),
    ensures
        values_told(c, args, flag, Round::Drift, v, count) == values_told(
            c,
            args,
            flag,
            Round::Drift,
            w,
            count,
        ),
{
}

/// A greater distance is never told less: what is told as a move stays one when
/// any of the distances grows.
pub proof fn law_farther_is_told(
    c: Client,
    args: Args,
    flag: u8,
    v: Values,
    w: Values,
    count: u32,
)
    requires
        double_le(double_magnitude(v.a) as u64, double_magnitude(w.a) as u64),
        double_le(double_magnitude(v.b) as u64, double_magnitude(w.b) as u64),
        double_le(double_magnitude(v.c) as u64, double_magnitude(w.c) as u64),
        v.s == w.s,
        v.t == w.t,
        double_lt(SLIGHT, double_magnitude(v.a) as u64) || double_lt(
            SLIGHT,
            double_magnitude(v.b) as u64,
        ) || double_lt(SLIGHT, double_magnitude(v.c) as u64),
    ensures
        values_told(c, args, flag, Round::Drift, v, count) == values_told(
            c,
            args,
            flag,
            Round::Drift,
            w,
            count,
        ),
{
}

} // verus!
