//! What holds of a client whatever happens to it.

use crate::args::Args;
use crate::client::{
    after_send, closed_client, concluded, counted, fresh_client, got, joined, respawn_actions,
    respawned, Client, Look, ReadEvent, SendEvent,
};
use crate::crypt::{byte_length, is_encryption, is_padded, KeyNumbers};
use crate::float::{
    double_le, double_lt, single_capped, single_clipped, single_is_nan, single_le, Double, Single,
    SINGLE_MINUS_NINETY, SINGLE_NINETY, SINGLE_ONE,
};
use crate::packet::{Action, ActionModel, ConnectionState, Packet, Protocol};
use crate::receive::{
    can_receive, handshake_actions, idle, informed, is_encryption_reply, is_placed_rest, received,
    reply, Decode, Decoded, Step,
};
use crate::term::{DoubleTerm, Terms, Values};
use crate::tick::{
    chance_told, clock_told, has_moved, has_turned, is_active, is_chance_draw, is_round_draw, jump_awaited, jumped,
    less_one, moved, movement_stage, physics_stage, rotation_stage, settled, strode, swing_stage,
    sync_stage, tick_begun, turn_begun, values_told, velocity_terms, walk_begun, walk_finished,
    Gamble, Round, TickStep, SYNC_TICKS,
};
use crate::wire::{big_endian, int_at, single_at, var_int_at, RawPacket, ReadingError};
use vstd::arithmetic::power::pow;
use vstd::prelude::*;

verus! {

// ---------------------------------------------------------------------------
// Dying and coming back

/// A death is answered once: after the answer further news of it change
/// nothing and send nothing, until the server places the bot again.
pub proof fn law_death_answered_once(c: Client)
    ensures
        respawned(c).is_dead,
        respawned(respawned(c)) == respawned(c),
        respawn_actions(respawned(c)) == Seq::<ActionModel>::empty(),
{
}

/// A bot that is dead does nothing on its own.
pub proof fn law_dead_bots_are_still(c: Client, args: Args)
    ensures
        tick_begun(respawned(c), args) == (respawned(c), TickStep::Done),
{
}

/// News of the bot's death, whichever packet brings them, are answered alike:
/// the bot stops and asks to be brought back.
pub proof fn law_deaths_agree(c: Client, p: Protocol, id: i32, payload: Seq<u8>)
    requires
        c.connection_state == ConnectionState::Play,
        distinct_ids(p),
        ({
            ||| id == p.combat_death && (var_int_at(payload) matches Ok((who, _)) && who
                == c.entity_id)
            ||| id == p.set_health && (single_at(payload) matches Ok(health) && single_le(
                health,
                0,
            ))
            ||| id == p.entity_status && (int_at(payload) matches Ok(who) && who == c.entity_id)
                && payload.len() >= 5 && payload[4] == 3
        }),
    ensures
        received(c, p, id, payload).0 == respawned(c),
        received(c, p, id, payload).1 == (Step::<Seq<ActionModel>>::Done(respawn_actions(c))),
{
}

/// Being placed by the server ends a death: the bot is alive, in the world,
/// where it was placed, and acts again if it takes part in the game.
pub proof fn law_placing_revives(c: Client, value: Decoded, rest: u32)
    requires
        value is PlayerPosition,
    ensures
        ({
            let after = informed(respawned(c), value, rest);
            &&& !after.is_dead
            &&& after.is_loaded
            &&& after.body.x == value->PlayerPosition_x
            &&& after.body.y == value->PlayerPosition_y
            &&& after.body.z == value->PlayerPosition_z
            &&& !after.walk.is_walking
            &&& after.walk.move_cooldown == rest
            &&& is_active(after) == (c.connection_state == ConnectionState::Play)
        }),
{
}

/// A bot that has just been placed is where the server knows it to be.
pub proof fn law_placing_leaves_no_drift(c: Client, value: Decoded, rest: u32)
    requires
        value is PlayerPosition,
    ensures
        ({
            let after = informed(c, value, rest);
            &&& after.last_sent.x == after.body.x
            &&& after.last_sent.y == after.body.y
            &&& after.last_sent.z == after.body.z
            &&& after.last_sent.yaw == after.look.yaw
            &&& after.last_sent.pitch == after.look.pitch
            &&& after.last_sent.on_ground == after.body.on_ground
            &&& after.body.y == after.body.ground_y
        }),
{
}

// ---------------------------------------------------------------------------
// Receiving

/// Whether no two packets that can come in one phase share an id.
pub open spec fn distinct_ids(p: Protocol) -> bool {
    let login = seq![
        p.encryption_request,
        p.set_compression,
        p.login_disconnect,
        p.login_success,
    ];
    let config = seq![p.config_disconnect, p.known_packs, p.config_ping, p.finish_config];
    let play = seq![
        p.keep_alive,
        p.entity_velocity,
        p.player_position,
        p.combat_death,
        p.set_health,
        p.entity_status,
        p.respawn,
        p.login,
        p.play_disconnect,
    ];
    login.no_duplicates() && config.no_duplicates() && play.no_duplicates()
}

/// How far a connection has come.
pub open spec fn phase(s: ConnectionState) -> int {
    match s {
        ConnectionState::Login => 1,
        ConnectionState::Config => 2,
        ConnectionState::Play => 3,
        _ => 0,
    }
}

/// A packet never takes a connection back: it stays in its phase or goes on to
/// the next, and it goes on only when the server says that the login succeeded
/// or that the configuration is finished.
pub proof fn law_phases_only_advance(c: Client, p: Protocol, id: i32, payload: Seq<u8>)
    requires
        can_receive(c),
    ensures
        ({
            let after = received(c, p, id, payload).0;
            ||| after.connection_state == c.connection_state
            ||| phase(after.connection_state) == phase(c.connection_state) + 1 && ((
            c.connection_state == ConnectionState::Login && id == p.login_success) || (
            c.connection_state == ConnectionState::Config && id == p.finish_config))
        }),
{
}

/// Once a login has been asked for, the server's success, its finished
/// configuration, its entity number and its placing of the bot, in this order
/// and with anything else left out, lead to a bot that acts.
pub proof fn law_join_leads_to_play(
    p: Protocol,
    success: Seq<u8>,
    finish: Seq<u8>,
    login: Seq<u8>,
    value: Decoded,
    rest: u32,
)
    requires
        distinct_ids(p),
        login.len() >= 4,
        value is PlayerPosition,
    ensures
        ({
            let c0 = Client { connection_state: ConnectionState::Login, ..fresh_client() };
            let c1 = received(c0, p, p.login_success, success).0;
            let c2 = received(c1, p, p.finish_config, finish).0;
            let c3 = received(c2, p, p.login, login).0;
            let (c4, step) = received(c3, p, p.player_position, login);
            let c5 = informed(c4, value, rest);
            &&& c1.connection_state == ConnectionState::Config
            &&& c2.connection_state == ConnectionState::Play
            &&& int_at(login) == Ok::<i32, ReadingError>(c3.entity_id)
            &&& step == (Step::<Seq<ActionModel>>::Decode(Decode::PlayerPosition))
            &&& is_active(c5)
        }),
{
    assert(p.login_success != p.encryption_request && p.login_success != p.set_compression
        && p.login_success != p.login_disconnect) by {
        let ids = seq![
            p.encryption_request,
            p.set_compression,
            p.login_disconnect,
            p.login_success,
        ];
        assert(ids.no_duplicates());
        assert(ids[0] != ids[3] && ids[1] != ids[3] && ids[2] != ids[3]);
    }
    assert(p.finish_config != p.config_disconnect && p.finish_config != p.known_packs
        && p.finish_config != p.config_ping) by {
        let ids = seq![p.config_disconnect, p.known_packs, p.config_ping, p.finish_config];
        assert(ids.no_duplicates());
        assert(ids[0] != ids[3] && ids[1] != ids[3] && ids[2] != ids[3]);
    }
    lemma_play_ids(p);
}

proof fn lemma_play_ids(p: Protocol)
    requires
        distinct_ids(p),
    ensures
        p.login != p.keep_alive,
        p.login != p.entity_velocity,
        p.login != p.player_position,
        p.login != p.combat_death,
        p.login != p.set_health,
        p.login != p.entity_status,
        p.login != p.respawn,
        p.player_position != p.keep_alive,
        p.player_position != p.entity_velocity,
        p.combat_death != p.keep_alive,
        p.combat_death != p.entity_velocity,
        p.combat_death != p.player_position,
        p.set_health != p.keep_alive,
        p.set_health != p.entity_velocity,
        p.set_health != p.player_position,
        p.set_health != p.combat_death,
        p.entity_status != p.keep_alive,
        p.entity_status != p.entity_velocity,
        p.entity_status != p.player_position,
        p.entity_status != p.combat_death,
        p.entity_status != p.set_health,
{
    let ids = seq![
        p.keep_alive,
        p.entity_velocity,
        p.player_position,
        p.combat_death,
        p.set_health,
        p.entity_status,
        p.respawn,
        p.login,
        p.play_disconnect,
    ];
    assert(ids.no_duplicates());
    assert(ids[0] == p.keep_alive && ids[1] == p.entity_velocity && ids[2] == p.player_position
        && ids[3] == p.combat_death && ids[4] == p.set_health && ids[5] == p.entity_status && ids[6]
        == p.respawn && ids[7] == p.login);
}

/// A keep-alive is always answered with the very number it came with, and
/// changes nothing.
pub proof fn law_keep_alive_echoed(c: Client, p: Protocol, payload: Seq<u8>, n: i64, rest: u32)
    requires
        c.connection_state == ConnectionState::Play,
    ensures
        received(c, p, p.keep_alive, payload) == (
            c,
            Step::<Seq<ActionModel>>::Decode(Decode::KeepAlive),
        ),
        informed(c, Decoded::KeepAlive { keep_alive_id: n }, rest) == c,
        reply(Decoded::KeepAlive { keep_alive_id: n }) == seq![
            ActionModel::Send(Packet::KeepAlive { keep_alive_id: n }),
        ],
{
}

/// What happens to other entities is none of the bot's business.
pub proof fn law_others_ignored(c: Client, p: Protocol, id: i32, payload: Seq<u8>)
    requires
        c.connection_state == ConnectionState::Play,
        distinct_ids(p),
        ({
            ||| (id == p.entity_velocity || id == p.combat_death) && (var_int_at(
                payload,
            ) matches Ok((who, _)) && who != c.entity_id)
            ||| id == p.entity_status && payload.len() >= 5 && (int_at(payload) matches Ok(who)
                && who != c.entity_id)
        }),
    ensures
        received(c, p, id, payload) == (c, idle()),
{
    lemma_play_ids(p);
}

/// A packet that the client does not listen to changes nothing and is not
/// answered.
pub proof fn law_unknown_ignored(c: Client, p: Protocol, id: i32, payload: Seq<u8>)
    requires
        can_receive(c),
        c.connection_state == ConnectionState::Login ==> id != p.encryption_request && id
            != p.set_compression && id != p.login_disconnect && id != p.login_success,
        c.connection_state == ConnectionState::Config ==> id != p.config_disconnect && id
            != p.known_packs && id != p.config_ping && id != p.finish_config,
        c.connection_state == ConnectionState::Play ==> id != p.keep_alive && id
            != p.entity_velocity && id != p.player_position && id != p.combat_death && id
            != p.set_health && id != p.entity_status && id != p.respawn && id != p.login && id
            != p.play_disconnect,
    ensures
        received(c, p, id, payload) == (c, idle()),
{
}

/// A packet that cannot be read leaves the client as it was.
pub proof fn law_unreadable_changes_nothing(c: Client, p: Protocol, id: i32, payload: Seq<u8>)
    requires
        can_receive(c),
        received(c, p, id, payload).1 is Failed,
    ensures
        received(c, p, id, payload).0 == c,
{
}

/// A closed connection is never taken for an open one again.
pub proof fn law_closed_stays_closed(
    c: Client,
    p: Protocol,
    id: i32,
    payload: Seq<u8>,
    value: Decoded,
    args: Args,
    at: Round,
    v: Values,
    gamble: Gamble,
    hit: bool,
    m: u32,
    n: u32,
    millis: u128,
    salt: i64,
    read: ReadEvent,
    send: SendEvent,
    outcome: Option<Result<Seq<ActionModel>, ReadingError>>,
)
    requires
        c.closed,
    ensures
        received(c, p, id, payload).0.closed,
        informed(c, value, m).closed,
        respawned(c).closed,
        closed_client(c).closed,
        joined(c).closed,
        counted(c).closed,
        got(c, read).0.closed,
        concluded(c, outcome).0.closed,
        after_send(c, send).closed,
        tick_begun(c, args).0.closed,
        clock_told(c, args, millis, m, salt).client.closed,
        chance_told(c, args, gamble, hit, m, n).client.closed,
        values_told(c, args, p.flag_on_ground, at, v, m).client.closed,
{
}

// ---------------------------------------------------------------------------
// One packet from beginning to end

/// What came of asking for the fields of a packet.
pub enum Reading {
    /// The fields.
    Fields(Decoded),
    /// What the fields of an encryption request call for.
    Answer(Result<Seq<ActionModel>, ReadingError>),
    /// The fields cannot be read.
    Unreadable(ReadingError),
}

/// Whether a reading is one of the fields that were asked for.
pub open spec fn is_reading_of(what: Decode, reading: Reading) -> bool {
    match reading {
        Reading::Unreadable(_) => true,
        Reading::Answer(_) => what is EncryptionRequest,
        Reading::Fields(value) => match value {
            Decoded::SetCompression { .. } => what is SetCompression,
            Decoded::ConfigPing { .. } => what is ConfigPing,
            Decoded::KeepAlive { .. } => what is KeepAlive,
            Decoded::EntityVelocity { .. } => what is EntityVelocity,
            Decoded::PlayerPosition { .. } => what is PlayerPosition,
        },
    }
}

/// Whether a reading is one of the fields that a packet makes a client ask for,
/// if it does.
pub open spec fn suits(c: Client, p: Protocol, packet: RawPacket, reading: Reading) -> bool {
    received(c, p, packet.id, packet.payload@).1 matches Step::Decode(what) ==> is_reading_of(
        what,
        reading,
    )
}

/// A packet being handled, with its fields where they are needed.
pub open spec fn handled(
    c: Client,
    p: Protocol,
    packet: RawPacket,
    reading: Reading,
    rest: u32,
) -> (Client, Result<Seq<ActionModel>, ReadingError>) {
    let (after, step) = received(c, p, packet.id, packet.payload@);
    match step {
        Step::Done(actions) => (after, Ok(actions)),
        Step::Failed(e) => (after, Err(e)),
        Step::Decode(_) => match reading {
            Reading::Fields(value) => (informed(after, value, rest), Ok(reply(value))),
            Reading::Answer(answer) => (after, answer),
            Reading::Unreadable(e) => (after, Err(e)),
        },
    }
}

/// One packet being waited for, handled if it comes, and done with: the client
/// after it, whether there was one, and all that is to be done.
pub open spec fn processed(
    c: Client,
    p: Protocol,
    event: ReadEvent,
    reading: Reading,
    rest: u32,
) -> (Client, bool, Seq<ActionModel>) {
    let (waited, packet, first) = got(c, event);
    let (after, outcome) = match packet {
        Some(packet) => {
            let (after, outcome) = handled(waited, p, packet, reading, rest);
            (after, Some(outcome))
        },
        None => (waited, None),
    };
    let (end, found, then) = concluded(after, outcome);
    (end, found, first + then)
}

/// Without a packet nothing is handled and nothing is sent; at most the
/// connection is closed, and it is where input could not be decoded.  With a
/// packet exactly that one is handled, once, and what it calls for is done; one
/// that fails closes the connection and does nothing else.
pub proof fn law_one_packet(
    c: Client,
    p: Protocol,
    event: ReadEvent,
    reading: Reading,
    rest: u32,
)
    requires
        can_receive(c),
        event matches ReadEvent::Arrived(packet) ==> suits(c, p, packet, reading),
    ensures
        processed(c, p, event, reading, rest).1 <==> event is Arrived,
        processed(c, p, event, reading, rest) == (match event {
            ReadEvent::Interrupted => (c, false, Seq::<ActionModel>::empty()),
            ReadEvent::Failed { connection_closed: true } => (
                c,
                false,
                Seq::<ActionModel>::empty(),
            ),
            ReadEvent::Failed { connection_closed: false } => (
                closed_client(c),
                false,
                seq![ActionModel::Close],
            ),
            ReadEvent::Arrived(packet) => {
                let (after, outcome) = handled(c, p, packet, reading, rest);
                match outcome {
                    Ok(actions) => (after, true, actions),
                    Err(_) => (closed_client(c), true, seq![ActionModel::Close]),
                }
            },
        }),
{
    let (end, found, all) = processed(c, p, event, reading, rest);
    match event {
        ReadEvent::Arrived(packet) => {
            law_failure_changes_nothing(c, p, packet, reading, rest);
            let (after, outcome) = handled(c, p, packet, reading, rest);
            match outcome {
                Ok(actions) => {
                    assert(all =~= actions);
                },
                Err(_) => {
                    assert(all =~= seq![ActionModel::Close]);
                },
            }
        },
        ReadEvent::Failed { connection_closed: false } => {
            assert(all =~= seq![ActionModel::Close]);
        },
        _ => {
            assert(all =~= Seq::<ActionModel>::empty());
        },
    }
}

/// A packet that fails to be handled, at whichever point, leaves the client as
/// it was.
pub proof fn law_failure_changes_nothing(
    c: Client,
    p: Protocol,
    packet: RawPacket,
    reading: Reading,
    rest: u32,
)
    requires
        can_receive(c),
        suits(c, p, packet, reading),
    ensures
        handled(c, p, packet, reading, rest).1 is Err ==> handled(c, p, packet, reading, rest).0
            == c,
{
}

/// A packet of the login phase fails exactly where it is an encryption request
/// or sets the compression and cannot be read, or is an encryption request
/// that cannot be answered.
pub proof fn law_login_failures(
    c: Client,
    p: Protocol,
    packet: RawPacket,
    reading: Reading,
    rest: u32,
)
    requires
        c.connection_state == ConnectionState::Login,
        suits(c, p, packet, reading),
    ensures
        handled(c, p, packet, reading, rest).1 is Err <==> {
            ||| (packet.id == p.encryption_request || packet.id == p.set_compression)
                && reading is Unreadable
            ||| packet.id == p.encryption_request && (reading matches Reading::Answer(answer)
                && answer is Err)
        },
        handled(c, p, packet, reading, rest).1 is Err ==> handled(c, p, packet, reading, rest).0
            == c,
{
}

// ---------------------------------------------------------------------------
// Encrypting

/// The message in a padded block is unambiguous: whoever undoes the encryption
/// finds the one message that was encrypted.
pub proof fn law_padding_unambiguous(block: Seq<u8>, m: Seq<u8>, n: Seq<u8>, size: int)
    requires
        is_padded(block, m, size),
        is_padded(block, n, size),
    ensures
        m == n,
{
    let gap_m = size - m.len() - 1;
    let gap_n = size - n.len() - 1;
    if gap_m < gap_n {
        assert(block[gap_m] != 0);
    } else if gap_n < gap_m {
        assert(block[gap_n] != 0);
    }
}

/// Whether raising to the power `d` undoes raising to the key's exponent, modulo
/// the key's modulus.
pub open spec fn undoes(d: nat, key: KeyNumbers) -> bool {
    forall|x: int|
        0 <= x < key.modulus ==> pow(
            #[trigger] pow(x, key.exponent) % key.modulus as int,
            d,
        ) % key.modulus as int == x
}

/// Who holds the private key gets back what was encrypted: raising the cipher
/// to the private exponent gives the padded message and nothing else.
pub proof fn law_encryption_undone(
    cipher: Seq<u8>,
    message: Seq<u8>,
    key: KeyNumbers,
    d: nat,
    block: Seq<u8>,
    found: Seq<u8>,
)
    requires
        is_encryption(cipher, message, key),
        undoes(d, key),
        block.len() == byte_length(key.modulus),
        big_endian(block) == pow(big_endian(cipher) as int, d) % key.modulus as int,
    ensures
        is_padded(block, message, byte_length(key.modulus) as int),
        is_padded(block, found, byte_length(key.modulus) as int) ==> found == message,
{
    let size = byte_length(key.modulus) as int;
    let m = key.modulus as int;
    let b = choose|b: Seq<u8>|
        #![trigger is_padded(b, message, size)]
        is_padded(b, message, size) && big_endian(cipher) == pow(
            big_endian(b) as int,
            key.exponent,
        ) % m;
    lemma_leading_zero(b);
    lemma_byte_length(key.modulus);
    let x = big_endian(b) as int;
    assert(0 <= x < key.modulus);
    assert(pow(pow(x, key.exponent) % m, d) % m == x);
    lemma_big_endian_injective(block, b);
    if is_padded(block, found, size) {
        law_padding_unambiguous(block, message, found, size);
    }
}

/// An encryption request cannot be answered exactly where its document holds no
/// key, or its token is too long for the key.
pub proof fn law_encryption_failures(
    r: Result<Vec<Action>, ReadingError>,
    key: Result<KeyNumbers, Seq<char>>,
    token: Seq<u8>,
    secret: [u8; 16],
)
    requires
        is_encryption_reply(r, key, token, secret),
    ensures
        r is Err <==> (key matches Ok(numbers) ==> token.len() + 11 > byte_length(numbers.modulus)),
{
}

/// A handshake shares the secret: what is sent comes before encryption is
/// switched on, and the key that is then used is what the holder of the private
/// key finds in it; the token comes back likewise.
pub proof fn law_handshake_shares_secret(
    actions: Seq<ActionModel>,
    shared: Seq<u8>,
    verify: Seq<u8>,
    secret: [u8; 16],
    token: Seq<u8>,
    key: KeyNumbers,
    d: nat,
    block: Seq<u8>,
    found: Seq<u8>,
    token_block: Seq<u8>,
    token_found: Seq<u8>,
)
    requires
        actions == handshake_actions(shared, verify, secret),
        is_encryption(shared, secret@, key),
        is_encryption(verify, token, key),
        undoes(d, key),
        block.len() == byte_length(key.modulus),
        big_endian(block) == pow(big_endian(shared) as int, d) % key.modulus as int,
        is_padded(block, found, byte_length(key.modulus) as int),
        token_block.len() == byte_length(key.modulus),
        big_endian(token_block) == pow(big_endian(verify) as int, d) % key.modulus as int,
        is_padded(token_block, token_found, byte_length(key.modulus) as int),
    ensures
        actions.len() == 2,
        actions[0] == ActionModel::Send(
            Packet::EncryptionResponse { shared_secret: shared, verify_token: verify },
        ),
        actions[1] == ActionModel::SetEncryption(secret),
        found == secret@,
        token_found == token,
{
    law_encryption_undone(shared, secret@, key, d, block, found);
    law_encryption_undone(verify, token, key, d, token_block, token_found);
}

/// `256` to the power `n`.
spec fn byte_weight(n: nat) -> nat
    decreases n,
{
    if n == 0 {
        1
    } else {
        256 * byte_weight((n - 1) as nat)
    }
}

/// A number that begins with a zero byte is smaller than any that does not.
proof fn lemma_leading_zero(s: Seq<u8>)
    requires
        s.len() >= 1,
        s[0] == 0,
    ensures
        big_endian(s) < byte_weight((s.len() - 1) as nat),
    decreases s.len(),
{
    reveal_with_fuel(big_endian, 2);
    if s.len() > 1 {
        lemma_leading_zero(s.drop_last());
    }
}

/// A number of some bytes is at least the weight of its first.
proof fn lemma_byte_length(n: nat)
    requires
        n > 0,
    ensures
        byte_length(n) >= 1,
        byte_weight((byte_length(n) - 1) as nat) <= n,
    decreases n,
{
    reveal_with_fuel(byte_length, 2);
    if n >= 256 {
        lemma_byte_length(n / 256);
    }
}

/// Two numbers of the same length and value have the same bytes.
proof fn lemma_big_endian_injective(s: Seq<u8>, t: Seq<u8>)
    requires
        s.len() == t.len(),
        big_endian(s) == big_endian(t),
    ensures
        s == t,
    decreases s.len(),
{
    if s.len() > 0 {
        lemma_big_endian_injective(s.drop_last(), t.drop_last());
        assert(s =~= s.drop_last().push(s.last()));
        assert(t =~= t.drop_last().push(t.last()));
    } else {
        assert(s =~= t);
    }
}

// ---------------------------------------------------------------------------
// Ticking

/// How many questions a tick can still ask before it is over, at most.
pub open spec fn questions_left(step: TickStep) -> int {
    match step {
        TickStep::Done => 0,
        TickStep::Clock => 11,
        TickStep::Chance { gamble: Gamble::Swing, .. } => 10,
        TickStep::Chance { gamble: Gamble::Jump { .. }, .. } => 8,
        TickStep::Evaluate { round, .. } => match round {
            Round::Stride { .. } => 9,
            Round::Heading => 9,
            Round::Bearing => 8,
            Round::Gaze => 4,
            Round::Ramp => 6,
            Round::Ease => 5,
            Round::Facing => 4,
            Round::Velocity => 3,
            Round::Position => 2,
            Round::Drift => 1,
        },
    }
}

/// No stage asks more than the stages before it can.
proof fn lemma_stage_questions(c: Client, args: Args)
    ensures
        0 <= questions_left(physics_stage(c, args).1) <= 3,
        0 <= questions_left(rotation_stage(c, args).1) <= 6,
        0 <= questions_left(movement_stage(c, args).1) <= 9,
        0 <= questions_left(swing_stage(c, args).1) <= 10,
{
}

/// A tick asks at most eleven questions.
pub proof fn law_ticks_are_short(c: Client, args: Args)
    ensures
        0 <= questions_left(tick_begun(c, args).1) <= 11,
{
    lemma_stage_questions(c, args);
    lemma_stage_questions(
        Client { message_spam_cooldown: less_one(c.message_spam_cooldown), ..c },
        args,
    );
}

/// Every tick ends: the time leaves fewer questions to be asked.
pub proof fn law_ticks_end_by_clock(c: Client, args: Args, millis: u128, delay: u32, salt: i64)
    ensures
        0 <= questions_left(clock_told(c, args, millis, delay, salt).step) < questions_left(
            TickStep::Clock,
        ),
{
    lemma_stage_questions(counted(Client { message_spam_cooldown: delay, ..c }), args);
}

/// Every tick ends: a stroke of luck leaves fewer questions to be asked.
pub proof fn law_ticks_end_by_chance(
    c: Client,
    args: Args,
    gamble: Gamble,
    probability: Double,
    hit: bool,
    cooldown: u32,
    rest: u32,
)
    ensures
        0 <= questions_left(chance_told(c, args, gamble, hit, cooldown, rest).step)
            < questions_left(TickStep::Chance { gamble, probability }),
{
    match gamble {
        Gamble::Swing => {
            lemma_stage_questions(
                if hit {
                    Client { swing_cooldown: cooldown, ..c }
                } else {
                    c
                },
                args,
            );
        },
        Gamble::Jump { last } => {
            let after = if hit {
                jumped(c, cooldown)
            } else {
                c
            };
            lemma_stage_questions(walk_finished(after, last, rest), args);
        },
    }
}

/// Every tick ends: the values of a round leave fewer questions to be asked.
pub proof fn law_ticks_end_by_values(
    c: Client,
    args: Args,
    flag: u8,
    round: Round,
    terms: Terms,
    v: Values,
    count: u32,
)
    ensures
        0 <= questions_left(values_told(c, args, flag, round, v, count).step) < questions_left(
            TickStep::Evaluate { round, terms },
        ),
{
    match round {
        Round::Stride { last } => {
            let after = strode(c, v);
            let waited = if args.enable_jumping {
                jump_awaited(after)
            } else {
                after
            };
            lemma_stage_questions(walk_finished(waited, last, count), args);
        },
        Round::Bearing => {
            lemma_stage_questions(
                jump_awaited(walk_begun(c, args.enable_rotation, v, count)),
                args,
            );
        },
        Round::Gaze => {
            lemma_stage_questions(
                Client { look: Look { cooldown: count, ..turn_begun(c.look, v.s, v.t) }, ..c },
                args,
            );
        },
        Round::Facing => {
            lemma_stage_questions(
                Client { look: Look { yaw: v.s, pitch: single_clipped(v.t), ..c.look }, ..c },
                args,
            );
        },
        _ => {},
    }
}

/// Chatting keeps time: an active bot with something to say counts one tick down
/// in each tick, and speaks exactly when there are none left to count.
pub proof fn law_chat_countdown(c: Client, args: Args)
    requires
        is_active(c),
        args.spam_message is Some,
    ensures
        c.message_spam_cooldown == 0 <==> tick_begun(c, args).1 is Clock,
        c.message_spam_cooldown > 0 ==> tick_begun(c, args).0.message_spam_cooldown
            == c.message_spam_cooldown - 1,
{
    lemma_stages_keep_chat(
        Client { message_spam_cooldown: less_one(c.message_spam_cooldown), ..c },
        args,
    );
}

/// The stages after chatting leave the chat alone.
pub(crate) proof fn lemma_stages_keep_chat(c: Client, args: Args)
    ensures
        !(swing_stage(c, args).1 is Clock),
        swing_stage(c, args).0.message_spam_cooldown == c.message_spam_cooldown,
        swing_stage(c, args).0.message_count == c.message_count,
{
}

/// Only the time makes a bot speak: luck and the values of formulas leave its
/// chat alone, and make it say nothing.
pub proof fn law_only_the_clock_chats(
    c: Client,
    args: Args,
    flag: u8,
    gamble: Gamble,
    hit: bool,
    cooldown: u32,
    rest: u32,
    round: Round,
    v: Values,
    count: u32,
)
    ensures
        ({
            let lucky = chance_told(c, args, gamble, hit, cooldown, rest);
            let told = values_told(c, args, flag, round, v, count);
            &&& lucky.client.message_spam_cooldown == c.message_spam_cooldown
            &&& lucky.client.message_count == c.message_count
            &&& !(lucky.send matches Some(Packet::ChatMessage { .. }))
            &&& !(lucky.step is Clock)
            &&& told.client.message_spam_cooldown == c.message_spam_cooldown
            &&& told.client.message_count == c.message_count
            &&& !(told.send matches Some(Packet::ChatMessage { .. }))
            &&& !(told.step is Clock)
        }),
{
}

/// After a message the next one is exactly the drawn delay away, and carries the
/// next number.
pub proof fn law_chat_delay(c: Client, args: Args, millis: u128, delay: u32, salt: i64)
    requires
        args.spam_message is Some,
    ensures
        clock_told(c, args, millis, delay, salt).client.message_spam_cooldown == delay,
        c.message_count < u32::MAX ==> clock_told(c, args, millis, delay, salt).client.message_count
            == c.message_count + 1,
{
    lemma_stages_keep_chat(counted(Client { message_spam_cooldown: delay, ..c }), args);
}

/// With every pastime switched off, a tick changes nothing of the bot and only
/// compares it with what the server knows.
pub proof fn law_idle_tick_only_syncs(c: Client, args: Args)
    requires
        is_active(c),
        args.spam_message is None,
        !args.enable_swing,
        !args.enable_movement,
        !args.enable_rotation,
        !args.enable_physics,
    ensures
        tick_begun(c, args) == sync_stage(c),
{
}

/// The bounds that a client keeps to between packets and ticks, and that, while
/// a tick waits for the answer to `step`, hold in the meantime: every cooldown
/// and walk is short, a walk that goes on has ticks left, and the server is
/// never left without news for longer than `SYNC_TICKS` ticks.
pub open spec fn in_bounds(c: Client, args: Args, step: TickStep) -> bool {
    &&& c.message_spam_cooldown <= 1 || c.message_spam_cooldown < args.spam_message_delay_max
    &&& c.swing_cooldown < 40
    &&& c.walk.jump_cooldown < 40
    &&& c.walk.move_cooldown < 80
    &&& c.walk.move_ticks < 60
    &&& c.look.cooldown < 100
    &&& c.last_sent.ticks <= SYNC_TICKS
    &&& c.walk.is_walking ==> c.walk.move_ticks >= 1 || is_last_step(step)
}

/// Whether a tick waits in the middle of the last step of a walk.
pub open spec fn is_last_step(step: TickStep) -> bool {
    match step {
        TickStep::Evaluate { round: Round::Stride { last }, .. } => last,
        TickStep::Chance { gamble: Gamble::Jump { last }, .. } => last,
        _ => false,
    }
}

/// A new client is in bounds, and so it stays through everything that happens
/// to it outside of a tick.
pub proof fn law_bounds_kept(
    c: Client,
    args: Args,
    p: Protocol,
    id: i32,
    payload: Seq<u8>,
    value: Decoded,
    rest: u32,
)
    requires
        in_bounds(c, args, TickStep::Done),
        is_placed_rest(rest),
    ensures
        in_bounds(fresh_client(), args, TickStep::Done),
        in_bounds(received(c, p, id, payload).0, args, TickStep::Done),
        in_bounds(informed(c, value, rest), args, TickStep::Done),
        in_bounds(respawned(c), args, TickStep::Done),
        in_bounds(closed_client(c), args, TickStep::Done),
        in_bounds(counted(c), args, TickStep::Done),
{
}

/// A tick keeps a client in bounds when it begins.
pub proof fn law_bounds_kept_by_tick(c: Client, args: Args)
    requires
        in_bounds(c, args, TickStep::Done),
    ensures
        in_bounds(tick_begun(c, args).0, args, tick_begun(c, args).1),
{
}

/// A tick keeps a client in bounds when it is told the time.
pub proof fn law_bounds_kept_by_clock(c: Client, args: Args, millis: u128, delay: u32, salt: i64)
    requires
        in_bounds(c, args, TickStep::Clock),
        args.spam_message_delay_min <= delay < args.spam_message_delay_max,
    ensures
        ({
            let after = clock_told(c, args, millis, delay, salt);
            in_bounds(after.client, args, after.step)
        }),
{
}

/// A tick keeps a client in bounds when luck has decided.
pub proof fn law_bounds_kept_by_chance(
    c: Client,
    args: Args,
    at: Gamble,
    probability: Double,
    hit: bool,
    cooldown: u32,
    rest: u32,
)
    requires
        in_bounds(c, args, TickStep::Chance { gamble: at, probability }),
        is_chance_draw(at, cooldown, rest),
    ensures
        ({
            let after = chance_told(c, args, at, hit, cooldown, rest);
            in_bounds(after.client, args, after.step)
        }),
{
}

/// A tick keeps a client in bounds when the values of a round are known.
pub proof fn law_bounds_kept_by_values(
    c: Client,
    args: Args,
    flag: u8,
    at: Round,
    terms: Terms,
    v: Values,
    count: u32,
)
    requires
        in_bounds(c, args, TickStep::Evaluate { round: at, terms }),
        is_round_draw(at, count),
    ensures
        ({
            let after = values_told(c, args, flag, at, v, count);
            in_bounds(after.client, args, after.step)
        }),
{
}

/// The ground stops a fall: after a bot has moved it is either on the ground,
/// exactly at its height and without vertical speed, or not at or below it.
pub proof fn law_ground_stops(c: Client, v: Values)
    ensures
        moved(c, v).body.on_ground ==> moved(c, v).body.y == c.body.ground_y && moved(
            c,
            v,
        ).body.velocity_y == 0,
        !moved(c, v).body.on_ground ==> !double_le(moved(c, v).body.y, c.body.ground_y),
        moved(c, v).body.ground_y == c.body.ground_y,
{
}

/// A bot on the ground never sinks into it: once the speed is settled it is not
/// downwards, if the value of a formula that is a mere number is that number.
pub proof fn law_ground_holds(c: Client, v: Values)
    requires
        c.body.on_ground,
        velocity_terms(c).b matches DoubleTerm::Lit(x) ==> v.b == x,
    ensures
        !double_lt(settled(c, v).body.velocity_y, 0),
{
}

/// A turn is never more than done.
pub proof fn law_progress_capped(a: Single)
    ensures
        single_le(single_capped(a), SINGLE_ONE),
{
}

/// A turning bot looks no steeper than straight up or straight down, as far as
/// its pitch is a number at all.
pub proof fn law_pitch_clipped(a: Single)
    ensures
        single_is_nan(a) ==> single_clipped(a) == a,
        !single_is_nan(a) ==> single_le(SINGLE_MINUS_NINETY, single_clipped(a)) && single_le(
            single_clipped(a),
            SINGLE_NINETY,
        ),
{
}

/// After a tick the server's knowledge, as far as the client keeps track of it,
/// is where the bot is, whether or not it was told anything; and a bot that
/// moved, turned, or left or reached the ground has told so.  Nothing else of
/// the bot changes, and it counts the ticks without news.
pub proof fn law_sync_is_complete(c: Client, args: Args, flag: u8, v: Values, count: u32)
    ensures
        ({
            let after = values_told(c, args, flag, Round::Drift, v, count);
            &&& after.client.last_sent.x == c.body.x
            &&& after.client.last_sent.y == c.body.y
            &&& after.client.last_sent.z == c.body.z
            &&& after.client.last_sent.yaw == c.look.yaw
            &&& after.client.last_sent.pitch == c.look.pitch
            &&& after.client.last_sent.on_ground == c.body.on_ground
            &&& after.client == (Client { last_sent: after.client.last_sent, ..c })
            &&& after.step is Done
            &&& has_moved(v) || has_turned(v) ==> after.send is Some
            &&& c.body.on_ground != c.last_sent.on_ground ==> after.send is Some
            &&& c.last_sent.ticks >= SYNC_TICKS ==> after.send is Some
            &&& after.send is Some ==> after.client.last_sent.ticks == 0
            &&& after.send is None ==> after.client.last_sent.ticks == c.last_sent.ticks + 1
            &&& c.last_sent.ticks <= SYNC_TICKS ==> after.client.last_sent.ticks <= SYNC_TICKS
        }),
{
}

} // verus!
