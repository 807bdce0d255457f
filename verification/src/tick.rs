//! What a client does on its own, tick by tick.
//!
//! [`Client::tick`] begins a tick.  A tick goes through its stages in order:
//! chatting, swinging an arm, walking, looking around, falling, and telling the
//! server about it.  Where a stage needs the time, a stroke of luck or the
//! value of a formula, the tick stops and asks for it with a [`TickStep`]; the
//! answer goes to [`Client::tick_clock`], [`Client::tick_chance`] or
//! [`Client::tick_values`], which carry the tick on.

use crate::args::Args;
use crate::client::{chat_packet, counted, Body, Client, LastSent, Look, Walk};
use crate::float::{
    abs_double, abs_single, cap_single, clip_single, double_le, double_lt, double_magnitude,
    le_double, le_single, lt_double, lt_single, single_capped, single_clipped, single_le, single_lt,
    single_magnitude, Double, Single, SINGLE_ONE,
};
use crate::packet::{ConnectionState, Packet, PacketModel, Protocol, Serverbound};
use crate::random::{draw, draw_salt};
use crate::term::{
    ddiff, dlit, double_terms, dprod, dsum, sdiff, single_terms, slit, spow, sprod, srem, ssum,
    DoubleTerm, SingleTerm, Terms, Values,
};
use vstd::prelude::*;

verus! {

/// `0.01`: how likely an arm swing is.
pub const SWING_CHANCE: Double = 0x3f84_7ae1_47ae_147b;

/// `0.04`: how likely a jump is.
pub const JUMP_CHANCE: Double = 0x3fa4_7ae1_47ae_147b;

/// `0.42`: the speed of a jump.
pub const JUMP_SPEED: Double = 0x3fda_e147_ae14_7ae1;

/// `0.08`: how much a step on the ground adds to the speed.
pub const GROUND_ACCELERATION: Double = 0x3fb4_7ae1_47ae_147b;

/// `0.02`: how much a step in the air adds to the speed.
pub const AIR_ACCELERATION: Double = 0x3f94_7ae1_47ae_147b;

/// The number pi.
pub const HALF_TURN: Double = 0x4009_21fb_5444_2d18;

/// Minus pi.
pub const MINUS_HALF_TURN: Double = 0xc009_21fb_5444_2d18;

/// `0.08`: how much speed a tick of falling adds.
pub const GRAVITY: Double = 0x3fb4_7ae1_47ae_147b;

/// `0.98`: the share of its speed that something falling keeps.
pub const FALL_DRAG: Double = 0x3fef_5c28_f5c2_8f5c;

/// `0.91`: the share of its sideways speed that something in the air keeps.
pub const AIR_FRICTION: Double = 0x3fed_1eb8_51eb_851f;

/// `0.6`: how much less of it something on the ground keeps.
pub const GROUND_SLIP: Double = 0x3fe3_3333_3333_3333;

/// `0.0001`: below this a speed counts as none, and a way as not gone.
pub const SLIGHT: Double = 0x3f1a_36e2_eb1c_432d;

/// `0.01`: up to this a turn counts as none.
pub const SLIGHT_TURN: Single = 0x3c23_d70a;

/// `0.05`: how much of a turn is done in a tick.
pub const TURN_STEP: Single = 0x3d4c_cccd;

/// `2.0`.
pub const TWO: Single = 0x4000_0000;

/// `3.0`.
pub const THREE: Single = 0x4040_0000;

/// `10.0`: the steepest that a walking bot looks down.
pub const WALK_PITCH: Single = 0x4120_0000;

/// `-10.0`: the steepest that a walking bot looks up.
pub const MINUS_WALK_PITCH: Single = 0xc120_0000;

/// `30.0`: the steepest that a resting bot looks down.
pub const REST_PITCH: Single = 0x41f0_0000;

/// `-30.0`: the steepest that a resting bot looks up.
pub const MINUS_REST_PITCH: Single = 0xc1f0_0000;

/// `180.0`.
pub const HALF_CIRCLE: Single = 0x4334_0000;

/// `-180.0`.
pub const MINUS_HALF_CIRCLE: Single = 0xc334_0000;

/// `360.0`.
pub const FULL_CIRCLE: Single = 0x43b4_0000;

/// After so many ticks the server is told of a bot that has not moved.
pub const SYNC_TICKS: u32 = 20;

/// What a stroke of luck decides.
#[derive(Clone, Copy, Debug, PartialEq, Eq, Structural)]
pub enum Gamble {
    /// Whether the arm is swung.
    Swing,
    /// Whether the bot jumps, in the last tick of a walk or before.
    Jump { last: bool },
}

/// What the values of a round of formulas are for.
#[derive(Clone, Copy, Debug, PartialEq, Eq, Structural)]
pub enum Round {
    /// The speed after a step, in the last tick of a walk or before.
    Stride { last: bool },
    /// The angle that a new walk goes at.
    Heading,
    /// The direction that the angle stands for.
    Bearing,
    /// Where to look next.
    Gaze,
    /// How much of the turn is done now.
    Ramp,
    /// How far the turn has come, and how far it goes in all.
    Ease,
    /// Where the bot looks now.
    Facing,
    /// The speed after friction and gravity.
    Velocity,
    /// The place that the speed leads to.
    Position,
    /// How far the bot is from where the server was told it is.
    Drift,
}

/// What a tick needs in order to go on.
#[derive(Debug, PartialEq)]
pub enum TickStep {
    /// Nothing: the tick is over.
    Done,
    /// The time in milliseconds since the epoch.
    Clock,
    /// Whether something of this probability happens.
    Chance { gamble: Gamble, probability: Double },
    /// The values of these formulas.
    Evaluate { round: Round, terms: Terms },
}

/// How a tick was carried on: the packet to send first, then what it needs.
#[derive(Debug, PartialEq)]
pub struct Ticked {
    pub send: Option<Serverbound>,
    pub step: TickStep,
}

/// A client in its tick, the packet it has just sent, and what it needs next.
pub struct TickModel {
    pub client: Client,
    pub send: Option<PacketModel>,
    pub step: TickStep,
}

/// A packet that is sent, if one is, as contracts speak of it.
pub open spec fn sent(send: Option<Serverbound>) -> Option<PacketModel> {
    match send {
        Some(packet) => Some(packet@),
        None => None,
    }
}

/// One less, and zero for zero.
pub open spec fn less_one(n: u32) -> u32 {
    if n == 0 {
        0
    } else {
        (n - 1) as u32
    }
}

// ---------------------------------------------------------------------------
// The formulas

/// The speed after a step in the direction of the walk, shorter in the air.
pub open spec fn stride_terms(c: Client) -> Terms {
    let step = dlit(
        if c.body.on_ground {
            GROUND_ACCELERATION
        } else {
            AIR_ACCELERATION
        },
    );
    double_terms(
        dsum(dlit(c.body.velocity_x), dprod(dlit(c.walk.dir_x), step)),
        dsum(dlit(c.body.velocity_z), dprod(dlit(c.walk.dir_z), step)),
        dlit(0),
    )
}

/// A random angle.
pub open spec fn heading_terms() -> Terms {
    double_terms(
        DoubleTerm::Uniform { from: MINUS_HALF_TURN, to: HALF_TURN },
        dlit(0),
        dlit(0),
    )
}

/// The direction at an angle, and, for a bot that looks around, the angle in
/// degrees and a random pitch.
pub open spec fn bearing_terms(angle: Double, looking: bool) -> Terms {
    Terms {
        a: DoubleTerm::Negated(Box::new(DoubleTerm::Sine(Box::new(dlit(angle))))),
        b: DoubleTerm::Cosine(Box::new(dlit(angle))),
        c: dlit(0),
        s: if looking {
            SingleTerm::Degrees(dlit(angle))
        } else {
            slit(0)
        },
        t: if looking {
            SingleTerm::Uniform { from: MINUS_WALK_PITCH, to: WALK_PITCH }
        } else {
            slit(0)
        },
    }
}

/// A random direction to look in.
pub open spec fn gaze_terms() -> Terms {
    single_terms(
        SingleTerm::Uniform { from: MINUS_HALF_CIRCLE, to: HALF_CIRCLE },
        SingleTerm::Uniform { from: MINUS_REST_PITCH, to: REST_PITCH },
    )
}

/// One more step of the turn.
pub open spec fn ramp_terms(c: Client) -> Terms {
    single_terms(ssum(slit(c.look.progress), slit(TURN_STEP)), slit(0))
}

/// The turn's progress `p` eased to `3p^2 - 2p^3`, and the way from its start to
/// its target.
pub open spec fn ease_terms(c: Client) -> Terms {
    let p = slit(c.look.progress);
    single_terms(
        sdiff(sprod(slit(THREE), spow(p, 2)), sprod(slit(TWO), spow(p, 3))),
        srem(sdiff(slit(c.look.target_yaw), slit(c.look.start_yaw)), slit(FULL_CIRCLE)),
    )
}

/// The shorter of the two ways round.
pub open spec fn short_way(way: Single) -> SingleTerm {
    if single_lt(HALF_CIRCLE, way) {
        sdiff(slit(way), slit(FULL_CIRCLE))
    } else if single_lt(way, MINUS_HALF_CIRCLE) {
        ssum(slit(way), slit(FULL_CIRCLE))
    } else {
        slit(way)
    }
}

/// Where the bot looks, that much of the way on from where the turn started.
pub open spec fn facing_terms(c: Client, eased: Single, way: Single) -> Terms {
    single_terms(
        srem(
            ssum(slit(c.look.start_yaw), sprod(short_way(way), slit(eased))),
            slit(FULL_CIRCLE),
        ),
        ssum(
            slit(c.look.start_pitch),
            sprod(
                sdiff(slit(c.look.target_pitch), slit(c.look.start_pitch)),
                slit(eased),
            ),
        ),
    )
}

/// The vertical speed: something in the air falls, something on the ground does
/// not sink into it.
pub open spec fn fall_term(c: Client) -> DoubleTerm {
    if !c.body.on_ground {
        dprod(ddiff(dlit(c.body.velocity_y), dlit(GRAVITY)), dlit(FALL_DRAG))
    } else if double_lt(c.body.velocity_y, 0) {
        dlit(0)
    } else {
        dlit(c.body.velocity_y)
    }
}

/// The share of its sideways speed that the bot keeps.
pub open spec fn friction_term(c: Client) -> DoubleTerm {
    if c.body.on_ground {
        dprod(dlit(GROUND_SLIP), dlit(AIR_FRICTION))
    } else {
        dlit(AIR_FRICTION)
    }
}

/// The speed after friction and gravity.
pub open spec fn velocity_terms(c: Client) -> Terms {
    double_terms(
        dprod(dlit(c.body.velocity_x), friction_term(c)),
        fall_term(c),
        dprod(dlit(c.body.velocity_z), friction_term(c)),
    )
}

/// The place that the speed leads to.
pub open spec fn position_terms(c: Client) -> Terms {
    double_terms(
        dsum(dlit(c.body.x), dlit(c.body.velocity_x)),
        dsum(dlit(c.body.y), dlit(c.body.velocity_y)),
        dsum(dlit(c.body.z), dlit(c.body.velocity_z)),
    )
}

/// How far the bot is from where the server was told it is.
pub open spec fn drift_terms(c: Client) -> Terms {
    Terms {
        a: ddiff(dlit(c.body.x), dlit(c.last_sent.x)),
        b: ddiff(dlit(c.body.y), dlit(c.last_sent.y)),
        c: ddiff(dlit(c.body.z), dlit(c.last_sent.z)),
        s: sdiff(slit(c.look.yaw), slit(c.last_sent.yaw)),
        t: sdiff(slit(c.look.pitch), slit(c.last_sent.pitch)),
    }
}

// ---------------------------------------------------------------------------
// The stages, from the last to the first

/// The end of a tick: how far has the bot gone?
pub open spec fn sync_stage(c: Client) -> (Client, TickStep) {
    (c, TickStep::Evaluate { round: Round::Drift, terms: drift_terms(c) })
}

/// Falling and slowing down.
pub open spec fn physics_stage(c: Client, args: Args) -> (Client, TickStep) {
    if args.enable_physics {
        (c, TickStep::Evaluate { round: Round::Velocity, terms: velocity_terms(c) })
    } else {
        sync_stage(c)
    }
}

/// Looking around: a turn goes on until it is done.  Then the bot waits, and a
/// bot that is not walking begins another turn.
pub open spec fn rotation_stage(c: Client, args: Args) -> (Client, TickStep) {
    if !args.enable_rotation {
        physics_stage(c, args)
    } else if !single_le(SINGLE_ONE, c.look.progress) {
        (c, TickStep::Evaluate { round: Round::Ramp, terms: ramp_terms(c) })
    } else if c.look.cooldown > 0 {
        physics_stage(
            Client { look: Look { cooldown: less_one(c.look.cooldown), ..c.look }, ..c },
            args,
        )
    } else if c.walk.is_walking {
        physics_stage(c, args)
    } else {
        (c, TickStep::Evaluate { round: Round::Gaze, terms: gaze_terms() })
    }
}

/// The client a tick closer to its next jump.
pub open spec fn jump_awaited(c: Client) -> Client {
    Client { walk: Walk { jump_cooldown: less_one(c.walk.jump_cooldown), ..c.walk }, ..c }
}

/// The client with one tick of its walk used up.
pub open spec fn walk_shortened(c: Client) -> Client {
    Client {
        walk: Walk {
            move_ticks: vstd::wrapping::u32_specs::wrapping_sub(c.walk.move_ticks, 1),
            ..c.walk
        },
        ..c
    }
}

/// Walking about: a walk lasts for some ticks, then the bot rests for some.
pub open spec fn movement_stage(c: Client, args: Args) -> (Client, TickStep) {
    if !args.enable_movement {
        rotation_stage(c, args)
    } else if c.walk.is_walking {
        (
            walk_shortened(c),
            TickStep::Evaluate {
                round: Round::Stride { last: c.walk.move_ticks <= 1 },
                terms: stride_terms(c),
            },
        )
    } else if c.walk.move_cooldown == 0 {
        (c, TickStep::Evaluate { round: Round::Heading, terms: heading_terms() })
    } else {
        rotation_stage(
            jump_awaited(
                Client {
                    walk: Walk { move_cooldown: less_one(c.walk.move_cooldown), ..c.walk },
                    ..c
                },
            ),
            args,
        )
    }
}

/// Swinging an arm now and then.
pub open spec fn swing_stage(c: Client, args: Args) -> (Client, TickStep) {
    if !args.enable_swing {
        movement_stage(c, args)
    } else if c.swing_cooldown == 0 {
        (c, TickStep::Chance { gamble: Gamble::Swing, probability: SWING_CHANCE })
    } else {
        movement_stage(Client { swing_cooldown: less_one(c.swing_cooldown), ..c }, args)
    }
}

/// Chatting: a message goes out when the ticks before it are over.
pub open spec fn chat_stage(c: Client, args: Args) -> (Client, TickStep) {
    if args.spam_message is None {
        swing_stage(c, args)
    } else if c.message_spam_cooldown == 0 {
        (c, TickStep::Clock)
    } else {
        swing_stage(Client { message_spam_cooldown: less_one(c.message_spam_cooldown), ..c }, args)
    }
}

/// Whether a client does anything on its own: only when it takes part in the
/// game, has been placed in the world and is alive.
pub open spec fn is_active(c: Client) -> bool {
    c.connection_state == ConnectionState::Play && c.is_loaded && !c.is_dead
}

/// The beginning of a tick.
pub open spec fn tick_begun(c: Client, args: Args) -> (Client, TickStep) {
    if is_active(c) {
        chat_stage(c, args)
    } else {
        (c, TickStep::Done)
    }
}

/// A stage that sends nothing.
pub open spec fn quiet(stage: (Client, TickStep)) -> TickModel {
    TickModel { client: stage.0, send: None, step: stage.1 }
}

/// A stage that is entered after sending something.
pub open spec fn after_sending(packet: PacketModel, stage: (Client, TickStep)) -> TickModel {
    TickModel { client: stage.0, send: Some(packet), step: stage.1 }
}

// ---------------------------------------------------------------------------
// The answers

/// The tick once the time is known: the message goes out, and `delay` ticks
/// pass until the next.
pub open spec fn clock_told(c: Client, args: Args, millis: u128, delay: u32, salt: i64) -> TickModel
    recommends
        args.spam_message is Some,
{
    after_sending(
        chat_packet(c, args.spam_message.unwrap()@, millis, salt),
        swing_stage(counted(Client { message_spam_cooldown: delay, ..c }), args),
    )
}

/// The client after a tick of walking.  The last one ends the walk.
pub open spec fn walk_finished(c: Client, last: bool, rest: u32) -> Client {
    if last {
        Client { walk: Walk { is_walking: false, move_cooldown: rest, ..c.walk }, ..c }
    } else {
        c
    }
}

/// The client leaving the ground.
pub open spec fn jumped(c: Client, cooldown: u32) -> Client {
    Client {
        body: Body { velocity_y: JUMP_SPEED, on_ground: false, ..c.body },
        walk: Walk { jump_cooldown: cooldown, ..c.walk },
        ..c
    }
}

/// The tick once luck has decided.  `cooldown` is how long until luck is tried
/// again, `rest` how long the bot rests after its walk.
pub open spec fn chance_told(
    c: Client,
    args: Args,
    at: Gamble,
    hit: bool,
    cooldown: u32,
    rest: u32,
) -> TickModel {
    match at {
        Gamble::Swing => if hit {
            after_sending(
                Packet::SwingArm { hand: 0 },
                movement_stage(Client { swing_cooldown: cooldown, ..c }, args),
            )
        } else {
            quiet(movement_stage(c, args))
        },
        Gamble::Jump { last } => quiet(
            rotation_stage(
                walk_finished(
                    if hit {
                        jumped(c, cooldown)
                    } else {
                        c
                    },
                    last,
                    rest,
                ),
                args,
            ),
        ),
    }
}

/// The client with its new sideways speed.
pub open spec fn strode(c: Client, v: Values) -> Client {
    Client { body: Body { velocity_x: v.a, velocity_z: v.b, ..c.body }, ..c }
}

/// The tick once the speed after a step is known: a bot that may jump tries its
/// luck.
pub open spec fn stride_told(c: Client, args: Args, last: bool, rest: u32) -> (Client, TickStep) {
    if args.enable_jumping && c.walk.jump_cooldown == 0 && c.body.on_ground {
        (c, TickStep::Chance { gamble: Gamble::Jump { last }, probability: JUMP_CHANCE })
    } else {
        rotation_stage(
            walk_finished(
                if args.enable_jumping {
                    jump_awaited(c)
                } else {
                    c
                },
                last,
                rest,
            ),
            args,
        )
    }
}

/// A turn beginning from where the bot looks.
pub open spec fn turn_begun(l: Look, yaw: Single, pitch: Single) -> Look {
    Look {
        start_yaw: l.yaw,
        start_pitch: l.pitch,
        target_yaw: yaw,
        target_pitch: pitch,
        progress: 0,
        ..l
    }
}

/// The client beginning a walk of the given number of ticks, towards which a
/// bot that looks around turns.
pub open spec fn walk_begun(c: Client, looking: bool, v: Values, ticks: u32) -> Client {
    Client {
        walk: Walk { is_walking: true, move_ticks: ticks, dir_x: v.a, dir_z: v.b, ..c.walk },
        look: if looking {
            turn_begun(c.look, v.s, v.t)
        } else {
            c.look
        },
        ..c
    }
}

/// The speed with what is too slight taken for none.
pub open spec fn settled(c: Client, v: Values) -> Client {
    Client {
        body: Body {
            velocity_x: if double_lt(double_magnitude(v.a) as u64, SLIGHT) {
                0
            } else {
                v.a
            },
            velocity_y: if c.body.on_ground && double_lt(double_magnitude(v.b) as u64, SLIGHT) {
                0
            } else {
                v.b
            },
            velocity_z: if double_lt(double_magnitude(v.c) as u64, SLIGHT) {
                0
            } else {
                v.c
            },
            ..c.body
        },
        ..c
    }
}

/// The client in its new place.  The ground stops it.
pub open spec fn moved(c: Client, v: Values) -> Client {
    let landed = double_le(v.b, c.body.ground_y);
    Client {
        body: Body {
            x: v.a,
            y: if landed {
                c.body.ground_y
            } else {
                v.b
            },
            z: v.c,
            velocity_y: if landed {
                0
            } else {
                c.body.velocity_y
            },
            on_ground: landed,
            ..c.body
        },
        ..c
    }
}

/// Whether any of three distances counts as gone.
pub open spec fn has_moved(v: Values) -> bool {
    ||| double_lt(SLIGHT, double_magnitude(v.a) as u64)
    ||| double_lt(SLIGHT, double_magnitude(v.b) as u64)
    ||| double_lt(SLIGHT, double_magnitude(v.c) as u64)
}

/// Whether either of two angles counts as turned.
pub open spec fn has_turned(v: Values) -> bool {
    ||| single_lt(SLIGHT_TURN, single_magnitude(v.s) as u32)
    ||| single_lt(SLIGHT_TURN, single_magnitude(v.t) as u32)
}

/// The byte that says whether the bot is on the ground.
pub open spec fn collision_flag(c: Client, flag_on_ground: u8) -> u8 {
    if c.body.on_ground {
        flag_on_ground
    } else {
        0
    }
}

/// What the server is told of the bot's whereabouts: what has changed, or, when
/// nothing has for long enough, that the bot is still there.
pub open spec fn sync_packet(c: Client, flag_on_ground: u8, v: Values) -> Option<PacketModel> {
    let collision = collision_flag(c, flag_on_ground);
    if has_moved(v) && has_turned(v) {
        Some(
            Packet::PlayerPositionRotation {
                x: c.body.x,
                y: c.body.y,
                z: c.body.z,
                yaw: c.look.yaw,
                pitch: c.look.pitch,
                collision,
            },
        )
    } else if has_moved(v) {
        Some(Packet::PlayerPosition { x: c.body.x, y: c.body.y, z: c.body.z, collision })
    } else if has_turned(v) {
        Some(
            Packet::PlayerRotation {
                yaw: c.look.yaw,
                pitch: c.look.pitch,
                ground: c.body.on_ground,
            },
        )
    } else if c.body.on_ground != c.last_sent.on_ground || c.last_sent.ticks >= SYNC_TICKS {
        Some(Packet::SetPlayerGround { on_ground: c.body.on_ground })
    } else {
        None
    }
}

/// The client once the server has been told, or has not been.
pub open spec fn synced(c: Client, told: bool) -> Client {
    Client {
        last_sent: LastSent {
            x: c.body.x,
            y: c.body.y,
            z: c.body.z,
            yaw: c.look.yaw,
            pitch: c.look.pitch,
            on_ground: c.body.on_ground,
            ticks: if told {
                0
            } else {
                vstd::wrapping::u32_specs::wrapping_add(c.last_sent.ticks, 1)
            },
        },
        ..c
    }
}

/// The tick once the values of a round are known.  `count` is the number of
/// ticks that a walk lasts, that a bot rests after one, or that it waits after
/// a turn, whichever the round begins.
pub open spec fn values_told(
    c: Client,
    args: Args,
    flag_on_ground: u8,
    at: Round,
    v: Values,
    count: u32,
) -> TickModel {
    match at {
        Round::Stride { last } => quiet(stride_told(strode(c, v), args, last, count)),
        Round::Heading => quiet(
            (
                c,
                TickStep::Evaluate {
                    round: Round::Bearing,
                    terms: bearing_terms(v.a, args.enable_rotation),
                },
            ),
        ),
        Round::Bearing => quiet(
            rotation_stage(jump_awaited(walk_begun(c, args.enable_rotation, v, count)), args),
        ),
        Round::Gaze => quiet(
            physics_stage(
                Client { look: Look { cooldown: count, ..turn_begun(c.look, v.s, v.t) }, ..c },
                args,
            ),
        ),
        Round::Ramp => {
            let turned = Client { look: Look { progress: single_capped(v.s), ..c.look }, ..c };
            quiet((turned, TickStep::Evaluate { round: Round::Ease, terms: ease_terms(turned) }))
        },
        Round::Ease => quiet(
            (c, TickStep::Evaluate { round: Round::Facing, terms: facing_terms(c, v.s, v.t) }),
        ),
        Round::Facing => quiet(
            physics_stage(
                Client { look: Look { yaw: v.s, pitch: single_clipped(v.t), ..c.look }, ..c },
                args,
            ),
        ),
        Round::Velocity => quiet(
            (
                settled(c, v),
                TickStep::Evaluate { round: Round::Position, terms: position_terms(settled(c, v)) },
            ),
        ),
        Round::Position => quiet(sync_stage(moved(c, v))),
        Round::Drift => {
            let send = sync_packet(c, flag_on_ground, v);
            TickModel { client: synced(c, send is Some), send, step: TickStep::Done }
        },
    }
}

/// Whether the two numbers drawn after a stroke of luck are in their ranges.
pub open spec fn is_chance_draw(at: Gamble, cooldown: u32, rest: u32) -> bool {
    &&& at is Swing ==> 20 <= cooldown < 40
    &&& at is Jump ==> 15 <= cooldown < 40 && 20 <= rest < 80
}

/// Whether the number drawn after a round is in its range.
pub open spec fn is_round_draw(at: Round, count: u32) -> bool {
    &&& at is Stride ==> 20 <= count < 80
    &&& at is Bearing ==> 20 <= count < 60
    &&& at is Gaze ==> 40 <= count < 100
}

/// Whether the settings leave room for a delay between two chat messages.
pub open spec fn has_delay(args: Args) -> bool {
    args.spam_message_delay_min < args.spam_message_delay_max
}

// ---------------------------------------------------------------------------
// The code

impl Client {
    fn stride_formulas(&self) -> (r: Terms)
        ensures
            r == stride_terms(*self),
    {
        let step: Double = if self.body.on_ground {
            GROUND_ACCELERATION
        } else {
            AIR_ACCELERATION
        };
        Terms::doubles(
            DoubleTerm::Lit(self.body.velocity_x).plus(
                DoubleTerm::Lit(self.walk.dir_x).times(DoubleTerm::Lit(step)),
            ),
            DoubleTerm::Lit(self.body.velocity_z).plus(
                DoubleTerm::Lit(self.walk.dir_z).times(DoubleTerm::Lit(step)),
            ),
            DoubleTerm::Lit(0),
        )
    }

    fn bearing_formulas(angle: Double, looking: bool) -> (r: Terms)
        ensures
            r == bearing_terms(angle, looking),
    {
        let (s, t) = if looking {
            (
                SingleTerm::Degrees(DoubleTerm::Lit(angle)),
                SingleTerm::Uniform { from: MINUS_WALK_PITCH, to: WALK_PITCH },
            )
        } else {
            (SingleTerm::Lit(0), SingleTerm::Lit(0))
        };
        Terms {
            a: DoubleTerm::Negated(Box::new(DoubleTerm::Sine(Box::new(DoubleTerm::Lit(angle))))),
            b: DoubleTerm::Cosine(Box::new(DoubleTerm::Lit(angle))),
            c: DoubleTerm::Lit(0),
            s,
            t,
        }
    }

    fn ease_formulas(&self) -> (r: Terms)
        ensures
            r == ease_terms(*self),
    {
        let p: Single = self.look.progress;
        Terms::singles(
            SingleTerm::Lit(THREE).times(SingleTerm::Lit(p).power(2)).minus(
                SingleTerm::Lit(TWO).times(SingleTerm::Lit(p).power(3)),
            ),
            SingleTerm::Lit(self.look.target_yaw).minus(
                SingleTerm::Lit(self.look.start_yaw),
            ).modulo(SingleTerm::Lit(FULL_CIRCLE)),
        )
    }

    fn facing_formulas(&self, eased: Single, way: Single) -> (r: Terms)
        ensures
            r == facing_terms(*self, eased, way),
    {
        let short: SingleTerm = if lt_single(HALF_CIRCLE, way) {
            SingleTerm::Lit(way).minus(SingleTerm::Lit(FULL_CIRCLE))
        } else if lt_single(way, MINUS_HALF_CIRCLE) {
            SingleTerm::Lit(way).plus(SingleTerm::Lit(FULL_CIRCLE))
        } else {
            SingleTerm::Lit(way)
        };
        Terms::singles(
            SingleTerm::Lit(self.look.start_yaw).plus(short.times(SingleTerm::Lit(eased))).modulo(
                SingleTerm::Lit(FULL_CIRCLE),
            ),
            SingleTerm::Lit(self.look.start_pitch).plus(
                SingleTerm::Lit(self.look.target_pitch).minus(
                    SingleTerm::Lit(self.look.start_pitch),
                ).times(SingleTerm::Lit(eased)),
            ),
        )
    }

    fn friction_formula(&self) -> (r: DoubleTerm)
        ensures
            r == friction_term(*self),
    {
        if self.body.on_ground {
            DoubleTerm::Lit(GROUND_SLIP).times(DoubleTerm::Lit(AIR_FRICTION))
        } else {
            DoubleTerm::Lit(AIR_FRICTION)
        }
    }

    fn velocity_formulas(&self) -> (r: Terms)
        ensures
            r == velocity_terms(*self),
    {
        let fall: DoubleTerm = if !self.body.on_ground {
            DoubleTerm::Lit(self.body.velocity_y).minus(DoubleTerm::Lit(GRAVITY)).times(
                DoubleTerm::Lit(FALL_DRAG),
            )
        } else if lt_double(self.body.velocity_y, 0) {
            DoubleTerm::Lit(0)
        } else {
            DoubleTerm::Lit(self.body.velocity_y)
        };
        Terms::doubles(
            DoubleTerm::Lit(self.body.velocity_x).times(self.friction_formula()),
            fall,
            DoubleTerm::Lit(self.body.velocity_z).times(self.friction_formula()),
        )
    }

    fn position_formulas(&self) -> (r: Terms)
        ensures
            r == position_terms(*self),
    {
        Terms::doubles(
            DoubleTerm::Lit(self.body.x).plus(DoubleTerm::Lit(self.body.velocity_x)),
            DoubleTerm::Lit(self.body.y).plus(DoubleTerm::Lit(self.body.velocity_y)),
            DoubleTerm::Lit(self.body.z).plus(DoubleTerm::Lit(self.body.velocity_z)),
        )
    }

    /// Enters the last stage: asks how far the bot has gone.
    fn enter_sync(&self) -> (r: TickStep)
        ensures
            (*self, r) == sync_stage(*self),
    {
        TickStep::Evaluate {
            round: Round::Drift,
            terms: Terms {
                a: DoubleTerm::Lit(self.body.x).minus(DoubleTerm::Lit(self.last_sent.x)),
                b: DoubleTerm::Lit(self.body.y).minus(DoubleTerm::Lit(self.last_sent.y)),
                c: DoubleTerm::Lit(self.body.z).minus(DoubleTerm::Lit(self.last_sent.z)),
                s: SingleTerm::Lit(self.look.yaw).minus(SingleTerm::Lit(self.last_sent.yaw)),
                t: SingleTerm::Lit(self.look.pitch).minus(SingleTerm::Lit(self.last_sent.pitch)),
            },
        }
    }

    /// Enters the stage of falling and slowing down.
    pub fn tick_physics(&self, args: &Args) -> (r: TickStep)
        ensures
            (*self, r) == physics_stage(*self, *args),
    {
        if args.enable_physics {
            TickStep::Evaluate { round: Round::Velocity, terms: self.velocity_formulas() }
        } else {
            self.enter_sync()
        }
    }

    /// Enters the stage of looking around.
    pub fn tick_rotation(&mut self, args: &Args) -> (r: TickStep)
        ensures
            (*final(self), r) == rotation_stage(*old(self), *args),
    {
        if !args.enable_rotation {
            return self.tick_physics(args);
        }
        if !le_single(SINGLE_ONE, self.look.progress) {
            return TickStep::Evaluate {
                round: Round::Ramp,
                terms: Terms::singles(
                    SingleTerm::Lit(self.look.progress).plus(SingleTerm::Lit(TURN_STEP)),
                    SingleTerm::Lit(0),
                ),
            };
        }
        if self.look.cooldown > 0 {
            self.look.cooldown = self.look.cooldown - 1;
        } else if !self.walk.is_walking {
            return TickStep::Evaluate {
                round: Round::Gaze,
                terms: Terms::singles(
                    SingleTerm::Uniform { from: MINUS_HALF_CIRCLE, to: HALF_CIRCLE },
                    SingleTerm::Uniform { from: MINUS_REST_PITCH, to: REST_PITCH },
                ),
            };
        }
        self.tick_physics(args)
    }

    /// Brings the next jump a tick closer.
    fn await_jump(&mut self)
        ensures
            *final(self) == jump_awaited(*old(self)),
    {
        if self.walk.jump_cooldown > 0 {
            self.walk.jump_cooldown = self.walk.jump_cooldown - 1;
        }
    }

    /// Ends a tick of walking.
    fn finish_walk(&mut self, last: bool, rest: u32)
        ensures
            *final(self) == walk_finished(*old(self), last, rest),
    {
        if last {
            self.walk.is_walking = false;
            self.walk.move_cooldown = rest;
        }
    }

    /// Begins a turn from where the bot looks.
    fn begin_turn(&mut self, yaw: Single, pitch: Single)
        ensures
            *final(self) == (Client { look: turn_begun(old(self).look, yaw, pitch), ..*old(self) }),
    {
        self.look.start_yaw = self.look.yaw;
        self.look.start_pitch = self.look.pitch;
        self.look.target_yaw = yaw;
        self.look.target_pitch = pitch;
        self.look.progress = 0;
    }

    /// Enters the stage of walking about.
    pub fn tick_movement_ai(&mut self, args: &Args) -> (r: TickStep)
        ensures
            (*final(self), r) == movement_stage(*old(self), *args),
    {
        if !args.enable_movement {
            return self.tick_rotation(args);
        }
        if self.walk.is_walking {
            let terms: Terms = self.stride_formulas();
            let ticks: u32 = self.walk.move_ticks;
            self.walk.move_ticks = ticks.wrapping_sub(1);
            return TickStep::Evaluate { round: Round::Stride { last: ticks <= 1 }, terms };
        }
        if self.walk.move_cooldown == 0 {
            return TickStep::Evaluate {
                round: Round::Heading,
                terms: Terms::doubles(
                    DoubleTerm::Uniform { from: MINUS_HALF_TURN, to: HALF_TURN },
                    DoubleTerm::Lit(0),
                    DoubleTerm::Lit(0),
                ),
            };
        }
        self.walk.move_cooldown = self.walk.move_cooldown - 1;
        self.await_jump();
        self.tick_rotation(args)
    }

    /// Enters the stage of swinging an arm.
    pub fn tick_swing(&mut self, args: &Args) -> (r: TickStep)
        ensures
            (*final(self), r) == swing_stage(*old(self), *args),
    {
        if args.enable_swing {
            if self.swing_cooldown == 0 {
                return TickStep::Chance { gamble: Gamble::Swing, probability: SWING_CHANCE };
            }
            self.swing_cooldown = self.swing_cooldown - 1;
        }
        self.tick_movement_ai(args)
    }

    /// Begins a tick.  A client that does not take part in the game, has not
    /// been placed or is dead does nothing.
    pub fn tick(&mut self, args: &Args) -> (r: TickStep)
        ensures
            (*final(self), r) == tick_begun(*old(self), *args),
            !is_active(*old(self)) ==> *final(self) == *old(self) && r is Done,
    {
        if self.connection_state != ConnectionState::Play || !self.is_loaded || self.is_dead {
            return TickStep::Done;
        }
        if args.spam_message.is_some() {
            if self.message_spam_cooldown == 0 {
                return TickStep::Clock;
            }
            self.message_spam_cooldown = self.message_spam_cooldown - 1;
        }
        self.tick_swing(args)
    }

    /// Carries a tick on with the time, the delay until the next message and
    /// the salt of this one.
    pub fn tick_clock_with(&mut self, args: &Args, millis: u128, delay: u32, salt: i64) -> (r: Ticked)
        requires
            args.spam_message is Some,
        ensures
            (TickModel { client: *final(self), send: sent(r.send), step: r.step }) == clock_told(
                *old(self),
                *args,
                millis,
                delay,
                salt,
            ),
    {
        self.message_spam_cooldown = delay;
        let message: &String = args.spam_message.as_ref().unwrap();
        let packet: Serverbound = self.chat_message(message.as_str(), millis, salt);
        let step: TickStep = self.tick_swing(args);
        Ticked { send: Some(packet), step }
    }

    /// Carries a tick on with the time.  The delay until the next message and
    /// the salt of this one are random.
    pub fn tick_clock(&mut self, args: &Args, millis: u128) -> (r: Ticked)
        requires
            args.spam_message is Some,
            has_delay(*args),
        ensures
            exists|delay: u32, salt: i64|
                args.spam_message_delay_min <= delay < args.spam_message_delay_max && (TickModel {
                    client: *final(self),
                    send: sent(r.send),
                    step: r.step,
                }) == #[trigger] clock_told(*old(self), *args, millis, delay, salt),
    {
        let delay: u32 = draw(args.spam_message_delay_min, args.spam_message_delay_max);
        let salt: i64 = draw_salt();
        self.tick_clock_with(args, millis, delay, salt)
    }

    /// Carries a tick on with what luck has decided, and with the cooldown and
    /// the rest that follow.
    pub fn tick_chance_with(
        &mut self,
        args: &Args,
        at: Gamble,
        hit: bool,
        cooldown: u32,
        rest: u32,
    ) -> (r: Ticked)
        ensures
            (TickModel { client: *final(self), send: sent(r.send), step: r.step }) == chance_told(
                *old(self),
                *args,
                at,
                hit,
                cooldown,
                rest,
            ),
    {
        match at {
            Gamble::Swing => {
                let send: Option<Serverbound> = if hit {
                    self.swing_cooldown = cooldown;
                    Some(Packet::SwingArm { hand: 0 })
                } else {
                    None
                };
                let step: TickStep = self.tick_movement_ai(args);
                Ticked { send, step }
            },
            Gamble::Jump { last } => {
                if hit {
                    self.body.velocity_y = JUMP_SPEED;
                    self.body.on_ground = false;
                    self.walk.jump_cooldown = cooldown;
                }
                self.finish_walk(last, rest);
                let step: TickStep = self.tick_rotation(args);
                Ticked { send: None, step }
            },
        }
    }

    /// Carries a tick on with what luck has decided.  The cooldown and the rest
    /// that follow are random.
    pub fn tick_chance(&mut self, args: &Args, at: Gamble, hit: bool) -> (r: Ticked)
        ensures
            exists|cooldown: u32, rest: u32|
                is_chance_draw(at, cooldown, rest) && (TickModel {
                    client: *final(self),
                    send: sent(r.send),
                    step: r.step,
                }) == #[trigger] chance_told(*old(self), *args, at, hit, cooldown, rest),
    {
        let (cooldown, rest): (u32, u32) = match at {
            Gamble::Swing => (draw(20, 40), 0),
            Gamble::Jump { .. } => (draw(15, 40), draw(20, 80)),
        };
        self.tick_chance_with(args, at, hit, cooldown, rest)
    }

    /// Ends a tick: tells the server what has changed.
    pub fn sync_movement(&mut self, protocol: &Protocol, v: Values) -> (r: Option<Serverbound>)
        ensures
            sent(r) == sync_packet(*old(self), protocol.flag_on_ground, v),
            *final(self) == synced(*old(self), r is Some),
    {
        let moved: bool = lt_double(SLIGHT, abs_double(v.a)) || lt_double(SLIGHT, abs_double(v.b))
            || lt_double(SLIGHT, abs_double(v.c));
        let turned: bool = lt_single(SLIGHT_TURN, abs_single(v.s)) || lt_single(
            SLIGHT_TURN,
            abs_single(v.t),
        );
        let on_ground: bool = self.body.on_ground;
        let collision: u8 = if on_ground {
            protocol.flag_on_ground
        } else {
            0
        };
        let (x, y, z): (Double, Double, Double) = (self.body.x, self.body.y, self.body.z);
        let (yaw, pitch): (Single, Single) = (self.look.yaw, self.look.pitch);
        let quiet_ticks: u32 = self.last_sent.ticks;
        let send: Option<Serverbound> = if moved && turned {
            Some(Packet::PlayerPositionRotation { x, y, z, yaw, pitch, collision })
        } else if moved {
            Some(Packet::PlayerPosition { x, y, z, collision })
        } else if turned {
            Some(Packet::PlayerRotation { yaw, pitch, ground: on_ground })
        } else if on_ground != self.last_sent.on_ground || quiet_ticks >= SYNC_TICKS {
            Some(Packet::SetPlayerGround { on_ground })
        } else {
            None
        };
        let ticks: u32 = if send.is_some() {
            0
        } else {
            quiet_ticks.wrapping_add(1)
        };
        self.last_sent = LastSent { x, y, z, yaw, pitch, on_ground, ticks };
        send
    }

    /// Carries a tick on with the values of a round, and with the number of
    /// ticks that what the round begins will last.
    pub fn tick_values_with(
        &mut self,
        args: &Args,
        protocol: &Protocol,
        at: Round,
        v: Values,
        count: u32,
    ) -> (r: Ticked)
        ensures
            (TickModel { client: *final(self), send: sent(r.send), step: r.step }) == values_told(
                *old(self),
                *args,
                protocol.flag_on_ground,
                at,
                v,
                count,
            ),
    {
        let step: TickStep = match at {
            Round::Stride { last } => {
                self.body.velocity_x = v.a;
                self.body.velocity_z = v.b;
                if args.enable_jumping {
                    if self.walk.jump_cooldown == 0 && self.body.on_ground {
                        return Ticked {
                            send: None,
                            step: TickStep::Chance {
                                gamble: Gamble::Jump { last },
                                probability: JUMP_CHANCE,
                            },
                        };
                    }
                    self.await_jump();
                }
                self.finish_walk(last, count);
                self.tick_rotation(args)
            },
            Round::Heading => TickStep::Evaluate {
                round: Round::Bearing,
                terms: Self::bearing_formulas(v.a, args.enable_rotation),
            },
            Round::Bearing => {
                self.walk.dir_x = v.a;
                self.walk.dir_z = v.b;
                self.walk.move_ticks = count;
                self.walk.is_walking = true;
                if args.enable_rotation {
                    self.begin_turn(v.s, v.t);
                }
                self.await_jump();
                self.tick_rotation(args)
            },
            Round::Gaze => {
                self.begin_turn(v.s, v.t);
                self.look.cooldown = count;
                self.tick_physics(args)
            },
            Round::Ramp => {
                self.look.progress = cap_single(v.s);
                TickStep::Evaluate { round: Round::Ease, terms: self.ease_formulas() }
            },
            Round::Ease => TickStep::Evaluate {
                round: Round::Facing,
                terms: self.facing_formulas(v.s, v.t),
            },
            Round::Facing => {
                self.look.yaw = v.s;
                self.look.pitch = clip_single(v.t);
                self.tick_physics(args)
            },
            Round::Velocity => {
                self.body.velocity_x = if lt_double(abs_double(v.a), SLIGHT) {
                    0
                } else {
                    v.a
                };
                self.body.velocity_y = if self.body.on_ground && lt_double(
                    abs_double(v.b),
                    SLIGHT,
                ) {
                    0
                } else {
                    v.b
                };
                self.body.velocity_z = if lt_double(abs_double(v.c), SLIGHT) {
                    0
                } else {
                    v.c
                };
                TickStep::Evaluate { round: Round::Position, terms: self.position_formulas() }
            },
            Round::Position => {
                let landed: bool = le_double(v.b, self.body.ground_y);
                self.body.x = v.a;
                self.body.z = v.c;
                self.body.on_ground = landed;
                if landed {
                    self.body.y = self.body.ground_y;
                    self.body.velocity_y = 0;
                } else {
                    self.body.y = v.b;
                }
                self.enter_sync()
            },
            Round::Drift => {
                let send: Option<Serverbound> = self.sync_movement(protocol, v);
                return Ticked { send, step: TickStep::Done };
            },
        };
        Ticked { send: None, step }
    }

    /// Carries a tick on with the values of a round.  How long what the round
    /// begins will last is random.
    pub fn tick_values(&mut self, args: &Args, protocol: &Protocol, at: Round, v: Values) -> (r:
        Ticked)
        ensures
            exists|count: u32|
                is_round_draw(at, count) && (TickModel {
                    client: *final(self),
                    send: sent(r.send),
                    step: r.step,
                }) == #[trigger] values_told(
                    *old(self),
                    *args,
                    protocol.flag_on_ground,
                    at,
                    v,
                    count,
                ),
    {
        let count: u32 = match at {
            Round::Stride { .. } => draw(20, 80),
            Round::Bearing => draw(20, 60),
            Round::Gaze => draw(40, 100),
            _ => 0,
        };
        self.tick_values_with(args, protocol, at, v, count)
    }
}

} // verus!
