//! What the rounds of a tick amount to, whatever arithmetic they are carried
//! out with.

use crate::args::Args;
use crate::client::{Body, Client, Look, Walk};
use crate::float::{
    double_is_nan, double_le, double_lt, double_magnitude, double_same, single_capped,
    single_clipped, single_is_nan, single_le, single_lt, single_magnitude, Double, Single,
    DOUBLE_SIGN, SINGLE_MINUS_NINETY, SINGLE_NINETY, SINGLE_ONE,
};
use crate::packet::PacketModel;
use crate::receive::{informed, Decoded};
use crate::term::{double_value, round_values, single_value, Arithmetic, Values};
use crate::tick::{
    has_moved, has_turned, jump_awaited, movement_stage, physics_stage, rotation_stage, sync_packet,
    sync_stage, synced, values_told, TickModel, TickStep, AIR_ACCELERATION, AIR_FRICTION, FALL_DRAG,
    FULL_CIRCLE, GRAVITY, GROUND_ACCELERATION, GROUND_SLIP, HALF_CIRCLE, HALF_TURN,
    MINUS_HALF_CIRCLE, MINUS_HALF_TURN, MINUS_WALK_PITCH, SLIGHT, SLIGHT_TURN, SYNC_TICKS, THREE,
    TURN_STEP, TWO, WALK_PITCH,
};
use vstd::prelude::*;

verus! {

/// A tick carried on with the values that an arithmetic gives the formulas it
/// asks for.  A tick that asks for something else stays as it is.
pub open spec fn carried_on(m: Arithmetic, t: TickModel, args: Args, flag: u8, count: u32) -> TickModel {
    match t.step {
        TickStep::Evaluate { round, terms } => values_told(
            t.client,
            args,
            flag,
            round,
            round_values(m, terms),
            count,
        ),
        _ => t,
    }
}

/// A stage in which nothing has been sent.
pub open spec fn begun(stage: (Client, TickStep)) -> TickModel {
    TickModel { client: stage.0, send: None, step: stage.1 }
}

/// A speed, or none where it is too slight.
pub open spec fn noticeable(x: Double) -> Double {
    if double_lt(double_magnitude(x) as u64, SLIGHT) {
        0
    } else {
        x
    }
}

/// A tick's worth of falling and slowing down.
pub open spec fn physics_step(m: Arithmetic, b: Body) -> Body {
    let friction = if b.on_ground {
        (m.product)(GROUND_SLIP, AIR_FRICTION)
    } else {
        AIR_FRICTION
    };
    let fall = if !b.on_ground {
        (m.product)((m.difference)(b.velocity_y, GRAVITY), FALL_DRAG)
    } else if double_lt(b.velocity_y, 0) {
        0
    } else {
        b.velocity_y
    };
    let velocity_x = noticeable((m.product)(b.velocity_x, friction));
    let velocity_y = if b.on_ground {
        noticeable(fall)
    } else {
        fall
    };
    let velocity_z = noticeable((m.product)(b.velocity_z, friction));
    let y = (m.sum)(b.y, velocity_y);
    let on_ground = double_le(y, b.ground_y);
    Body {
        x: (m.sum)(b.x, velocity_x),
        y: if on_ground {
            b.ground_y
        } else {
            y
        },
        z: (m.sum)(b.z, velocity_z),
        ground_y: b.ground_y,
        on_ground,
        velocity_x,
        velocity_y: if on_ground {
            0
        } else {
            velocity_y
        },
        velocity_z,
    }
}

/// The two rounds of the physics stage together do a tick's worth of falling
/// and slowing down, touch nothing else, and lead to the last stage.
pub proof fn law_physics_rounds(m: Arithmetic, c: Client, args: Args, flag: u8, count: u32)
    requires
        args.enable_physics,
    ensures
        ({
            let first = carried_on(m, begun(physics_stage(c, args)), args, flag, count);
            let second = carried_on(m, first, args, flag, count);
            second == begun(sync_stage(Client { body: physics_step(m, c.body), ..c }))
        }),
{
    reveal_with_fuel(double_value, 4);
}

/// The ground part of a tick's worth of falling, as far as the heights are
/// numbers: the bot ends up on the ground or above it, is on the ground exactly
/// when it is at its height, and has no vertical speed there.
pub proof fn law_physics_ground(m: Arithmetic, b: Body)
    requires
        !double_is_nan(b.ground_y),
        !double_is_nan(physics_step(m, b).y),
    ensures
        ({
            let after = physics_step(m, b);
            &&& after.ground_y == b.ground_y
            &&& double_le(b.ground_y, after.y)
            &&& after.on_ground <==> double_same(after.y, b.ground_y)
            &&& after.on_ground ==> after.y == b.ground_y && after.velocity_y == 0
            &&& !after.on_ground ==> double_lt(b.ground_y, after.y)
        }),
{
}

/// The friction of the ground.
pub open spec fn ground_friction(m: Arithmetic) -> Double {
    (m.product)(GROUND_SLIP, AIR_FRICTION)
}

/// Whether nothing comes of nothing: adding no distance leads to the same
/// number, and friction makes no speed out of none.
pub open spec fn stands(m: Arithmetic) -> bool {
    &&& forall|x: Double, zero: Double|
        !double_is_nan(x) && double_same(zero, 0) ==> double_same(
            #[trigger] (m.sum)(x, zero),
            x,
        )
    &&& forall|zero: Double|
        double_same(zero, 0) ==> double_same(
            #[trigger] (m.product)(zero, ground_friction(m)),
            0,
        )
}

/// A bot at rest stays at rest: on the ground, at its height and without speed
/// it is after a tick where it was.
pub proof fn law_rest_is_kept(m: Arithmetic, b: Body)
    requires
        stands(m),
        b.on_ground,
        double_same(b.y, b.ground_y),
        double_same(b.velocity_x, 0),
        double_same(b.velocity_y, 0),
        double_same(b.velocity_z, 0),
        !double_is_nan(b.x),
        !double_is_nan(b.z),
    ensures
        ({
            let after = physics_step(m, b);
            &&& double_same(after.x, b.x)
            &&& double_same(after.y, b.y)
            &&& double_same(after.z, b.z)
            &&& after.ground_y == b.ground_y
            &&& after.on_ground
            &&& after.velocity_x == 0
            &&& after.velocity_y == 0
            &&& after.velocity_z == 0
        }),
{
    let zero: Double = 0;
    assert(double_same(zero, 0));
    assert(double_same((m.product)(b.velocity_x, ground_friction(m)), 0));
    assert(double_same((m.product)(b.velocity_z, ground_friction(m)), 0));
    assert(double_same((m.sum)(b.x, zero), b.x));
    assert(double_same((m.sum)(b.y, zero), b.y));
    assert(double_same((m.sum)(b.z, zero), b.z));
}

/// Whether adding no distance leads to the very same bits.  A machine does so
/// for every number but minus zero, which becomes zero.
pub open spec fn stands_exactly(m: Arithmetic) -> bool {
    forall|x: Double|
        !double_is_nan(x) && x != DOUBLE_SIGN ==> #[trigger] (m.sum)(x, 0) == x
}

/// A bot at rest is left exactly as it was, bit by bit.
pub proof fn law_rest_is_exact(m: Arithmetic, b: Body)
    requires
        stands(m),
        stands_exactly(m),
        b.on_ground,
        b.y == b.ground_y,
        b.velocity_x == 0,
        b.velocity_y == 0,
        b.velocity_z == 0,
        !double_is_nan(b.x) && b.x != DOUBLE_SIGN,
        !double_is_nan(b.y),
        !double_is_nan(b.z) && b.z != DOUBLE_SIGN,
    ensures
        physics_step(m, b) == b,
{
    law_rest_is_kept(m, b);
    assert((m.sum)(b.x, 0) == b.x);
    assert((m.sum)(b.z, 0) == b.z);
    assert(double_same((m.product)(b.velocity_x, ground_friction(m)), 0));
    assert(double_same((m.product)(b.velocity_z, ground_friction(m)), 0));
}

/// The shorter way round to a turn's target.
pub open spec fn way_round(m: Arithmetic, l: Look) -> Single {
    let way = (m.single_remainder)((m.single_difference)(l.target_yaw, l.start_yaw), FULL_CIRCLE);
    if single_lt(HALF_CIRCLE, way) {
        (m.single_difference)(way, FULL_CIRCLE)
    } else if single_lt(way, MINUS_HALF_CIRCLE) {
        (m.single_sum)(way, FULL_CIRCLE)
    } else {
        way
    }
}

/// A turn's progress `p` eased to `3p^2 - 2p^3`.
pub open spec fn eased(m: Arithmetic, p: Single) -> Single {
    (m.single_difference)(
        (m.single_product)(THREE, (m.single_power)(p, 2)),
        (m.single_product)(TWO, (m.single_power)(p, 3)),
    )
}

/// A tick's worth of turning: the way is eased in and out, and goes the shorter
/// way round.
pub open spec fn turn_step(m: Arithmetic, l: Look) -> Look {
    let progress = single_capped((m.single_sum)(l.progress, TURN_STEP));
    let share = eased(m, progress);
    let pitch = (m.single_sum)(
        l.start_pitch,
        (m.single_product)((m.single_difference)(l.target_pitch, l.start_pitch), share),
    );
    Look {
        progress,
        yaw: (m.single_remainder)(
            (m.single_sum)(l.start_yaw, (m.single_product)(way_round(m, l), share)),
            FULL_CIRCLE,
        ),
        pitch: single_clipped(pitch),
        ..l
    }
}

/// The three rounds of an unfinished turn together do a tick's worth of turning,
/// touch nothing else, and lead to the next stage.
pub proof fn law_turn_rounds(m: Arithmetic, c: Client, args: Args, flag: u8, count: u32)
    requires
        args.enable_rotation,
        !single_le(SINGLE_ONE, c.look.progress),
    ensures
        ({
            let first = carried_on(m, begun(rotation_stage(c, args)), args, flag, count);
            let second = carried_on(m, first, args, flag, count);
            let third = carried_on(m, second, args, flag, count);
            third == begun(physics_stage(Client { look: turn_step(m, c.look), ..c }, args))
        }),
{
    reveal_with_fuel(single_value, 5);
}

/// `k` steps of a turn added up.
pub open spec fn ramp(m: Arithmetic, k: nat) -> Single
    decreases k,
{
    if k == 0 {
        0
    } else {
        (m.single_sum)(ramp(m, (k - 1) as nat), TURN_STEP)
    }
}

/// A turn after `k` ticks of it.  A turn that is done goes no further.
pub open spec fn turned(m: Arithmetic, l: Look, k: nat) -> Look
    decreases k,
{
    if k == 0 {
        l
    } else {
        let before = turned(m, l, (k - 1) as nat);
        if single_le(SINGLE_ONE, before.progress) {
            before
        } else {
            turn_step(m, before)
        }
    }
}

/// A turn takes at most so many ticks.
pub const TURN_TICKS: u32 = 21;

/// Whether a step takes every unfinished turn on, and so many steps as a turn
/// takes at most finish it.
pub open spec fn ramps_up(m: Arithmetic) -> bool {
    &&& forall|p: Single|
        single_le(0, p) && single_lt(p, SINGLE_ONE) ==> single_lt(
            p,
            #[trigger] (m.single_sum)(p, TURN_STEP),
        )
    &&& single_le(SINGLE_ONE, ramp(m, TURN_TICKS as nat))
}

/// As long as a turn is not done, its progress is its steps added up.
proof fn lemma_turn_progress(m: Arithmetic, l: Look, k: nat)
    requires
        ramps_up(m),
        l.progress == 0,
    ensures
        ({
            let p = turned(m, l, k).progress;
            &&& p == SINGLE_ONE || p == ramp(m, k) && single_le(0, p) && single_lt(p, SINGLE_ONE)
        }),
    decreases k,
{
    if k > 0 {
        lemma_turn_progress(m, l, (k - 1) as nat);
        let p = turned(m, l, (k - 1) as nat).progress;
        if p != SINGLE_ONE {
            assert(single_lt(p, (m.single_sum)(p, TURN_STEP)));
        }
    }
}

/// A turn comes to its end: its progress grows with every tick until it is
/// exactly one, which it never exceeds, and that takes at most `TURN_TICKS`
/// ticks.
pub proof fn law_turn_ends(m: Arithmetic, l: Look, k: nat)
    requires
        ramps_up(m),
        l.progress == 0,
    ensures
        single_le(turned(m, l, k).progress, SINGLE_ONE),
        turned(m, l, k).progress != SINGLE_ONE ==> single_lt(
            turned(m, l, k).progress,
            turned(m, l, k + 1).progress,
        ),
        turned(m, l, k).progress == SINGLE_ONE ==> turned(m, l, k + 1) == turned(m, l, k),
        k >= TURN_TICKS ==> turned(m, l, k).progress == SINGLE_ONE,
    decreases k,
{
    lemma_turn_progress(m, l, k);
    lemma_turn_progress(m, l, k + 1);
    let p = turned(m, l, k).progress;
    if p != SINGLE_ONE {
        assert(single_lt(p, (m.single_sum)(p, TURN_STEP)));
    }
    if k > TURN_TICKS {
        law_turn_ends(m, l, (k - 1) as nat);
    }
}

/// Whether a turn that is done has come the whole way.
pub open spec fn eases_out(m: Arithmetic) -> bool {
    &&& eased(m, SINGLE_ONE) == SINGLE_ONE
    &&& forall|x: Single| !single_is_nan(x) ==> #[trigger] (m.single_product)(x, SINGLE_ONE) == x
}

/// A turn ends at its target: the tick that finishes it has the bot look the
/// whole way on from where the turn started, so at the target where the whole
/// way added to the start is the target.
pub proof fn law_turn_arrives(m: Arithmetic, l: Look)
    requires
        eases_out(m),
        turn_step(m, l).progress == SINGLE_ONE,
        !single_is_nan(way_round(m, l)),
        !single_is_nan((m.single_difference)(l.target_pitch, l.start_pitch)),
    ensures
        ({
            let after = turn_step(m, l);
            let yaw = (m.single_sum)(l.start_yaw, way_round(m, l));
            let pitch = (m.single_sum)(
                l.start_pitch,
                (m.single_difference)(l.target_pitch, l.start_pitch),
            );
            &&& after.yaw == (m.single_remainder)(yaw, FULL_CIRCLE)
            &&& after.pitch == single_clipped(pitch)
            &&& pitch == l.target_pitch && single_le(SINGLE_MINUS_NINETY, pitch) && single_le(
                pitch,
                SINGLE_NINETY,
            ) ==> after.pitch == l.target_pitch
        }),
{
}

/// Whether what is left over from whole circles is less than one.
pub open spec fn wraps(m: Arithmetic) -> bool {
    forall|x: Single|
        !single_is_nan(#[trigger] (m.single_remainder)(x, FULL_CIRCLE)) ==> single_lt(
            single_magnitude((m.single_remainder)(x, FULL_CIRCLE)) as u32,
            FULL_CIRCLE,
        )
}

/// A turning bot looks less than a whole circle away and no steeper than
/// straight up or down, as far as its angles are numbers.  Where a turn starts
/// and where it leads stay as they are.
pub proof fn law_turn_in_range(m: Arithmetic, l: Look)
    requires
        wraps(m),
    ensures
        ({
            let after = turn_step(m, l);
            &&& !single_is_nan(after.yaw) ==> single_lt(
                single_magnitude(after.yaw) as u32,
                FULL_CIRCLE,
            )
            &&& !single_is_nan(after.pitch) ==> single_le(SINGLE_MINUS_NINETY, after.pitch)
                && single_le(after.pitch, SINGLE_NINETY)
            &&& after.start_yaw == l.start_yaw
            &&& after.start_pitch == l.start_pitch
            &&& after.target_yaw == l.target_yaw
            &&& after.target_pitch == l.target_pitch
            &&& after.cooldown == l.cooldown
        }),
{
}

/// The round of a walk adds a step in the walk's direction to the speed, a
/// longer one on the ground than in the air.
pub proof fn law_stride_round(m: Arithmetic, c: Client, args: Args, flag: u8, count: u32)
    requires
        args.enable_movement,
        c.walk.is_walking,
    ensures
        ({
            let step = if c.body.on_ground {
                GROUND_ACCELERATION
            } else {
                AIR_ACCELERATION
            };
            let after = carried_on(m, begun(movement_stage(c, args)), args, flag, count).client;
            &&& after.body.velocity_x == (m.sum)(
                c.body.velocity_x,
                (m.product)(c.walk.dir_x, step),
            )
            &&& after.body.velocity_z == (m.sum)(
                c.body.velocity_z,
                (m.product)(c.walk.dir_z, step),
            )
            &&& after.body == (Body {
                velocity_x: after.body.velocity_x,
                velocity_z: after.body.velocity_z,
                ..c.body
            })
        }),
{
    reveal_with_fuel(double_value, 4);
}

/// The two rounds that begin a walk draw an angle and set out in its direction,
/// for `count` ticks; a bot that looks around turns that way.
pub proof fn law_walk_rounds(m: Arithmetic, c: Client, args: Args, flag: u8, count: u32)
    requires
        args.enable_movement,
        !c.walk.is_walking,
        c.walk.move_cooldown == 0,
    ensures
        ({
            let angle = (m.uniform)(MINUS_HALF_TURN, HALF_TURN);
            let walking = Client {
                walk: Walk {
                    is_walking: true,
                    move_ticks: count,
                    dir_x: (m.negated)((m.sine)(angle)),
                    dir_z: (m.cosine)(angle),
                    ..c.walk
                },
                look: if args.enable_rotation {
                    Look {
                        start_yaw: c.look.yaw,
                        start_pitch: c.look.pitch,
                        target_yaw: (m.degrees)(angle),
                        target_pitch: (m.single_uniform)(MINUS_WALK_PITCH, WALK_PITCH),
                        progress: 0,
                        ..c.look
                    }
                } else {
                    c.look
                },
                ..c
            };
            let first = carried_on(m, begun(movement_stage(c, args)), args, flag, count);
            let second = carried_on(m, first, args, flag, count);
            second == begun(rotation_stage(jump_awaited(walking), args))
        }),
{
    reveal_with_fuel(double_value, 4);
    reveal_with_fuel(single_value, 4);
}

/// How far a bot is from where the server was told it is.
pub open spec fn drift(m: Arithmetic, c: Client) -> Values {
    Values {
        a: (m.difference)(c.body.x, c.last_sent.x),
        b: (m.difference)(c.body.y, c.last_sent.y),
        c: (m.difference)(c.body.z, c.last_sent.z),
        s: (m.single_difference)(c.look.yaw, c.last_sent.yaw),
        t: (m.single_difference)(c.look.pitch, c.last_sent.pitch),
    }
}

/// The round of the last stage ends the tick and tells the server what the
/// differences to what it was last told call for.
pub proof fn law_sync_round(m: Arithmetic, c: Client, args: Args, flag: u8, count: u32)
    ensures
        ({
            let send = sync_packet(c, flag, drift(m, c));
            carried_on(m, begun(sync_stage(c)), args, flag, count) == (TickModel {
                client: synced(c, send is Some),
                send,
                step: TickStep::Done,
            })
        }),
{
    reveal_with_fuel(double_value, 4);
    reveal_with_fuel(single_value, 4);
}

/// Whether the difference of a number and itself is never worth mentioning.
pub open spec fn cancels(m: Arithmetic) -> bool {
    &&& forall|x: Double|
        !double_lt(SLIGHT, double_magnitude(#[trigger] (m.difference)(x, x)) as u64)
    &&& forall|x: Single|
        !single_lt(SLIGHT_TURN, single_magnitude(#[trigger] (m.single_difference)(x, x)) as u32)
}

/// A bot that is where the server was told it is has nothing to tell, except
/// once in a while that it is still there.
pub proof fn law_still_bots_are_quiet(m: Arithmetic, c: Client, flag: u8)
    requires
        cancels(m),
        c.last_sent.x == c.body.x,
        c.last_sent.y == c.body.y,
        c.last_sent.z == c.body.z,
        c.last_sent.yaw == c.look.yaw,
        c.last_sent.pitch == c.look.pitch,
        c.last_sent.on_ground == c.body.on_ground,
    ensures
        sync_packet(c, flag, drift(m, c)) == (if c.last_sent.ticks >= SYNC_TICKS {
            Some(PacketModel::SetPlayerGround { on_ground: c.body.on_ground })
        } else {
            None
        }),
{
    assert(!has_moved(drift(m, c)));
    assert(!has_turned(drift(m, c)));
}

/// Being placed is not told back as a movement of the bot's own: a tick that
/// compares right after it tells nothing, and only counts itself.
pub proof fn law_placing_is_not_echoed(
    m: Arithmetic,
    c: Client,
    value: Decoded,
    rest: u32,
    args: Args,
    flag: u8,
    count: u32,
)
    requires
        cancels(m),
        value is PlayerPosition,
        c.last_sent.ticks < SYNC_TICKS,
    ensures
        ({
            let placed = informed(c, value, rest);
            let after = carried_on(m, begun(sync_stage(placed)), args, flag, count);
            &&& after.send is None
            &&& after.step is Done
            &&& after.client == synced(placed, false)
            &&& after.client.last_sent.ticks == c.last_sent.ticks + 1
        }),
{
    let placed = informed(c, value, rest);
    law_still_bots_are_quiet(m, placed, flag);
    law_sync_round(m, placed, args, flag, count);
}

} // verus!
