//! What comes of one tick after another: how long a bot walks and rests, how
//! often it swings its arm, and when it speaks.

use crate::args::Args;
use crate::client::{counted, Client, Look, Walk};
use crate::course::{
    all_fit, answered, chatted, entered, fits, is_allowed, is_tick, law_pastimes_can_be_switched_off,
    lemma_heard, lemma_kept, lemma_sound, lemma_stages, reached, swung, tick_course, told, Answer,
    Course,
};
use crate::float::{single_clipped, Double};
use crate::laws::{law_only_the_clock_chats, lemma_stages_keep_chat};
use crate::packet::{Packet, PacketModel};
use crate::term::{Terms, Values};
use crate::tick::{
    after_sending, bearing_terms, chance_told, heading_terms, is_active, is_chance_draw,
    is_round_draw, jump_awaited, jumped, less_one, movement_stage, physics_stage, quiet,
    rotation_stage, stride_terms, strode, swing_stage, tick_begun, turn_begun, values_told,
    walk_begun, walk_finished, walk_shortened, Gamble, Round, TickStep, JUMP_CHANCE, SWING_CHANCE,
};
use vstd::prelude::*;

verus! {

// ---------------------------------------------------------------------------
// Walking

/// What a tick of walking about makes of a walk: a walk that goes on has one
/// tick less, its last tick ends it with a rest, a rest gets shorter, and at
/// its end a new walk begins.
pub open spec fn walk_step(w: Walk, after: Walk) -> bool {
    if w.is_walking && w.move_ticks > 1 {
        &&& after.is_walking
        &&& after.move_ticks == w.move_ticks - 1
        &&& after.move_cooldown == w.move_cooldown
        &&& after.dir_x == w.dir_x && after.dir_z == w.dir_z
    } else if w.is_walking {
        &&& !after.is_walking
        &&& 20 <= after.move_cooldown < 80
        &&& after.dir_x == w.dir_x && after.dir_z == w.dir_z
    } else if w.move_cooldown > 0 {
        &&& !after.is_walking
        &&& after.move_ticks == w.move_ticks
        &&& after.move_cooldown == w.move_cooldown - 1
        &&& after.dir_x == w.dir_x && after.dir_z == w.dir_z
    } else {
        &&& after.is_walking
        &&& 20 <= after.move_ticks < 60
        &&& after.move_cooldown == 0
    }
}

/// What decides a bot's walking about in one tick: the speed after a step,
/// whether it jumps, the direction of a new walk, and the numbers drawn.
pub struct Wander {
    pub stride: Values,
    pub hit: bool,
    pub cooldown: u32,
    pub rest: u32,
    pub bearing: Values,
    pub ticks: u32,
}

/// Whether the drawn numbers are in their ranges.
pub open spec fn is_wander(w: Wander) -> bool {
    15 <= w.cooldown < 40 && 20 <= w.rest < 80 && 20 <= w.ticks < 60
}

/// Whether a walking bot tries its luck at a jump.
pub open spec fn may_jump(c: Client, args: Args) -> bool {
    args.enable_jumping && c.walk.jump_cooldown == 0 && c.body.on_ground
}

/// The client after a tick's worth of walking about.
pub open spec fn movement_step(c: Client, args: Args, w: Wander) -> Client {
    if c.walk.is_walking {
        let stepped = strode(walk_shortened(c), w.stride);
        let after = if may_jump(c, args) && w.hit {
            jumped(stepped, w.cooldown)
        } else if args.enable_jumping {
            jump_awaited(stepped)
        } else {
            stepped
        };
        walk_finished(after, c.walk.move_ticks <= 1, w.rest)
    } else if c.walk.move_cooldown == 0 {
        jump_awaited(walk_begun(c, args.enable_rotation, w.bearing, w.ticks))
    } else {
        jump_awaited(
            Client { walk: Walk { move_cooldown: less_one(c.walk.move_cooldown), ..c.walk }, ..c },
        )
    }
}

/// The stage of walking about and its questions together do a tick's worth of
/// walking about, send nothing, and lead to the next stage.
pub proof fn law_movement_stage(c: Client, args: Args, flag: u8, w: Wander, heading: Values)
    requires
        args.enable_movement,
    ensures
        ({
            let (first, step) = movement_stage(c, args);
            let last = c.walk.move_ticks <= 1;
            let end = quiet(rotation_stage(movement_step(c, args, w), args));
            if c.walk.is_walking {
                let next = values_told(first, args, flag, Round::Stride { last }, w.stride, w.rest);
                &&& step == (TickStep::Evaluate {
                    round: Round::Stride { last },
                    terms: stride_terms(c),
                })
                &&& may_jump(c, args) ==> next.send is None && next.step == (TickStep::Chance {
                    gamble: Gamble::Jump { last },
                    probability: JUMP_CHANCE,
                }) && chance_told(
                    next.client,
                    args,
                    Gamble::Jump { last },
                    w.hit,
                    w.cooldown,
                    w.rest,
                ) == end
                &&& !may_jump(c, args) ==> next == end
            } else if c.walk.move_cooldown == 0 {
                let turn = bearing_terms(heading.a, args.enable_rotation);
                &&& step == (TickStep::Evaluate { round: Round::Heading, terms: heading_terms() })
                &&& values_told(first, args, flag, Round::Heading, heading, w.ticks) == quiet(
                    (first, TickStep::Evaluate { round: Round::Bearing, terms: turn }),
                )
                &&& values_told(first, args, flag, Round::Bearing, w.bearing, w.ticks) == end
            } else {
                quiet((first, step)) == end
            }
        }),
{
}

/// A tick's worth of walking about does to the walk what such a tick does, and
/// leaves alone where the bot is, where it looks and what the server was told.
/// A bot that is not walking keeps its speed and its footing, and one that
/// rests keeps its direction and does not turn.
pub proof fn law_movement_frame(c: Client, args: Args, w: Wander)
    requires
        is_wander(w),
    ensures
        ({
            let after = movement_step(c, args, w);
            &&& walk_step(c.walk, after.walk)
            &&& after == (Client { body: after.body, walk: after.walk, look: after.look, ..c })
            &&& after.body.x == c.body.x
            &&& after.body.y == c.body.y
            &&& after.body.z == c.body.z
            &&& after.body.ground_y == c.body.ground_y
            &&& after.look.yaw == c.look.yaw
            &&& after.look.pitch == c.look.pitch
            &&& !c.walk.is_walking ==> after.body == c.body
            &&& c.walk.is_walking || c.walk.move_cooldown > 0 || !args.enable_rotation ==> after.look
                == c.look
        }),
{
}

/// Whether a tick has got past its walking about.
pub open spec fn is_past_walking(step: TickStep) -> bool {
    match step {
        TickStep::Done => true,
        TickStep::Clock => false,
        TickStep::Chance { .. } => false,
        TickStep::Evaluate { round, .. } => !(round is Stride) && !(round is Heading)
            && !(round is Bearing),
    }
}

/// What has become of a walk by the time a tick asks for something.
spec fn is_under_way(w: Walk, now: Walk, step: TickStep) -> bool {
    match step {
        TickStep::Clock => now == w,
        TickStep::Chance { gamble: Gamble::Swing, .. } => now == w,
        TickStep::Chance { gamble: Gamble::Jump { last }, .. } => is_strode(w, now, last),
        TickStep::Evaluate { round: Round::Stride { last }, .. } => is_strode(w, now, last),
        TickStep::Evaluate { round: Round::Heading, .. } => now == w && !w.is_walking
            && w.move_cooldown == 0,
        TickStep::Evaluate { round: Round::Bearing, .. } => now == w && !w.is_walking
            && w.move_cooldown == 0,
        _ => walk_step(w, now),
    }
}

/// What has become of a walk in the middle of a step.
spec fn is_strode(w: Walk, now: Walk, last: bool) -> bool {
    &&& w.is_walking
    &&& last == (w.move_ticks <= 1)
    &&& now.is_walking
    &&& !last ==> now.move_ticks == w.move_ticks - 1
    &&& now.move_cooldown == w.move_cooldown
    &&& now.dir_x == w.dir_x
    &&& now.dir_z == w.dir_z
}

proof fn lemma_walk_stages(c: Client, args: Args)
    requires
        args.enable_movement,
    ensures
        physics_stage(c, args).0.walk == c.walk,
        is_past_walking(physics_stage(c, args).1),
        rotation_stage(c, args).0.walk == c.walk,
        is_past_walking(rotation_stage(c, args).1),
        is_under_way(c.walk, movement_stage(c, args).0.walk, movement_stage(c, args).1),
        is_under_way(c.walk, swing_stage(c, args).0.walk, swing_stage(c, args).1),
        is_active(c) ==> is_under_way(c.walk, tick_begun(c, args).0.walk, tick_begun(c, args).1),
{
}

proof fn lemma_walk_chance(
    w: Walk,
    c: Client,
    args: Args,
    gamble: Gamble,
    probability: Double,
    hit: bool,
    cooldown: u32,
    rest: u32,
)
    requires
        args.enable_movement,
        is_under_way(w, c.walk, TickStep::Chance { gamble, probability }),
        is_chance_draw(gamble, cooldown, rest),
    ensures
        ({
            let next = chance_told(c, args, gamble, hit, cooldown, rest);
            is_under_way(w, next.client.walk, next.step)
        }),
{
    match gamble {
        Gamble::Swing => {
            lemma_walk_stages(
                if hit {
                    Client { swing_cooldown: cooldown, ..c }
                } else {
                    c
                },
                args,
            );
        },
        Gamble::Jump { last } => {
            let after = if hit {
                jumped(c, cooldown)
            } else {
                c
            };
            lemma_walk_stages(walk_finished(after, last, rest), args);
        },
    }
}

proof fn lemma_walk_values(
    w: Walk,
    c: Client,
    args: Args,
    flag: u8,
    round: Round,
    terms: Terms,
    v: Values,
    count: u32,
)
    requires
        args.enable_movement,
        is_under_way(w, c.walk, TickStep::Evaluate { round, terms }),
        is_round_draw(round, count),
    ensures
        ({
            let next = values_told(c, args, flag, round, v, count);
            is_under_way(w, next.client.walk, next.step)
        }),
{
    match round {
        Round::Stride { last } => {
            let after = strode(c, v);
            let waited = if args.enable_jumping {
                jump_awaited(after)
            } else {
                after
            };
            lemma_walk_stages(walk_finished(waited, last, count), args);
        },
        Round::Bearing => {
            lemma_walk_stages(jump_awaited(walk_begun(c, args.enable_rotation, v, count)), args);
        },
        Round::Gaze => {
            lemma_walk_stages(
                Client { look: Look { cooldown: count, ..turn_begun(c.look, v.s, v.t) }, ..c },
                args,
            );
        },
        Round::Facing => {
            lemma_walk_stages(
                Client { look: Look { yaw: v.s, pitch: single_clipped(v.t), ..c.look }, ..c },
                args,
            );
        },
        _ => {},
    }
}

proof fn lemma_walk(w: Walk, c: Client, args: Args, flag: u8, step: TickStep, answer: Answer)
    requires
        args.enable_movement,
        is_under_way(w, c.walk, step),
        fits(args, step, answer),
    ensures
        ({
            let next = told(c, args, flag, step, answer);
            is_under_way(w, next.client.walk, next.step)
        }),
{
    match (step, answer) {
        (TickStep::Clock, Answer::Time { delay, .. }) => {
            lemma_walk_stages(counted(Client { message_spam_cooldown: delay, ..c }), args);
        },
        (TickStep::Chance { gamble, probability }, Answer::Luck { hit, cooldown, rest }) => {
            lemma_walk_chance(w, c, args, gamble, probability, hit, cooldown, rest);
        },
        (TickStep::Evaluate { round, terms }, Answer::Numbers { v, count }) => {
            lemma_walk_values(w, c, args, flag, round, terms, v, count);
        },
        _ => {},
    }
}

/// A whole tick does to the walk of an active bot what a tick of walking about
/// does, and the bot stays active.
pub proof fn law_walk_by_tick(
    before: Client,
    args: Args,
    flag: u8,
    after: Client,
    sent: Seq<PacketModel>,
)
    requires
        args.enable_movement,
        is_active(before),
        is_tick(before, args, flag, after, sent),
    ensures
        walk_step(before.walk, after.walk),
        is_active(after),
{
    let answers = choose|answers: Seq<Answer>|
        #![trigger tick_course(before, args, flag, answers)]
        all_fit(entered(tick_begun(before, args)), args, flag, answers) && tick_course(
            before,
            args,
            flag,
            answers,
        ) == (Course { client: after, sent, step: TickStep::Done });
    assert(is_active(after)) by {
        law_pastimes_can_be_switched_off(before, args, flag, answers);
    }
    let inv = |t: Course| is_under_way(before.walk, t.client.walk, t.step);
    assert forall|u: Course, a: Answer|
        #![trigger answered(u, args, flag, a)]
        inv(u) && fits(args, u.step, a) implies inv(answered(u, args, flag, a)) by {
        lemma_walk(before.walk, u.client, args, flag, u.step, a);
    }
    assert(inv(entered(tick_begun(before, args)))) by {
        lemma_walk_stages(before, args);
    }
    lemma_kept(inv, entered(tick_begun(before, args)), args, flag, answers);
}

/// Whether each walk comes of the one before by a tick of walking about.
pub open spec fn walks_on(walks: Seq<Walk>) -> bool {
    forall|i: int, j: int|
        #![trigger walks[i], walks[j]]
        0 <= i && j == i + 1 && j < walks.len() ==> walk_step(walks[i], walks[j])
}

/// A walk of so many ticks that goes on.
proof fn lemma_walk_goes_on(walks: Seq<Walk>, start: int, i: int)
    requires
        walks_on(walks),
        0 <= start <= i < walks.len(),
        walks[start].is_walking,
        i < start + walks[start].move_ticks,
    ensures
        walks[i].is_walking,
        walks[i].move_ticks == walks[start].move_ticks - (i - start),
    decreases i,
{
    if i > start {
        lemma_walk_goes_on(walks, start, i - 1);
        assert(walk_step(walks[i - 1], walks[i]));
    }
}

/// A rest of so many ticks that goes on.
proof fn lemma_rest_goes_on(walks: Seq<Walk>, start: int, i: int)
    requires
        walks_on(walks),
        0 <= start <= i < walks.len(),
        !walks[start].is_walking,
        i <= start + walks[start].move_cooldown,
    ensures
        !walks[i].is_walking,
        walks[i].move_cooldown == walks[start].move_cooldown - (i - start),
    decreases i,
{
    if i > start {
        lemma_rest_goes_on(walks, start, i - 1);
        assert(walk_step(walks[i - 1], walks[i]));
    }
}

/// Whether a bot that stands at the end of a rest sets out on a walk of `n`
/// ticks, walks for exactly `n` of them, rests for as many as it then has drawn,
/// and sets out again; as far as the ticks go.
pub open spec fn keeps_time(walks: Seq<Walk>) -> bool {
    let n = walks[1].move_ticks as int;
    let m = walks[n + 1].move_cooldown as int;
    &&& 20 <= n < 60
    &&& forall|i: int| 1 <= i <= n && i < walks.len() ==> (#[trigger] walks[i]).is_walking
    &&& n + 1 < walks.len() ==> {
        &&& !walks[n + 1].is_walking
        &&& 20 <= m < 80
        &&& forall|i: int|
            n + 1 <= i <= n + 1 + m && i < walks.len() ==> !(#[trigger] walks[i]).is_walking
        &&& n + m + 2 < walks.len() ==> walks[n + m + 2].is_walking
    }
}

/// A walk takes exactly the ticks it was drawn for, the rest after it takes
/// exactly its own, and then a new walk begins: as long as the bot does nothing
/// but walk about, tick by tick.
pub proof fn law_walk_length(walks: Seq<Walk>)
    requires
        walks_on(walks),
        walks.len() >= 2,
        !walks[0].is_walking,
        walks[0].move_cooldown == 0,
    ensures
        keeps_time(walks),
{
    assert(walk_step(walks[0], walks[1]));
    let n = walks[1].move_ticks as int;
    assert forall|i: int| 1 <= i <= n && i < walks.len() implies (#[trigger] walks[i]).is_walking by {
        lemma_walk_goes_on(walks, 1, i);
    }
    if n + 1 < walks.len() {
        lemma_walk_goes_on(walks, 1, n);
        assert(walk_step(walks[n], walks[n + 1]));
        let m = walks[n + 1].move_cooldown as int;
        assert forall|i: int| n + 1 <= i <= n + 1 + m && i < walks.len() implies !(
        #[trigger] walks[i]).is_walking by {
            lemma_rest_goes_on(walks, n + 1, i);
        }
        if n + m + 2 < walks.len() {
            lemma_rest_goes_on(walks, n + 1, n + 1 + m);
            assert(walk_step(walks[n + m + 1], walks[n + m + 2]));
        }
    }
}

// ---------------------------------------------------------------------------
// One tick after another

/// Whether a bot goes from state to state by whole ticks with nothing in
/// between, sending what is given for each.
pub open spec fn ticks_on(life: Seq<Client>, sent: Seq<Seq<PacketModel>>, args: Args, flag: u8) -> bool {
    &&& life.len() == sent.len() + 1
    &&& forall|i: int|
        0 <= i < sent.len() ==> is_tick(life[i], args, flag, life[i + 1], #[trigger] sent[i])
}

/// The walks of a bot's states.
pub open spec fn walks_of(life: Seq<Client>) -> Seq<Walk> {
    Seq::new(life.len(), |i: int| life[i].walk)
}

/// Through whole ticks, too, a walk takes exactly the ticks it was drawn for,
/// and is followed by the drawn rest and then a new walk.
pub proof fn law_walk_length_by_ticks(
    life: Seq<Client>,
    sent: Seq<Seq<PacketModel>>,
    args: Args,
    flag: u8,
)
    requires
        ticks_on(life, sent, args, flag),
        args.enable_movement,
        life.len() >= 2,
        is_active(life[0]),
        !life[0].walk.is_walking,
        life[0].walk.move_cooldown == 0,
    ensures
        keeps_time(walks_of(life)),
{
    let walks = walks_of(life);
    assert forall|i: int, j: int|
        #![trigger walks[i], walks[j]]
        0 <= i && j == i + 1 && j < walks.len() implies walk_step(walks[i], walks[j]) by {
        lemma_stays_active(life, sent, args, flag, i);
        assert(is_tick(life[i], args, flag, life[i + 1], sent[i]));
        law_walk_by_tick(life[i], args, flag, life[i + 1], sent[i]);
    }
    law_walk_length(walks);
}

proof fn lemma_stays_active(
    life: Seq<Client>,
    sent: Seq<Seq<PacketModel>>,
    args: Args,
    flag: u8,
    i: int,
)
    requires
        ticks_on(life, sent, args, flag),
        is_active(life[0]),
        0 <= i < life.len(),
    ensures
        is_active(life[i]),
    decreases i,
{
    if i > 0 {
        lemma_stays_active(life, sent, args, flag, i - 1);
        let (before, after, told) = (life[i - 1], life[i], sent[i - 1]);
        assert(is_tick(life[i - 1], args, flag, life[i - 1 + 1], sent[i - 1]));
        let answers = choose|answers: Seq<Answer>|
            #![trigger tick_course(before, args, flag, answers)]
            all_fit(entered(tick_begun(before, args)), args, flag, answers) && tick_course(
                before,
                args,
                flag,
                answers,
            ) == (Course { client: after, sent: told, step: TickStep::Done });
        law_pastimes_can_be_switched_off(before, args, flag, answers);
    }
}

// ---------------------------------------------------------------------------
// Swinging

/// The stage of swinging an arm changes nothing but the cooldown and leads to
/// the next stage.  While the cooldown lasts it gets shorter and nothing is
/// sent.  When it is over, luck decides whether the arm is swung; if it is, the
/// drawn cooldown begins.
pub proof fn law_swing_stage(c: Client, args: Args, hit: bool, cooldown: u32, rest: u32)
    requires
        args.enable_swing,
    ensures
        c.swing_cooldown > 0 ==> swing_stage(c, args) == movement_stage(
            Client { swing_cooldown: (c.swing_cooldown - 1) as u32, ..c },
            args,
        ),
        c.swing_cooldown == 0 ==> swing_stage(c, args) == (
            c,
            TickStep::Chance { gamble: Gamble::Swing, probability: SWING_CHANCE },
        ),
        chance_told(c, args, Gamble::Swing, hit, cooldown, rest) == (if hit {
            after_sending(
                Packet::SwingArm { hand: 0 },
                movement_stage(Client { swing_cooldown: cooldown, ..c }, args),
            )
        } else {
            quiet(movement_stage(c, args))
        }),
{
}

/// What a tick of swinging makes of the cooldown, and what it sends.
pub open spec fn swing_step(before: u32, after: u32, sent: Seq<PacketModel>) -> bool {
    if before > 0 {
        after == before - 1 && !swung(sent)
    } else {
        ||| after == 0 && !swung(sent)
        ||| 20 <= after < 40 && swung(sent)
    }
}

/// What has become of the cooldown by the time a tick asks for something.
spec fn is_swinging(before: u32, now: u32, sent: Seq<PacketModel>, step: TickStep) -> bool {
    match step {
        TickStep::Clock => now == before && !swung(sent),
        TickStep::Chance { gamble: Gamble::Swing, .. } => now == before && before == 0 && !swung(
            sent,
        ),
        _ => swing_step(before, now, sent),
    }
}

proof fn lemma_swing_stages(c: Client, args: Args)
    requires
        args.enable_swing,
    ensures
        reached(swing_stage(c, args).1) == 1 ==> swing_stage(c, args).0.swing_cooldown == 0
            && c.swing_cooldown == 0,
        reached(swing_stage(c, args).1) == 2 ==> c.swing_cooldown > 0 && swing_stage(
            c,
            args,
        ).0.swing_cooldown == c.swing_cooldown - 1,
        is_active(c) ==> is_swinging(
            c.swing_cooldown,
            tick_begun(c, args).0.swing_cooldown,
            Seq::empty(),
            tick_begun(c, args).1,
        ),
{
}

proof fn lemma_swing(before: u32, t: Course, args: Args, flag: u8, answer: Answer)
    requires
        args.enable_swing,
        is_swinging(before, t.client.swing_cooldown, t.sent, t.step),
        is_allowed(args, t.step),
        fits(args, t.step, answer),
    ensures
        ({
            let next = answered(t, args, flag, answer);
            is_swinging(before, next.client.swing_cooldown, next.sent, next.step) && is_allowed(
                args,
                next.step,
            )
        }),
{
    let next = told(t.client, args, flag, t.step, answer);
    lemma_sound(t.client, args, flag, t.step, answer);
    lemma_heard(t.sent, next.send);
    match (t.step, answer) {
        (TickStep::Clock, Answer::Time { delay, .. }) => {
            lemma_swing_stages(
                counted(Client { message_spam_cooldown: delay, ..t.client }),
                args,
            );
        },
        (TickStep::Chance { gamble: Gamble::Swing, .. }, Answer::Luck { hit, cooldown, .. }) => {
            lemma_stages(
                if hit {
                    Client { swing_cooldown: cooldown, ..t.client }
                } else {
                    t.client
                },
                args,
            );
        },
        _ => {},
    }
}

/// A whole tick does to the cooldown of an active bot what a tick of swinging
/// does.
pub proof fn law_swing_by_tick(
    before: Client,
    args: Args,
    flag: u8,
    after: Client,
    sent: Seq<PacketModel>,
)
    requires
        args.enable_swing,
        is_active(before),
        is_tick(before, args, flag, after, sent),
    ensures
        swing_step(before.swing_cooldown, after.swing_cooldown, sent),
{
    let answers = choose|answers: Seq<Answer>|
        #![trigger tick_course(before, args, flag, answers)]
        all_fit(entered(tick_begun(before, args)), args, flag, answers) && tick_course(
            before,
            args,
            flag,
            answers,
        ) == (Course { client: after, sent, step: TickStep::Done });
    let inv = |t: Course|
        is_swinging(before.swing_cooldown, t.client.swing_cooldown, t.sent, t.step) && is_allowed(
            args,
            t.step,
        );
    assert forall|u: Course, a: Answer|
        #![trigger answered(u, args, flag, a)]
        inv(u) && fits(args, u.step, a) implies inv(answered(u, args, flag, a)) by {
        lemma_swing(before.swing_cooldown, u, args, flag, a);
    }
    assert(inv(entered(tick_begun(before, args)))) by {
        lemma_stages(before, args);
        lemma_swing_stages(before, args);
    }
    lemma_kept(inv, entered(tick_begun(before, args)), args, flag, answers);
}

/// The fewest ticks without a swing between two swings.
pub const SWING_PAUSE: u32 = 20;

/// After a swing the cooldown is only counted down as far as ticks have passed.
proof fn lemma_pause_goes_on(
    life: Seq<Client>,
    sent: Seq<Seq<PacketModel>>,
    args: Args,
    flag: u8,
    i: int,
    j: int,
)
    requires
        ticks_on(life, sent, args, flag),
        args.enable_swing,
        is_active(life[0]),
        0 <= i < j < life.len(),
        swung(sent[i]),
        j - i - 1 <= SWING_PAUSE,
    ensures
        life[j].swing_cooldown >= SWING_PAUSE - (j - i - 1),
        i < j - 1 ==> !swung(sent[j - 1]),
    decreases j,
{
    lemma_stays_active(life, sent, args, flag, j - 1);
    assert(is_tick(life[j - 1], args, flag, life[j - 1 + 1], sent[j - 1]));
    law_swing_by_tick(life[j - 1], args, flag, life[j], sent[j - 1]);
    if j - 1 > i {
        lemma_pause_goes_on(life, sent, args, flag, i, j - 1);
    }
}

/// Between two swings of an active bot there are at least `SWING_PAUSE` ticks in
/// which it does not swing.
pub proof fn law_swings_are_apart(
    life: Seq<Client>,
    sent: Seq<Seq<PacketModel>>,
    args: Args,
    flag: u8,
    i: int,
    j: int,
)
    requires
        ticks_on(life, sent, args, flag),
        args.enable_swing,
        is_active(life[0]),
        0 <= i < j < sent.len(),
        swung(sent[i]),
        swung(sent[j]),
    ensures
        j - i > SWING_PAUSE,
{
    if j - i <= SWING_PAUSE {
        lemma_pause_goes_on(life, sent, args, flag, i, j + 1);
    }
}

// ---------------------------------------------------------------------------
// Chatting

/// Whether what was sent begins with a chat message of these words and this
/// number, and holds no other.
pub open spec fn is_one_chat(sent: Seq<PacketModel>, words: Seq<char>, number: i32) -> bool {
    &&& sent.len() >= 1
    &&& sent[0] matches Packet::ChatMessage { message, message_count, .. } && message == words
        && message_count == number
    &&& forall|i: int| 1 <= i < sent.len() ==> !(#[trigger] sent[i] is ChatMessage)
}

/// What a tick of an active bot with something to say makes of its chat, and
/// what it says: as long as there are ticks to count it counts one down and
/// says nothing, and when there are none it says its words once, and begins to
/// count a delay.
pub open spec fn chat_step(before: Client, args: Args, after: Client, sent: Seq<PacketModel>) -> bool {
    if before.message_spam_cooldown > 0 {
        &&& after.message_spam_cooldown == before.message_spam_cooldown - 1
        &&& after.message_count == before.message_count
        &&& !chatted(sent)
    } else {
        &&& args.spam_message_delay_min <= after.message_spam_cooldown
            < args.spam_message_delay_max
        &&& after.message_count == counted(before).message_count
        &&& is_one_chat(sent, args.spam_message.unwrap()@, before.message_count as i32)
    }
}

/// What has become of the chat by the time a tick asks for something.
spec fn is_chatting(before: Client, args: Args, t: Course) -> bool {
    if t.step is Clock {
        &&& before.message_spam_cooldown == 0
        &&& t.client.message_spam_cooldown == 0
        &&& t.client.message_count == before.message_count
        &&& t.sent.len() == 0
    } else {
        chat_step(before, args, t.client, t.sent)
    }
}

/// One more packet that is no chat message.
proof fn lemma_no_chat(sent: Seq<PacketModel>, packet: PacketModel, words: Seq<char>, number: i32)
    requires
        !(packet is ChatMessage),
        is_one_chat(sent, words, number),
    ensures
        is_one_chat(sent.push(packet), words, number),
{
    let all = sent.push(packet);
    assert(all[0] == sent[0]);
    assert forall|i: int| 1 <= i < all.len() implies !(#[trigger] all[i] is ChatMessage) by {
        if i < sent.len() {
            assert(all[i] == sent[i]);
        }
    }
}

/// What luck and values leave alone.
proof fn lemma_chat_kept(c: Client, args: Args, flag: u8, step: TickStep, answer: Answer)
    requires
        !(step is Clock),
    ensures
        ({
            let next = told(c, args, flag, step, answer);
            &&& next.client.message_spam_cooldown == c.message_spam_cooldown
            &&& next.client.message_count == c.message_count
            &&& !(next.send matches Some(p) && p is ChatMessage)
            &&& !(next.step is Clock)
        }),
{
    let none = Values { a: 0, b: 0, c: 0, s: 0, t: 0 };
    match (step, answer) {
        (TickStep::Chance { gamble, .. }, Answer::Luck { hit, cooldown, rest }) => {
            let round = Round::Drift;
            law_only_the_clock_chats(
                c,
                args,
                flag,
                gamble,
                hit,
                cooldown,
                rest,
                round,
                none,
                0,
            );
        },
        (TickStep::Evaluate { round, .. }, Answer::Numbers { v, count }) => {
            let gamble = Gamble::Swing;
            law_only_the_clock_chats(c, args, flag, gamble, false, 0, 0, round, v, count);
        },
        _ => {},
    }
}

proof fn lemma_chat(before: Client, t: Course, args: Args, flag: u8, answer: Answer)
    requires
        args.spam_message is Some,
        is_chatting(before, args, t),
        fits(args, t.step, answer),
    ensures
        is_chatting(before, args, answered(t, args, flag, answer)),
{
    let next = told(t.client, args, flag, t.step, answer);
    let words = args.spam_message.unwrap()@;
    let number = before.message_count as i32;
    match (t.step, answer) {
        (TickStep::Clock, Answer::Time { delay, .. }) => {
            lemma_stages_keep_chat(
                counted(Client { message_spam_cooldown: delay, ..t.client }),
                args,
            );
        },
        _ => {
            lemma_chat_kept(t.client, args, flag, t.step, answer);
            lemma_heard(t.sent, next.send);
            if next.send is Some && is_one_chat(t.sent, words, number) {
                lemma_no_chat(t.sent, next.send.unwrap(), words, number);
            }
        },
    }
}

/// A whole tick does to the chat of an active bot with something to say what
/// such a tick does.
pub proof fn law_chat_by_tick(
    before: Client,
    args: Args,
    flag: u8,
    after: Client,
    sent: Seq<PacketModel>,
)
    requires
        args.spam_message is Some,
        is_active(before),
        is_tick(before, args, flag, after, sent),
    ensures
        chat_step(before, args, after, sent),
        chatted(sent) <==> before.message_spam_cooldown == 0,
{
    let answers = choose|answers: Seq<Answer>|
        #![trigger tick_course(before, args, flag, answers)]
        all_fit(entered(tick_begun(before, args)), args, flag, answers) && tick_course(
            before,
            args,
            flag,
            answers,
        ) == (Course { client: after, sent, step: TickStep::Done });
    let inv = |t: Course| is_chatting(before, args, t);
    assert forall|u: Course, a: Answer|
        #![trigger answered(u, args, flag, a)]
        inv(u) && fits(args, u.step, a) implies inv(answered(u, args, flag, a)) by {
        lemma_chat(before, u, args, flag, a);
    }
    assert(inv(entered(tick_begun(before, args)))) by {
        let waited = less_one(before.message_spam_cooldown);
        lemma_stages_keep_chat(Client { message_spam_cooldown: waited, ..before }, args);
    }
    lemma_kept(inv, entered(tick_begun(before, args)), args, flag, answers);
    if before.message_spam_cooldown == 0 {
        assert(sent[0] is ChatMessage);
    }
}

/// After a message the delay is counted down tick by tick.
proof fn lemma_delay_goes_on(
    life: Seq<Client>,
    sent: Seq<Seq<PacketModel>>,
    args: Args,
    flag: u8,
    i: int,
    j: int,
)
    requires
        ticks_on(life, sent, args, flag),
        args.spam_message is Some,
        is_active(life[0]),
        0 <= i < j < life.len(),
        j - i - 1 <= life[i + 1].message_spam_cooldown,
    ensures
        life[j].message_spam_cooldown == life[i + 1].message_spam_cooldown - (j - i - 1),
    decreases j,
{
    if j - 1 > i {
        lemma_delay_goes_on(life, sent, args, flag, i, j - 1);
        lemma_stays_active(life, sent, args, flag, j - 1);
        assert(is_tick(life[j - 1], args, flag, life[j - 1 + 1], sent[j - 1]));
        law_chat_by_tick(life[j - 1], args, flag, life[j], sent[j - 1]);
    }
}

/// Chat keeps time: after a message and the delay drawn with it, exactly as many
/// ticks pass without a message, and the next one brings one; as far as the
/// ticks go.
pub proof fn law_chats_keep_time(
    life: Seq<Client>,
    sent: Seq<Seq<PacketModel>>,
    args: Args,
    flag: u8,
    i: int,
)
    requires
        ticks_on(life, sent, args, flag),
        args.spam_message is Some,
        is_active(life[0]),
        0 <= i < sent.len(),
        chatted(sent[i]),
    ensures
        ({
            let delay = life[i + 1].message_spam_cooldown;
            &&& args.spam_message_delay_min <= delay < args.spam_message_delay_max
            &&& forall|j: int| i < j <= i + delay && j < sent.len() ==> !chatted(#[trigger] sent[j])
            &&& i + delay + 1 < sent.len() ==> chatted(sent[i + delay + 1])
        }),
{
    lemma_stays_active(life, sent, args, flag, i);
    assert(is_tick(life[i], args, flag, life[i + 1], sent[i]));
    law_chat_by_tick(life[i], args, flag, life[i + 1], sent[i]);
    let delay = life[i + 1].message_spam_cooldown;
    assert forall|j: int| i < j <= i + delay && j < sent.len() implies !chatted(
        #[trigger] sent[j],
    ) by {
        lemma_delay_goes_on(life, sent, args, flag, i, j);
        lemma_stays_active(life, sent, args, flag, j);
        assert(is_tick(life[j], args, flag, life[j + 1], sent[j]));
        law_chat_by_tick(life[j], args, flag, life[j + 1], sent[j]);
    }
    let next = i + delay + 1;
    if next < sent.len() {
        lemma_delay_goes_on(life, sent, args, flag, i, next);
        lemma_stays_active(life, sent, args, flag, next);
        assert(is_tick(life[next], args, flag, life[next + 1], sent[next]));
        law_chat_by_tick(life[next], args, flag, life[next + 1], sent[next]);
    }
}

} // verus!
