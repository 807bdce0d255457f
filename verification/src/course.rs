//! Whole ticks.
//!
//! A tick that has begun goes on with one answer after the other.  What holds
//! of it whatever the answers are is stated here.

use crate::args::Args;
use crate::client::{counted, Client, Look};
use crate::float::{single_clipped, Double};
use crate::packet::{Packet, PacketModel};
use crate::term::{Terms, Values};
use crate::tick::{
    chance_told, clock_told, collision_flag, is_chance_draw, is_round_draw, jump_awaited, jumped,
    movement_stage, physics_stage, rotation_stage, strode, swing_stage, tick_begun, turn_begun,
    values_told, walk_begun, walk_finished, Gamble, Round, TickModel, TickStep,
};
use vstd::prelude::*;

verus! {

/// An answer to what a tick asks, with the numbers drawn on its account.
pub enum Answer {
    /// The time, with the delay until the next message and the salt of this one.
    Time { millis: u128, delay: u32, salt: i64 },
    /// Whether luck was with the bot, with the cooldown and the rest that follow.
    Luck { hit: bool, cooldown: u32, rest: u32 },
    /// The values of a round, with how long what it begins will last.
    Numbers { v: Values, count: u32 },
}

/// A tick on its way: the client, all that it has sent so far, and what the
/// tick needs next.
pub struct Course {
    pub client: Client,
    pub sent: Seq<PacketModel>,
    pub step: TickStep,
}

/// Whether an answer is of the kind asked for, with numbers in their ranges.
pub open spec fn fits(args: Args, step: TickStep, answer: Answer) -> bool {
    match (step, answer) {
        (TickStep::Clock, Answer::Time { delay, .. }) => args.spam_message_delay_min <= delay
            < args.spam_message_delay_max,
        (TickStep::Chance { gamble, .. }, Answer::Luck { cooldown, rest, .. }) => is_chance_draw(
            gamble,
            cooldown,
            rest,
        ),
        (TickStep::Evaluate { round, .. }, Answer::Numbers { count, .. }) => is_round_draw(
            round,
            count,
        ),
        _ => false,
    }
}

/// What a client in its tick makes of an answer.  An answer to something else
/// leaves the tick as it is.
pub open spec fn told(c: Client, args: Args, flag: u8, step: TickStep, answer: Answer) -> TickModel {
    match (step, answer) {
        (TickStep::Clock, Answer::Time { millis, delay, salt }) => clock_told(
            c,
            args,
            millis,
            delay,
            salt,
        ),
        (TickStep::Chance { gamble, .. }, Answer::Luck { hit, cooldown, rest }) => chance_told(
            c,
            args,
            gamble,
            hit,
            cooldown,
            rest,
        ),
        (TickStep::Evaluate { round, .. }, Answer::Numbers { v, count }) => values_told(
            c,
            args,
            flag,
            round,
            v,
            count,
        ),
        _ => TickModel { client: c, send: None, step },
    }
}

/// A tick one answer further.
pub open spec fn answered(t: Course, args: Args, flag: u8, answer: Answer) -> Course {
    let next = told(t.client, args, flag, t.step, answer);
    Course {
        client: next.client,
        sent: match next.send {
            Some(packet) => t.sent.push(packet),
            None => t.sent,
        },
        step: next.step,
    }
}

/// A tick after some answers.
pub open spec fn course(t: Course, args: Args, flag: u8, answers: Seq<Answer>) -> Course
    decreases answers.len(),
{
    if answers.len() == 0 {
        t
    } else {
        answered(course(t, args, flag, answers.drop_last()), args, flag, answers.last())
    }
}

/// Whether every answer fits what was asked.
pub open spec fn all_fit(t: Course, args: Args, flag: u8, answers: Seq<Answer>) -> bool
    decreases answers.len(),
{
    answers.len() == 0 || all_fit(t, args, flag, answers.drop_last()) && fits(
        args,
        course(t, args, flag, answers.drop_last()).step,
        answers.last(),
    )
}

/// A stage entered, with nothing sent yet.
pub open spec fn entered(stage: (Client, TickStep)) -> Course {
    Course { client: stage.0, sent: Seq::empty(), step: stage.1 }
}

/// A tick from its beginning, after some answers.
pub open spec fn tick_course(c: Client, args: Args, flag: u8, answers: Seq<Answer>) -> Course {
    course(entered(tick_begun(c, args)), args, flag, answers)
}

/// Whether a whole tick can take a client to another and send this.
pub open spec fn is_tick(
    before: Client,
    args: Args,
    flag: u8,
    after: Client,
    sent: Seq<PacketModel>,
) -> bool {
    exists|answers: Seq<Answer>|
        #![trigger tick_course(before, args, flag, answers)]
        all_fit(entered(tick_begun(before, args)), args, flag, answers) && tick_course(
            before,
            args,
            flag,
            answers,
        ) == (Course { client: after, sent, step: TickStep::Done })
}

/// What holds at the start of a tick and is kept by every fitting answer holds
/// all along.
pub(crate) proof fn lemma_kept(
    inv: spec_fn(Course) -> bool,
    t: Course,
    args: Args,
    flag: u8,
    answers: Seq<Answer>,
)
    requires
        inv(t),
        all_fit(t, args, flag, answers),
        forall|u: Course, a: Answer|
            #![trigger answered(u, args, flag, a)]
            inv(u) && fits(args, u.step, a) ==> inv(answered(u, args, flag, a)),
    ensures
        inv(course(t, args, flag, answers)),
    decreases answers.len(),
{
    if answers.len() > 0 {
        lemma_kept(inv, t, args, flag, answers.drop_last());
    }
}

/// What a tick never touches.
pub open spec fn same_standing(before: Client, after: Client) -> bool {
    &&& after.connection_state == before.connection_state
    &&& after.closed == before.closed
    &&& after.entity_id == before.entity_id
    &&& after.is_loaded == before.is_loaded
    &&& after.is_dead == before.is_dead
    &&& after.body.ground_y == before.body.ground_y
}

/// Whether a chat message is among what was sent.
pub open spec fn chatted(sent: Seq<PacketModel>) -> bool {
    exists|i: int| 0 <= i < sent.len() && #[trigger] sent[i] is ChatMessage
}

/// Whether a swing is among what was sent.
pub open spec fn swung(sent: Seq<PacketModel>) -> bool {
    exists|i: int| 0 <= i < sent.len() && #[trigger] sent[i] is SwingArm
}

/// What each pastime that is switched off leaves alone.
pub open spec fn spared(before: Client, args: Args, after: Client) -> bool {
    &&& same_standing(before, after)
    &&& args.spam_message is None ==> after.message_spam_cooldown == before.message_spam_cooldown
        && after.message_count == before.message_count
    &&& !args.enable_swing ==> after.swing_cooldown == before.swing_cooldown
    &&& !args.enable_movement ==> after.walk == before.walk
    &&& !args.enable_rotation ==> after.look == before.look
    &&& !args.enable_physics ==> after.body.x == before.body.x && after.body.y == before.body.y
        && after.body.z == before.body.z
    &&& !args.enable_physics && !args.enable_movement ==> after.body == before.body
    &&& !args.enable_physics && !args.enable_jumping ==> after.body.velocity_y
        == before.body.velocity_y && after.body.on_ground == before.body.on_ground
}

/// Whether nothing has been sent on account of a pastime that is switched off.
pub open spec fn unheard(args: Args, sent: Seq<PacketModel>) -> bool {
    &&& args.spam_message is None ==> !chatted(sent)
    &&& !args.enable_swing ==> !swung(sent)
}

/// Whether a question belongs to a pastime that is switched on.
pub open spec fn is_allowed(args: Args, step: TickStep) -> bool {
    match step {
        TickStep::Done => true,
        TickStep::Clock => args.spam_message is Some,
        TickStep::Chance { gamble: Gamble::Swing, .. } => args.enable_swing,
        TickStep::Chance { gamble: Gamble::Jump { .. }, .. } => args.enable_movement
            && args.enable_jumping,
        TickStep::Evaluate { round, .. } => match round {
            Round::Stride { .. } | Round::Heading | Round::Bearing => args.enable_movement,
            Round::Gaze | Round::Ramp | Round::Ease | Round::Facing => args.enable_rotation,
            Round::Velocity | Round::Position => args.enable_physics,
            Round::Drift => true,
        },
    }
}

/// The order in which the packets of a tick come: chat, swing, whereabouts.
pub open spec fn rank(packet: PacketModel) -> int {
    match packet {
        Packet::ChatMessage { .. } => 0,
        Packet::SwingArm { .. } => 1,
        Packet::PlayerPosition { .. } => 2,
        Packet::PlayerPositionRotation { .. } => 2,
        Packet::PlayerRotation { .. } => 2,
        Packet::SetPlayerGround { .. } => 2,
        _ => 3,
    }
}

/// How far up in that order a tick has come when it asks for something.
pub open spec fn reached(step: TickStep) -> int {
    match step {
        TickStep::Clock => 0,
        TickStep::Chance { gamble: Gamble::Swing, .. } => 1,
        TickStep::Done => 3,
        _ => 2,
    }
}

/// Whether a packet about the bot's whereabouts says where the bot is.
pub open spec fn shows(packet: PacketModel, c: Client, flag: u8) -> bool {
    match packet {
        Packet::PlayerPosition { x, y, z, collision } => x == c.body.x && y == c.body.y && z
            == c.body.z && collision == collision_flag(c, flag),
        Packet::PlayerPositionRotation { x, y, z, yaw, pitch, collision } => x == c.body.x && y
            == c.body.y && z == c.body.z && yaw == c.look.yaw && pitch == c.look.pitch && collision
            == collision_flag(c, flag),
        Packet::PlayerRotation { yaw, pitch, ground } => yaw == c.look.yaw && pitch
            == c.look.pitch && ground == c.body.on_ground,
        Packet::SetPlayerGround { on_ground } => on_ground == c.body.on_ground,
        _ => true,
    }
}

/// What one answer sends comes after what was sent before, and before what is
/// asked next.
pub open spec fn is_ordered(step: TickStep, flag: u8, next: TickModel) -> bool {
    &&& reached(next.step) >= reached(step)
    &&& next.send matches Some(p) ==> reached(step) <= rank(p) < reached(next.step) && shows(
        p,
        next.client,
        flag,
    )
}

/// What one answer does: it goes by the pastimes that are switched on, sends in
/// order, and once a tick is past its swing, leaves the arm alone.
pub open spec fn is_sound(c: Client, args: Args, flag: u8, step: TickStep, next: TickModel) -> bool {
    &&& is_ordered(step, flag, next)
    &&& reached(step) >= 2 ==> next.client.swing_cooldown == c.swing_cooldown
    &&& spared(c, args, next.client)
    &&& is_allowed(args, next.step)
    &&& next.send matches Some(p) ==> (p is ChatMessage ==> args.spam_message is Some) && (
    p is SwingArm ==> args.enable_swing)
}

pub(crate) proof fn lemma_stages(c: Client, args: Args)
    ensures
        physics_stage(c, args).0 == c,
        reached(physics_stage(c, args).1) == 2,
        rotation_stage(c, args).0.swing_cooldown == c.swing_cooldown,
        reached(rotation_stage(c, args).1) == 2,
        movement_stage(c, args).0.swing_cooldown == c.swing_cooldown,
        reached(movement_stage(c, args).1) == 2,
        1 <= reached(swing_stage(c, args).1) <= 2,
        is_allowed(args, physics_stage(c, args).1),
        spared(c, args, rotation_stage(c, args).0),
        is_allowed(args, rotation_stage(c, args).1),
        spared(c, args, movement_stage(c, args).0),
        is_allowed(args, movement_stage(c, args).1),
        spared(c, args, swing_stage(c, args).0),
        is_allowed(args, swing_stage(c, args).1),
        spared(c, args, tick_begun(c, args).0),
        is_allowed(args, tick_begun(c, args).1),
{
}

proof fn lemma_sound_chance(
    c: Client,
    args: Args,
    flag: u8,
    gamble: Gamble,
    probability: Double,
    hit: bool,
    cooldown: u32,
    rest: u32,
)
    requires
        is_allowed(args, TickStep::Chance { gamble, probability }),
    ensures
        is_sound(
            c,
            args,
            flag,
            TickStep::Chance { gamble, probability },
            chance_told(c, args, gamble, hit, cooldown, rest),
        ),
{
    match gamble {
        Gamble::Swing => {
            lemma_stages(
                if hit {
                    Client { swing_cooldown: cooldown, ..c }
                } else {
                    c
                },
                args,
            );
        },
        Gamble::Jump { last } => {
            let after = if hit {
                jumped(c, cooldown)
            } else {
                c
            };
            lemma_stages(walk_finished(after, last, rest), args);
        },
    }
}

proof fn lemma_sound_values(
    c: Client,
    args: Args,
    flag: u8,
    round: Round,
    terms: Terms,
    v: Values,
    count: u32,
)
    requires
        is_allowed(args, TickStep::Evaluate { round, terms }),
    ensures
        is_sound(
            c,
            args,
            flag,
            TickStep::Evaluate { round, terms },
            values_told(c, args, flag, round, v, count),
        ),
{
    match round {
        Round::Stride { last } => {
            let after = strode(c, v);
            let waited = if args.enable_jumping {
                jump_awaited(after)
            } else {
                after
            };
            lemma_stages(walk_finished(waited, last, count), args);
        },
        Round::Bearing => {
            lemma_stages(
                jump_awaited(walk_begun(c, args.enable_rotation, v, count)),
                args,
            );
        },
        Round::Gaze => {
            lemma_stages(
                Client { look: Look { cooldown: count, ..turn_begun(c.look, v.s, v.t) }, ..c },
                args,
            );
        },
        Round::Facing => {
            lemma_stages(
                Client { look: Look { yaw: v.s, pitch: single_clipped(v.t), ..c.look }, ..c },
                args,
            );
        },
        _ => {},
    }
}

pub(crate) proof fn lemma_sound(c: Client, args: Args, flag: u8, step: TickStep, answer: Answer)
    requires
        is_allowed(args, step),
    ensures
        is_sound(c, args, flag, step, told(c, args, flag, step, answer)),
{
    match (step, answer) {
        (TickStep::Clock, Answer::Time { delay, .. }) => {
            lemma_stages(counted(Client { message_spam_cooldown: delay, ..c }), args);
        },
        (TickStep::Chance { gamble, probability }, Answer::Luck { hit, cooldown, rest }) => {
            lemma_sound_chance(c, args, flag, gamble, probability, hit, cooldown, rest);
        },
        (TickStep::Evaluate { round, terms }, Answer::Numbers { v, count }) => {
            lemma_sound_values(c, args, flag, round, terms, v, count);
        },
        _ => {},
    }
}

/// A pastime that is switched off leaves what belongs to it alone through the
/// whole tick and sends nothing, and no question of it is asked.
pub proof fn law_pastimes_can_be_switched_off(
    c: Client,
    args: Args,
    flag: u8,
    answers: Seq<Answer>,
)
    requires
        all_fit(entered(tick_begun(c, args)), args, flag, answers),
    ensures
        ({
            let t = tick_course(c, args, flag, answers);
            &&& spared(c, args, t.client)
            &&& unheard(args, t.sent)
            &&& is_allowed(args, t.step)
        }),
{
    let inv = |t: Course|
        spared(c, args, t.client) && unheard(args, t.sent) && is_allowed(args, t.step);
    assert forall|u: Course, a: Answer|
        #![trigger answered(u, args, flag, a)]
        inv(u) && fits(args, u.step, a) implies inv(answered(u, args, flag, a)) by {
        lemma_sound(u.client, args, flag, u.step, a);
        lemma_heard(u.sent, told(u.client, args, flag, u.step, a).send);
    }
    lemma_stages(c, args);
    lemma_kept(inv, entered(tick_begun(c, args)), args, flag, answers);
}

/// One more packet is one more packet.
pub(crate) proof fn lemma_heard(sent: Seq<PacketModel>, send: Option<PacketModel>)
    ensures
        send matches Some(p) ==> (chatted(sent.push(p)) <==> chatted(sent) || p is ChatMessage) && (
        swung(sent.push(p)) <==> swung(sent) || p is SwingArm),
{
    if send is Some {
        let p = send.unwrap();
        let all = sent.push(p);
        assert(all[sent.len() as int] == p);
        assert forall|i: int| 0 <= i < sent.len() implies all[i] == #[trigger] sent[i] by {}
        if chatted(sent) {
            let i = choose|i: int| 0 <= i < sent.len() && #[trigger] sent[i] is ChatMessage;
            assert(all[i] is ChatMessage);
        }
        if swung(sent) {
            let i = choose|i: int| 0 <= i < sent.len() && #[trigger] sent[i] is SwingArm;
            assert(all[i] is SwingArm);
        }
        if chatted(all) && !(p is ChatMessage) {
            let i = choose|i: int| 0 <= i < all.len() && #[trigger] all[i] is ChatMessage;
            assert(sent[i] is ChatMessage);
        }
        if swung(all) && !(p is SwingArm) {
            let i = choose|i: int| 0 <= i < all.len() && #[trigger] all[i] is SwingArm;
            assert(sent[i] is SwingArm);
        }
    }
}

/// Whether the packets of a tick come in their order, none of a kind twice, and
/// say where the bot is.
pub open spec fn in_order(sent: Seq<PacketModel>, c: Client, flag: u8) -> bool {
    &&& forall|i: int| 0 <= i < sent.len() ==> rank(#[trigger] sent[i]) <= 2
    &&& forall|i: int, j: int|
        0 <= i < j < sent.len() ==> rank(#[trigger] sent[i]) < rank(#[trigger] sent[j])
    &&& forall|i: int| 0 <= i < sent.len() ==> shows(#[trigger] sent[i], c, flag)
}

/// Whether nothing has been sent yet that comes after what is asked.
spec fn in_time(sent: Seq<PacketModel>, step: TickStep) -> bool {
    forall|i: int| 0 <= i < sent.len() ==> rank(#[trigger] sent[i]) < reached(step)
}

proof fn lemma_in_order(
    flag: u8,
    sent: Seq<PacketModel>,
    before: Client,
    step: TickStep,
    next: TickModel,
)
    requires
        !(step is Done),
        in_order(sent, before, flag),
        in_time(sent, step),
        is_ordered(step, flag, next),
    ensures
        ({
            let all = match next.send {
                Some(p) => sent.push(p),
                None => sent,
            };
            in_order(all, next.client, flag) && in_time(all, next.step)
        }),
{
    assert forall|i: int| 0 <= i < sent.len() implies rank(#[trigger] sent[i]) < reached(step) by {}
    if next.send is Some {
        let all = sent.push(next.send.unwrap());
        assert forall|i: int| 0 <= i < sent.len() implies all[i] == #[trigger] sent[i] by {}
        assert forall|i: int| 0 <= i < all.len() implies rank(#[trigger] all[i]) <= 2
            && rank(all[i]) < reached(next.step) && shows(all[i], next.client, flag) by {
            if i < sent.len() {
                assert(all[i] == sent[i]);
            }
        }
    }
}

/// A tick sends at most one chat message, then at most one swing, then at most
/// one packet about the bot's whereabouts, which carries the bot's final state.
pub proof fn law_tick_order(c: Client, args: Args, flag: u8, answers: Seq<Answer>)
    requires
        all_fit(entered(tick_begun(c, args)), args, flag, answers),
    ensures
        ({
            let t = tick_course(c, args, flag, answers);
            in_order(t.sent, t.client, flag) && t.sent.len() <= 3
        }),
{
    let inv = |t: Course|
        in_order(t.sent, t.client, flag) && in_time(t.sent, t.step) && is_allowed(args, t.step);
    assert forall|u: Course, a: Answer|
        #![trigger answered(u, args, flag, a)]
        inv(u) && fits(args, u.step, a) implies inv(answered(u, args, flag, a)) by {
        let next = told(u.client, args, flag, u.step, a);
        lemma_sound(u.client, args, flag, u.step, a);
        lemma_in_order(flag, u.sent, u.client, u.step, next);
    }
    lemma_stages(c, args);
    lemma_kept(inv, entered(tick_begun(c, args)), args, flag, answers);
    let sent = tick_course(c, args, flag, answers).sent;
    if sent.len() > 3 {
        assert(rank(sent[0]) >= 0);
        assert(rank(sent[0]) < rank(sent[1]));
        assert(rank(sent[1]) < rank(sent[2]));
        assert(rank(sent[2]) < rank(sent[3]));
    }
}

} // verus!
