use bot_client::args::Args;
use bot_client::client::Client;
use bot_client::packet::{ConnectionState, Packet, Protocol, Serverbound};
use bot_client::term::{DoubleTerm, SingleTerm, Terms, Values};
use bot_client::tick::{
    Gamble, Round, TickStep, Ticked, HALF_TURN, JUMP_CHANCE, MINUS_HALF_TURN, SWING_CHANCE,
};

fn protocol() -> Protocol {
    Protocol {
        version: 776,
        flag_on_ground: 1,
        encryption_request: 1,
        set_compression: 3,
        login_disconnect: 0,
        login_success: 2,
        config_disconnect: 2,
        known_packs: 14,
        config_ping: 5,
        finish_config: 3,
        keep_alive: 43,
        entity_velocity: 99,
        player_position: 70,
        combat_death: 66,
        set_health: 102,
        entity_status: 34,
        respawn: 80,
        login: 48,
        play_disconnect: 32,
    }
}

fn still() -> Args {
    Args {
        ip: String::new(),
        count: 1,
        delay: 200,
        timeout: 5000,
        spam_message: None,
        spam_message_delay_min: 150,
        spam_message_delay_max: 250,
        enable_rotation: false,
        enable_swing: false,
        enable_movement: false,
        enable_jumping: false,
        enable_physics: false,
    }
}

fn lively() -> Args {
    Args {
        spam_message: Some("Please do not spam!".to_string()),
        enable_rotation: true,
        enable_swing: true,
        enable_movement: true,
        enable_jumping: true,
        enable_physics: true,
        ..still()
    }
}

fn active() -> Client {
    Client { connection_state: ConnectionState::Play, is_loaded: true, ..Client::new() }
}

fn d(x: f64) -> u64 {
    x.to_bits()
}

fn s(x: f32) -> u32 {
    x.to_bits()
}

/// Evaluates with `luck` in the place of a random number between 0 and 1.
fn double(t: &DoubleTerm, luck: f64) -> f64 {
    match t {
        DoubleTerm::Lit(bits) => f64::from_bits(*bits),
        DoubleTerm::Sum(x, y) => double(x, luck) + double(y, luck),
        DoubleTerm::Difference(x, y) => double(x, luck) - double(y, luck),
        DoubleTerm::Product(x, y) => double(x, luck) * double(y, luck),
        DoubleTerm::Negated(x) => -double(x, luck),
        DoubleTerm::Sine(x) => double(x, luck).sin(),
        DoubleTerm::Cosine(x) => double(x, luck).cos(),
        DoubleTerm::Uniform { from, to } => {
            let (from, to) = (f64::from_bits(*from), f64::from_bits(*to));
            from + (to - from) * luck
        }
    }
}

fn single(t: &SingleTerm, luck: f64) -> f32 {
    match t {
        SingleTerm::Lit(bits) => f32::from_bits(*bits),
        SingleTerm::Sum(x, y) => single(x, luck) + single(y, luck),
        SingleTerm::Difference(x, y) => single(x, luck) - single(y, luck),
        SingleTerm::Product(x, y) => single(x, luck) * single(y, luck),
        SingleTerm::Remainder(x, y) => single(x, luck) % single(y, luck),
        SingleTerm::Power(x, n) => single(x, luck).powi(*n),
        SingleTerm::Degrees(x) => double(x, luck).to_degrees() as f32,
        SingleTerm::Uniform { from, to } => {
            let (from, to) = (f32::from_bits(*from), f32::from_bits(*to));
            from + (to - from) * luck as f32
        }
    }
}

fn values(terms: &Terms, luck: f64) -> Values {
    Values {
        a: d(double(&terms.a, luck)),
        b: d(double(&terms.b, luck)),
        c: d(double(&terms.c, luck)),
        s: s(single(&terms.s, luck)),
        t: s(single(&terms.t, luck)),
    }
}

fn round(step: &TickStep) -> Round {
    match step {
        TickStep::Evaluate { round, .. } => *round,
        other => panic!("nothing to evaluate: {other:?}"),
    }
}

fn evaluate(c: &mut Client, args: &Args, step: TickStep, luck: f64, count: u32) -> Ticked {
    match step {
        TickStep::Evaluate { round, terms } => {
            let v = values(&terms, luck);
            c.tick_values_with(args, &protocol(), round, v, count)
        }
        other => panic!("nothing to evaluate: {other:?}"),
    }
}

/// Runs a tick to its end and returns what it sent.
fn run(c: &mut Client, args: &Args, luck: f64) -> Vec<Serverbound> {
    let mut out: Vec<Serverbound> = Vec::new();
    let mut step = c.tick(args);
    let mut asked = 0;
    loop {
        let next = match step {
            TickStep::Done => return out,
            TickStep::Clock => c.tick_clock(args, 12_345),
            TickStep::Chance { gamble, probability } => {
                c.tick_chance(args, gamble, luck < f64::from_bits(probability))
            }
            TickStep::Evaluate { round, terms } => {
                let v = values(&terms, luck);
                c.tick_values(args, &protocol(), round, v)
            }
        };
        out.extend(next.send);
        step = next.step;
        asked += 1;
        assert!(asked <= 11);
    }
}

#[test]
fn nothing_happens_outside_of_the_game() {
    for c in [
        Client::new(),
        Client { connection_state: ConnectionState::Config, ..active() },
        Client { is_loaded: false, ..active() },
        Client { is_dead: true, ..active() },
    ] {
        let mut after = c;
        assert_eq!(after.tick(&lively()), TickStep::Done);
        assert_eq!(after, c);
    }
}

#[test]
fn a_still_bot_only_looks_how_far_it_is() {
    let mut c = active();
    let step = c.tick(&still());
    assert_eq!(round(&step), Round::Drift);
    assert_eq!(c, active());
}

#[test]
fn chatting_counts_down() {
    let args = Args { spam_message: Some("hi".to_string()), ..still() };
    let mut c = Client { message_spam_cooldown: 2, ..active() };
    assert_eq!(round(&c.tick(&args)), Round::Drift);
    assert_eq!(c.message_spam_cooldown, 1);
    assert_eq!(round(&c.tick(&args)), Round::Drift);
    assert_eq!(c.message_spam_cooldown, 0);
    assert_eq!(c.tick(&args), TickStep::Clock);
    assert_eq!(c.message_spam_cooldown, 0);
    let told = c.tick_clock_with(&args, 77, 3, -9);
    assert_eq!(
        told.send,
        Some(Packet::ChatMessage {
            message: "hi".to_string(),
            timestamp: 77,
            salt: -9,
            message_count: 0,
            acknowledged: vec![0, 0, 0],
            checksum: 0,
        })
    );
    assert_eq!(round(&told.step), Round::Drift);
    assert_eq!(c.message_spam_cooldown, 3);
    assert_eq!(c.message_count, 1);
}

#[test]
fn a_bot_without_a_message_does_not_count() {
    let mut c = Client { message_spam_cooldown: 0, ..active() };
    assert_eq!(round(&c.tick(&still())), Round::Drift);
    assert_eq!(c.message_spam_cooldown, 0);
}

#[test]
fn delays_between_messages_are_random() {
    let mut seen: Vec<u32> = Vec::new();
    for _ in 0..200 {
        let mut c = Client { message_spam_cooldown: 0, ..active() };
        let told = c.tick_clock(&lively(), 5);
        match told.send {
            Some(Packet::ChatMessage { message, timestamp, .. }) => {
                assert_eq!(message, "Please do not spam!");
                assert_eq!(timestamp, 5);
            }
            other => panic!("no message: {other:?}"),
        }
        assert!(c.message_spam_cooldown >= 150 && c.message_spam_cooldown < 250);
        seen.push(c.message_spam_cooldown);
    }
    seen.sort();
    seen.dedup();
    assert!(seen.len() > 1);
}

#[test]
fn luck_and_values_leave_the_chat_alone() {
    let args = lively();
    let mut c = Client { message_spam_cooldown: 9, message_count: 4, ..active() };
    let swung = c.tick_chance(&args, Gamble::Swing, true);
    assert_eq!(swung.send, Some(Packet::SwingArm { hand: 0 }));
    let mut step = swung.step;
    while step != TickStep::Done {
        let next = match step {
            TickStep::Chance { gamble, .. } => c.tick_chance(&args, gamble, true),
            TickStep::Evaluate { round, terms } => {
                let v = values(&terms, 0.5);
                c.tick_values(&args, &protocol(), round, v)
            }
            other => panic!("no part of the rest of a tick: {other:?}"),
        };
        assert!(!matches!(next.send, Some(Packet::ChatMessage { .. })));
        step = next.step;
    }
    assert_eq!(c.message_spam_cooldown, 9);
    assert_eq!(c.message_count, 4);
}

#[test]
fn an_arm_is_swung_with_luck() {
    let args = Args { enable_swing: true, ..still() };
    let mut c = active();
    assert_eq!(
        c.tick(&args),
        TickStep::Chance { gamble: Gamble::Swing, probability: SWING_CHANCE }
    );
    let mut unlucky = c;
    let missed = unlucky.tick_chance_with(&args, Gamble::Swing, false, 25, 0);
    assert_eq!(missed.send, None);
    assert_eq!(round(&missed.step), Round::Drift);
    assert_eq!(unlucky, c);
    let hit = c.tick_chance_with(&args, Gamble::Swing, true, 25, 0);
    assert_eq!(hit.send, Some(Packet::SwingArm { hand: 0 }));
    assert_eq!(c.swing_cooldown, 25);
    assert_eq!(round(&c.tick(&args)), Round::Drift);
    assert_eq!(c.swing_cooldown, 24);
}

#[test]
fn swings_are_at_random_distances() {
    for _ in 0..100 {
        let mut c = active();
        c.tick_chance(&lively(), Gamble::Swing, true);
        assert!(c.swing_cooldown >= 20 && c.swing_cooldown < 40);
    }
}

#[test]
fn a_rest_counts_down_to_a_walk() {
    let args = Args { enable_movement: true, ..still() };
    let mut c = active();
    c.walk.move_cooldown = 1;
    c.walk.jump_cooldown = 2;
    assert_eq!(round(&c.tick(&args)), Round::Drift);
    assert_eq!(c.walk.move_cooldown, 0);
    assert_eq!(c.walk.jump_cooldown, 1);
    let step = c.tick(&args);
    match &step {
        TickStep::Evaluate { round: Round::Heading, terms } => assert_eq!(
            terms.a,
            DoubleTerm::Uniform { from: MINUS_HALF_TURN, to: HALF_TURN }
        ),
        other => panic!("no heading: {other:?}"),
    }
    let bearing = evaluate(&mut c, &args, step, 0.75, 0);
    assert_eq!(round(&bearing.step), Round::Bearing);
    let after = evaluate(&mut c, &args, bearing.step, 0.75, 44);
    assert_eq!(round(&after.step), Round::Drift);
    let angle = std::f64::consts::FRAC_PI_2;
    assert!(c.walk.is_walking);
    assert_eq!(c.walk.move_ticks, 44);
    assert_eq!(c.walk.dir_x, d(-angle.sin()));
    assert_eq!(c.walk.dir_z, d(angle.cos()));
    assert_eq!(c.walk.jump_cooldown, 0);
    assert_eq!(c.look, active().look);
}

#[test]
fn a_bot_turns_to_where_it_walks() {
    let args = Args { enable_movement: true, enable_rotation: true, ..still() };
    let mut c = active();
    c.look.yaw = s(5.0);
    c.look.pitch = s(6.0);
    c.look.cooldown = 3;
    let step = c.tick(&args);
    let bearing = evaluate(&mut c, &args, step, 0.75, 0);
    let turning = evaluate(&mut c, &args, bearing.step, 0.75, 20);
    assert_eq!(c.look.start_yaw, s(5.0));
    assert_eq!(c.look.start_pitch, s(6.0));
    assert_eq!(c.look.target_yaw, s(90.0));
    assert_eq!(c.look.target_pitch, s(5.0));
    assert_eq!(c.look.progress, 0);
    assert_eq!(c.look.cooldown, 3);
    assert_eq!(round(&turning.step), Round::Ramp);
}

#[test]
fn a_step_adds_to_the_speed() {
    let args = Args { enable_movement: true, ..still() };
    for (on_ground, accel) in [(true, 0.08f64), (false, 0.02f64)] {
        let mut c = active();
        c.walk.is_walking = true;
        c.walk.move_ticks = 5;
        c.walk.dir_x = d(0.6);
        c.walk.dir_z = d(-0.8);
        c.body.velocity_x = d(0.1);
        c.body.velocity_z = d(0.2);
        c.body.on_ground = on_ground;
        let step = c.tick(&args);
        assert_eq!(round(&step), Round::Stride { last: false });
        evaluate(&mut c, &args, step, 0.0, 50);
        assert_eq!(c.walk.move_ticks, 4);
        assert!(c.walk.is_walking);
        assert_eq!(c.body.velocity_x, d(0.1 + 0.6 * accel));
        assert_eq!(c.body.velocity_z, d(0.2 + -0.8 * accel));
    }
}

#[test]
fn the_last_step_ends_the_walk() {
    let args = Args { enable_movement: true, ..still() };
    for ticks in [1u32, 0] {
        let mut c = active();
        c.walk.is_walking = true;
        c.walk.move_ticks = ticks;
        let step = c.tick(&args);
        assert_eq!(round(&step), Round::Stride { last: true });
        evaluate(&mut c, &args, step, 0.0, 50);
        assert_eq!(c.walk.move_ticks, ticks.wrapping_sub(1));
        assert!(!c.walk.is_walking);
        assert_eq!(c.walk.move_cooldown, 50);
    }
}

#[test]
fn a_walking_bot_jumps_with_luck() {
    let args = Args { enable_movement: true, enable_jumping: true, ..still() };
    let mut c = active();
    c.walk.is_walking = true;
    c.walk.move_ticks = 5;
    let step = c.tick(&args);
    let asked = evaluate(&mut c, &args, step, 0.0, 50);
    assert_eq!(
        asked.step,
        TickStep::Chance { gamble: Gamble::Jump { last: false }, probability: JUMP_CHANCE }
    );
    let mut unlucky = c;
    unlucky.tick_chance_with(&args, Gamble::Jump { last: false }, false, 30, 60);
    assert_eq!(unlucky, c);
    c.tick_chance_with(&args, Gamble::Jump { last: false }, true, 30, 60);
    assert_eq!(c.body.velocity_y, d(0.42));
    assert!(!c.body.on_ground);
    assert_eq!(c.walk.jump_cooldown, 30);
    assert!(c.walk.is_walking);

    let step = c.tick(&args);
    let after = evaluate(&mut c, &args, step, 0.0, 50);
    assert_eq!(round(&after.step), Round::Drift);
    assert_eq!(c.walk.jump_cooldown, 29);
}

#[test]
fn a_jump_can_be_the_last_step() {
    let args = Args { enable_movement: true, enable_jumping: true, ..still() };
    let mut c = active();
    c.walk.is_walking = true;
    c.tick_chance_with(&args, Gamble::Jump { last: true }, true, 30, 60);
    assert!(!c.walk.is_walking);
    assert_eq!(c.walk.move_cooldown, 60);
    assert_eq!(c.walk.jump_cooldown, 30);
    for _ in 0..100 {
        let mut c = active();
        c.tick_chance(&args, Gamble::Jump { last: true }, true);
        assert!(c.walk.jump_cooldown >= 15 && c.walk.jump_cooldown < 40);
        assert!(c.walk.move_cooldown >= 20 && c.walk.move_cooldown < 80);
    }
}

#[test]
fn nobody_jumps_in_the_air() {
    let args = Args { enable_movement: true, enable_jumping: true, ..still() };
    let mut c = active();
    c.walk.is_walking = true;
    c.walk.move_ticks = 5;
    c.body.on_ground = false;
    let step = c.tick(&args);
    let after = evaluate(&mut c, &args, step, 0.0, 50);
    assert_eq!(round(&after.step), Round::Drift);
    assert_eq!(c.walk.jump_cooldown, 0);
}

#[test]
fn a_resting_bot_looks_somewhere_else() {
    let args = Args { enable_rotation: true, ..still() };
    let mut c = active();
    c.look.cooldown = 1;
    assert_eq!(round(&c.tick(&args)), Round::Drift);
    assert_eq!(c.look.cooldown, 0);
    let step = c.tick(&args);
    assert_eq!(round(&step), Round::Gaze);
    let after = evaluate(&mut c, &args, step, 0.25, 66);
    assert_eq!(round(&after.step), Round::Drift);
    assert_eq!(c.look.target_yaw, s(-90.0));
    assert_eq!(c.look.target_pitch, s(-15.0));
    assert_eq!(c.look.progress, 0);
    assert_eq!(c.look.cooldown, 66);
}

#[test]
fn a_walking_bot_keeps_looking_ahead() {
    let args = Args { enable_rotation: true, ..still() };
    let mut c = active();
    c.walk.is_walking = true;
    let before = c;
    assert_eq!(round(&c.tick(&args)), Round::Drift);
    assert_eq!(c, before);
}

#[test]
fn draws_of_a_round_stay_in_their_ranges() {
    let zero = Values { a: 0, b: 0, c: 0, s: 0, t: 0 };
    for _ in 0..100 {
        let mut c = active();
        c.tick_values(&lively(), &protocol(), Round::Bearing, zero);
        assert!(c.walk.move_ticks >= 20 && c.walk.move_ticks < 60);
        let mut c = active();
        c.tick_values(&lively(), &protocol(), Round::Gaze, zero);
        assert!(c.look.cooldown >= 40 && c.look.cooldown < 100);
        let mut c = active();
        c.tick_values(&still(), &protocol(), Round::Stride { last: true }, zero);
        assert!(c.walk.move_cooldown >= 20 && c.walk.move_cooldown < 80);
    }
}

fn turn(c: &mut Client) {
    let args = Args { enable_rotation: true, ..still() };
    let step = c.tick(&args);
    assert_eq!(round(&step), Round::Ramp);
    let ease = evaluate(c, &args, step, 0.0, 0);
    assert_eq!(round(&ease.step), Round::Ease);
    let facing = evaluate(c, &args, ease.step, 0.0, 0);
    assert_eq!(round(&facing.step), Round::Facing);
    let after = evaluate(c, &args, facing.step, 0.0, 0);
    assert_eq!(round(&after.step), Round::Drift);
}

fn turning(from: f32, to: f32, progress: f32) -> Client {
    let mut c = active();
    c.look.start_yaw = s(from);
    c.look.start_pitch = s(10.0);
    c.look.target_yaw = s(to);
    c.look.target_pitch = s(-20.0);
    c.look.progress = s(progress);
    c
}

#[test]
fn a_turn_is_eased() {
    let mut c = turning(10.0, 50.0, 0.45);
    turn(&mut c);
    let p = 0.45f32 + 0.05;
    let t = 3.0 * p.powi(2) - 2.0 * p.powi(3);
    assert_eq!(c.look.progress, s(p));
    assert_eq!(c.look.yaw, s((10.0 + 40.0 * t) % 360.0));
    assert_eq!(c.look.pitch, s(10.0 + -30.0 * t));
    assert_eq!(f32::from_bits(c.look.yaw), 30.0);
    assert_eq!(f32::from_bits(c.look.pitch), -5.0);
}

#[test]
fn a_turn_goes_the_shorter_way_round() {
    let mut c = turning(170.0, -170.0, 0.45);
    turn(&mut c);
    assert_eq!(f32::from_bits(c.look.yaw), 180.0);
    let mut c = turning(-170.0, 170.0, 0.45);
    turn(&mut c);
    assert_eq!(f32::from_bits(c.look.yaw), -180.0);
    let mut c = turning(0.0, 180.0, 0.45);
    turn(&mut c);
    assert_eq!(f32::from_bits(c.look.yaw), 90.0);
}

#[test]
fn a_turn_ends_at_its_target() {
    let mut c = turning(10.0, 50.0, 0.99);
    turn(&mut c);
    assert_eq!(f32::from_bits(c.look.progress), 1.0);
    assert_eq!(f32::from_bits(c.look.yaw), 50.0);
    assert_eq!(f32::from_bits(c.look.pitch), -20.0);
}

#[test]
fn no_bot_looks_past_straight_down() {
    let mut c = turning(0.0, 0.0, 0.99);
    c.look.target_pitch = s(500.0);
    turn(&mut c);
    assert_eq!(f32::from_bits(c.look.pitch), 90.0);
    let mut c = turning(0.0, 0.0, 0.99);
    c.look.target_pitch = s(-500.0);
    turn(&mut c);
    assert_eq!(f32::from_bits(c.look.pitch), -90.0);
}

fn fall(c: &mut Client) {
    let args = Args { enable_physics: true, ..still() };
    let step = c.tick(&args);
    assert_eq!(round(&step), Round::Velocity);
    let position = evaluate(c, &args, step, 0.0, 0);
    assert_eq!(round(&position.step), Round::Position);
    let after = evaluate(c, &args, position.step, 0.0, 0);
    assert_eq!(round(&after.step), Round::Drift);
}

#[test]
fn a_bot_in_the_air_falls() {
    let mut c = active();
    c.body.x = d(1.0);
    c.body.y = d(10.0);
    c.body.on_ground = false;
    c.body.velocity_x = d(0.3);
    c.body.velocity_y = d(0.42);
    c.body.velocity_z = d(-0.2);
    fall(&mut c);
    let vy = (0.42 - 0.08) * 0.98;
    assert_eq!(c.body.velocity_x, d(0.3 * 0.91));
    assert_eq!(c.body.velocity_y, d(vy));
    assert_eq!(c.body.velocity_z, d(-0.2 * 0.91));
    assert_eq!(c.body.x, d(1.0 + 0.3 * 0.91));
    assert_eq!(c.body.y, d(10.0 + vy));
    assert_eq!(c.body.z, d(-0.2 * 0.91));
    assert!(!c.body.on_ground);
}

#[test]
fn a_bot_on_the_ground_slows_down() {
    let mut c = active();
    c.body.y = d(5.0);
    c.body.ground_y = d(5.0);
    c.body.velocity_x = d(1.0);
    c.body.velocity_y = d(-3.0);
    c.body.velocity_z = d(0.0001);
    fall(&mut c);
    assert_eq!(c.body.velocity_x, d(0.6 * 0.91));
    assert_eq!(c.body.velocity_y, 0);
    assert_eq!(c.body.velocity_z, 0);
    assert_eq!(c.body.y, d(5.0));
    assert!(c.body.on_ground);
}

#[test]
fn the_ground_stops_a_fall() {
    let mut c = active();
    c.body.y = d(5.05);
    c.body.ground_y = d(5.0);
    c.body.on_ground = false;
    fall(&mut c);
    assert_eq!(c.body.y, d(5.0));
    assert_eq!(c.body.velocity_y, 0);
    assert!(c.body.on_ground);
}

#[test]
fn slight_falling_still_counts() {
    let mut c = active();
    c.body.y = d(5.0);
    c.body.on_ground = false;
    c.body.velocity_y = d(0.08 + 1e-6);
    fall(&mut c);
    assert!(f64::from_bits(c.body.velocity_y) > 0.0);
    assert!(f64::from_bits(c.body.velocity_y) < 1e-4);
}

#[test]
fn a_move_and_a_turn_are_told_together() {
    let mut c = active();
    c.body.x = d(1.5);
    c.body.z = d(-2.5);
    c.look.yaw = s(33.0);
    c.look.pitch = s(4.0);
    c.last_sent.ticks = 7;
    assert_eq!(
        run(&mut c, &still(), 0.5),
        vec![Packet::PlayerPositionRotation {
            x: d(1.5),
            y: 0,
            z: d(-2.5),
            yaw: s(33.0),
            pitch: s(4.0),
            collision: 1,
        }]
    );
    assert_eq!(c.last_sent.x, d(1.5));
    assert_eq!(c.last_sent.z, d(-2.5));
    assert_eq!(c.last_sent.yaw, s(33.0));
    assert_eq!(c.last_sent.pitch, s(4.0));
    assert_eq!(c.last_sent.ticks, 0);
}

#[test]
fn a_move_alone_is_told() {
    for axis in 0..3 {
        let mut c = active();
        match axis {
            0 => c.body.x = d(0.01),
            1 => c.body.y = d(0.01),
            _ => c.body.z = d(0.01),
        }
        c.body.on_ground = false;
        c.look.yaw = s(0.01);
        assert_eq!(
            run(&mut c, &still(), 0.5),
            vec![Packet::PlayerPosition { x: c.body.x, y: c.body.y, z: c.body.z, collision: 0 }]
        );
    }
}

#[test]
fn a_turn_alone_is_told() {
    let mut c = active();
    c.body.x = d(1e-4);
    c.look.pitch = s(-0.02);
    assert_eq!(
        run(&mut c, &still(), 0.5),
        vec![Packet::PlayerRotation { yaw: 0, pitch: s(-0.02), ground: true }]
    );
}

#[test]
fn leaving_the_ground_is_told() {
    let mut c = active();
    c.body.on_ground = false;
    assert_eq!(run(&mut c, &still(), 0.5), vec![Packet::SetPlayerGround { on_ground: false }]);
    assert!(!c.last_sent.on_ground);
    assert_eq!(run(&mut c, &still(), 0.5), vec![]);
}

#[test]
fn a_bot_that_stays_says_so_now_and_then() {
    let mut c = active();
    for _ in 0..3 {
        for ticks in 1..21 {
            assert_eq!(run(&mut c, &still(), 0.5), vec![]);
            assert_eq!(c.last_sent.ticks, ticks);
        }
        assert_eq!(run(&mut c, &still(), 0.5), vec![Packet::SetPlayerGround { on_ground: true }]);
        assert_eq!(c.last_sent.ticks, 0);
    }
}

#[test]
fn slow_drift_is_never_told_as_a_move() {
    let mut c = active();
    for _ in 0..10 {
        c.body.x = d(f64::from_bits(c.body.x) + 0.9e-4);
        assert_eq!(run(&mut c, &still(), 0.5), vec![]);
    }
    assert_eq!(c.last_sent.x, c.body.x);
}

#[test]
fn a_placed_bot_has_nothing_to_tell() {
    let mut c = active();
    c.handle_decoded_with(
        bot_client::receive::Decoded::PlayerPosition {
            teleport_id: 1,
            x: d(10.0),
            y: d(64.0),
            z: d(20.0),
            delta_x: 0,
            delta_y: 0,
            delta_z: 0,
            yaw: s(90.0),
            pitch: 0,
        },
        20,
    );
    assert_eq!(run(&mut c, &still(), 0.5), vec![]);
    let args = Args { enable_physics: true, ..still() };
    assert_eq!(run(&mut c, &args, 0.5), vec![]);
}

#[test]
fn a_long_life_stays_in_bounds() {
    let args = lively();
    let mut c = active();
    let mut told: Vec<Serverbound> = Vec::new();
    for i in 0..3000u32 {
        let luck = f64::from((i * 37) % 101) / 101.0;
        told.extend(run(&mut c, &args, luck));
        assert!(c.message_spam_cooldown < 250);
        assert!(c.swing_cooldown < 40);
        assert!(c.walk.jump_cooldown < 40);
        assert!(c.walk.move_cooldown < 80);
        assert!(c.walk.move_ticks < 60);
        assert!(!c.walk.is_walking || c.walk.move_ticks >= 1);
        assert!(c.look.cooldown < 100);
        assert!(c.last_sent.ticks <= 20);
        assert!(f64::from_bits(c.body.y) >= 0.0);
        assert!(f32::from_bits(c.look.progress) <= 1.0);
        assert!(f32::from_bits(c.look.pitch).abs() <= 90.0);
    }
    assert!(told.iter().any(|p| matches!(p, Packet::ChatMessage { .. })));
    assert!(told.iter().any(|p| matches!(p, Packet::SwingArm { hand: 0 })));
    assert!(told.iter().any(|p| matches!(p, Packet::PlayerPosition { .. })));
    assert!(told.iter().any(|p| matches!(p, Packet::PlayerRotation { .. })));
    assert!(told.iter().any(|p| matches!(p, Packet::PlayerPosition { collision: 0, .. })
        || matches!(p, Packet::PlayerPositionRotation { collision: 0, .. })));
}

#[test]
fn the_dead_do_not_tick() {
    let mut c = active();
    c.body.velocity_x = d(1.0);
    c.respawn();
    let dead = c;
    assert_eq!(run(&mut c, &lively(), 0.0), vec![]);
    assert_eq!(c, dead);
}

#[test]
fn a_switched_off_pastime_leaves_its_things_alone() {
    let mut c = Client { message_spam_cooldown: 0, ..active() };
    c.body.velocity_x = d(0.3);
    c.walk.is_walking = true;
    c.look.progress = 0;
    let before = c;
    for i in 0..30 {
        run(&mut c, &still(), f64::from(i) / 30.0);
    }
    assert_eq!(c.message_spam_cooldown, before.message_spam_cooldown);
    assert_eq!(c.message_count, before.message_count);
    assert_eq!(c.swing_cooldown, before.swing_cooldown);
    assert_eq!(c.walk, before.walk);
    assert_eq!(c.look, before.look);
    assert_eq!(c.body, before.body);
}

#[test]
fn a_tick_sends_chat_then_swing_then_whereabouts() {
    let mut c = Client { message_spam_cooldown: 0, ..active() };
    c.body.x = d(7.0);
    let sent = run(&mut c, &lively(), 0.0);
    assert_eq!(sent.len(), 3);
    assert!(matches!(sent[0], Packet::ChatMessage { .. }));
    assert!(matches!(sent[1], Packet::SwingArm { hand: 0 }));
    match &sent[2] {
        Packet::PlayerPositionRotation { x, y, z, yaw, pitch, collision } => {
            assert_eq!((*x, *y, *z), (c.body.x, c.body.y, c.body.z));
            assert_eq!((*yaw, *pitch), (c.look.yaw, c.look.pitch));
            assert_eq!(*collision, if c.body.on_ground { 1 } else { 0 });
        }
        other => panic!("not the whereabouts: {other:?}"),
    }
}

#[test]
fn a_walk_takes_its_ticks_and_a_rest_its_own() {
    let args = Args { enable_movement: true, enable_jumping: true, ..still() };
    let mut c = active();
    for _ in 0..5 {
        run(&mut c, &args, 0.9);
        assert!(c.walk.is_walking);
        let n = c.walk.move_ticks;
        assert!(n >= 20 && n < 60);
        for _ in 1..n {
            run(&mut c, &args, 0.9);
            assert!(c.walk.is_walking);
        }
        run(&mut c, &args, 0.9);
        assert!(!c.walk.is_walking);
        let m = c.walk.move_cooldown;
        assert!(m >= 20 && m < 80);
        for _ in 0..m {
            run(&mut c, &args, 0.9);
            assert!(!c.walk.is_walking);
        }
    }
}

#[test]
fn swings_are_at_least_twenty_ticks_apart() {
    let args = Args { enable_swing: true, ..still() };
    let mut c = active();
    let mut last: Option<u32> = None;
    let mut swings = 0;
    for i in 0..500u32 {
        let sent = run(&mut c, &args, 0.0);
        if sent.contains(&Packet::SwingArm { hand: 0 }) {
            if let Some(before) = last {
                assert!(i - before > 20);
            }
            last = Some(i);
            swings += 1;
        }
    }
    assert!(swings > 10);
}

#[test]
fn a_bot_at_rest_stays_at_rest() {
    let mut c = active();
    c.body.x = d(12.25);
    c.body.y = d(64.0);
    c.body.z = d(-3.5);
    c.body.ground_y = d(64.0);
    let before = c;
    for _ in 0..5 {
        fall(&mut c);
        assert_eq!(c.body, before.body);
    }
    c.body.x = d(-0.0);
    c.body.velocity_z = d(-0.0);
    fall(&mut c);
    assert_eq!(f64::from_bits(c.body.x), 0.0);
    assert_eq!(c.body.velocity_z, 0);
}

#[test]
fn a_turn_is_done_within_its_ticks() {
    let mut c = turning(350.0, -20.0, 0.0);
    let mut ticks = 0;
    while f32::from_bits(c.look.progress) != 1.0 {
        let before = f32::from_bits(c.look.progress);
        turn(&mut c);
        ticks += 1;
        assert!(f32::from_bits(c.look.progress) > before);
        assert!(f32::from_bits(c.look.progress) <= 1.0);
        assert!(f32::from_bits(c.look.yaw).abs() < 360.0);
        assert!(f32::from_bits(c.look.pitch).abs() <= 90.0);
    }
    assert!(ticks <= bot_client::motion::TURN_TICKS);
    assert_eq!(f32::from_bits(c.look.yaw), 340.0);
    assert_eq!(f32::from_bits(c.look.pitch), -20.0);
}

#[test]
fn stages_can_be_entered_one_by_one() {
    let mut c = Client { swing_cooldown: 3, ..active() };
    assert_eq!(round(&c.tick_swing(&Args { enable_swing: true, ..still() })), Round::Drift);
    assert_eq!(c.swing_cooldown, 2);
    assert_eq!(
        round(&c.tick_movement_ai(&Args { enable_movement: true, ..still() })),
        Round::Heading
    );
    assert_eq!(round(&c.tick_rotation(&Args { enable_rotation: true, ..still() })), Round::Gaze);
    assert_eq!(round(&c.tick_physics(&Args { enable_physics: true, ..still() })), Round::Velocity);
    let zero = Values { a: 0, b: 0, c: 0, s: 0, t: 0 };
    assert_eq!(c.sync_movement(&protocol(), zero), None);
    assert_eq!(c.last_sent.ticks, 1);
}

#[test]
fn chat_keeps_its_delay_through_whole_ticks() {
    let args = lively();
    let mut c = Client { message_spam_cooldown: 0, message_count: 8, ..active() };
    for number in 8..12 {
        let sent = run(&mut c, &args, 0.5);
        match &sent[0] {
            Packet::ChatMessage { message, message_count, .. } => {
                assert_eq!(message, "Please do not spam!");
                assert_eq!(*message_count, number);
            }
            other => panic!("no message: {other:?}"),
        }
        assert!(!sent[1..].iter().any(|p| matches!(p, Packet::ChatMessage { .. })));
        let delay = c.message_spam_cooldown;
        assert!(delay >= 150 && delay < 250);
        for left in (0..delay).rev() {
            let sent = run(&mut c, &args, 0.5);
            assert!(!sent.iter().any(|p| matches!(p, Packet::ChatMessage { .. })));
            assert_eq!(c.message_spam_cooldown, left);
        }
    }
}
