use bot_client::float::{
    abs_double, abs_single, cap_single, clip_single, le_double, le_single, lt_double, lt_single,
    SINGLE_MINUS_NINETY, SINGLE_NINETY, SINGLE_ONE,
};
use bot_client::tick::{
    AIR_ACCELERATION, AIR_FRICTION, FALL_DRAG, FULL_CIRCLE, GRAVITY, GROUND_ACCELERATION,
    GROUND_SLIP, HALF_CIRCLE, HALF_TURN, JUMP_CHANCE, JUMP_SPEED, MINUS_HALF_CIRCLE,
    MINUS_HALF_TURN, MINUS_REST_PITCH, MINUS_WALK_PITCH, REST_PITCH, SLIGHT, SLIGHT_TURN,
    SWING_CHANCE, THREE, TURN_STEP, TWO, WALK_PITCH,
};

const DOUBLES: [f64; 17] = [
    0.0,
    -0.0,
    1.0,
    -1.0,
    1e-4,
    -1e-4,
    0.42,
    64.0,
    -64.0,
    f64::MIN_POSITIVE,
    5e-324,
    -5e-324,
    f64::MAX,
    f64::MIN,
    f64::INFINITY,
    f64::NEG_INFINITY,
    f64::NAN,
];

const SINGLES: [f32; 17] = [
    0.0,
    -0.0,
    1.0,
    -1.0,
    0.01,
    -0.01,
    90.0,
    -90.0,
    90.5,
    -90.5,
    1e-45,
    -1e-45,
    f32::MAX,
    f32::MIN,
    f32::INFINITY,
    f32::NEG_INFINITY,
    f32::NAN,
];

#[test]
fn doubles_compare_as_the_machine_does() {
    for x in DOUBLES {
        for y in DOUBLES {
            assert_eq!(lt_double(x.to_bits(), y.to_bits()), x < y, "{x} < {y}");
            assert_eq!(le_double(x.to_bits(), y.to_bits()), x <= y, "{x} <= {y}");
        }
    }
    let minus_nan = (-f64::NAN).to_bits();
    assert!(!lt_double(minus_nan, 0));
    assert!(!le_double(minus_nan, minus_nan));
}

#[test]
fn singles_compare_as_the_machine_does() {
    for x in SINGLES {
        for y in SINGLES {
            assert_eq!(lt_single(x.to_bits(), y.to_bits()), x < y, "{x} < {y}");
            assert_eq!(le_single(x.to_bits(), y.to_bits()), x <= y, "{x} <= {y}");
        }
    }
}

#[test]
fn magnitudes_are_the_machines() {
    for x in DOUBLES {
        assert_eq!(abs_double(x.to_bits()), x.abs().to_bits());
    }
    for x in SINGLES {
        assert_eq!(abs_single(x.to_bits()), x.abs().to_bits());
    }
}

#[test]
fn capping_is_the_machines_minimum() {
    for x in SINGLES {
        assert_eq!(cap_single(x.to_bits()), x.min(1.0).to_bits(), "{x}");
    }
}

#[test]
fn clipping_is_the_machines_clamp() {
    for x in SINGLES {
        assert_eq!(clip_single(x.to_bits()), x.clamp(-90.0, 90.0).to_bits(), "{x}");
    }
}

#[test]
fn constants_have_the_bits_of_their_numbers() {
    assert_eq!(SINGLE_ONE, 1.0f32.to_bits());
    assert_eq!(SINGLE_NINETY, 90.0f32.to_bits());
    assert_eq!(SINGLE_MINUS_NINETY, (-90.0f32).to_bits());
    assert_eq!(SWING_CHANCE, 0.01f64.to_bits());
    assert_eq!(JUMP_CHANCE, 0.04f64.to_bits());
    assert_eq!(JUMP_SPEED, 0.42f64.to_bits());
    assert_eq!(GROUND_ACCELERATION, 0.08f64.to_bits());
    assert_eq!(AIR_ACCELERATION, 0.02f64.to_bits());
    assert_eq!(HALF_TURN, std::f64::consts::PI.to_bits());
    assert_eq!(MINUS_HALF_TURN, (-std::f64::consts::PI).to_bits());
    assert_eq!(GRAVITY, 0.08f64.to_bits());
    assert_eq!(FALL_DRAG, 0.98f64.to_bits());
    assert_eq!(AIR_FRICTION, 0.91f64.to_bits());
    assert_eq!(GROUND_SLIP, 0.6f64.to_bits());
    assert_eq!(SLIGHT, 1e-4f64.to_bits());
    assert_eq!(SLIGHT_TURN, 0.01f32.to_bits());
    assert_eq!(TURN_STEP, 0.05f32.to_bits());
    assert_eq!(TWO, 2.0f32.to_bits());
    assert_eq!(THREE, 3.0f32.to_bits());
    assert_eq!(WALK_PITCH, 10.0f32.to_bits());
    assert_eq!(MINUS_WALK_PITCH, (-10.0f32).to_bits());
    assert_eq!(REST_PITCH, 30.0f32.to_bits());
    assert_eq!(MINUS_REST_PITCH, (-30.0f32).to_bits());
    assert_eq!(HALF_CIRCLE, 180.0f32.to_bits());
    assert_eq!(MINUS_HALF_CIRCLE, (-180.0f32).to_bits());
    assert_eq!(FULL_CIRCLE, 360.0f32.to_bits());
}
