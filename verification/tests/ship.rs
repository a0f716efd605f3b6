use arwing::ship::{
    normalize_rotation, rotate_arwing, rotation_to_movement, Decay, Ship, Steering, MAX_BOTTOM,
    MAX_LEFT, MAX_RIGHT, MAX_ROT_X, MAX_ROT_Z, MAX_TOP, NORMALIZE_FACTOR, ROTATION_SPEED, SPEED,
};

const REST: Steering = Steering { up: false, down: false, right: false, left: false };

fn ship(x: i64, y: i64, pitch: i64, roll: i64) -> Ship {
    Ship::at(x, y, pitch, roll).expect("a state inside the corridor and the clamps")
}

fn state(ship: &Ship) -> (i64, i64, i64, i64) {
    (ship.x(), ship.y(), ship.pitch(), ship.roll())
}

#[test]
fn constants_are_the_game_s() {
    assert_eq!(ROTATION_SPEED, 1_500_000);
    assert_eq!(MAX_ROT_X, 400_000);
    assert_eq!(MAX_ROT_Z, 700_000);
    assert_eq!(SPEED, 5);
    assert_eq!(MAX_TOP, 700_000);
    assert_eq!(MAX_BOTTOM, -1_500_000);
    assert_eq!(MAX_LEFT, -1_700_000);
    assert_eq!(MAX_RIGHT, 1_700_000);
    assert_eq!(NORMALIZE_FACTOR, 200_000);
}

#[test]
fn new_ship_is_at_rest_in_the_middle() {
    assert_eq!(state(&Ship::new()), (0, 0, 0, 0));
    assert_eq!(Ship::new(), ship(0, 0, 0, 0));
}

#[test]
fn ship_at_takes_every_corner_of_its_bounds() {
    assert_eq!(
        state(&ship(MAX_LEFT, MAX_BOTTOM, -MAX_ROT_X, -MAX_ROT_Z)),
        (-1_700_000, -1_500_000, -400_000, -700_000)
    );
    assert_eq!(
        state(&ship(MAX_RIGHT, MAX_TOP, MAX_ROT_X, MAX_ROT_Z)),
        (1_700_000, 700_000, 400_000, 700_000)
    );
}

#[test]
fn ship_at_refuses_what_is_outside() {
    assert!(Ship::at(MAX_LEFT - 1, 0, 0, 0).is_none());
    assert!(Ship::at(MAX_RIGHT + 1, 0, 0, 0).is_none());
    assert!(Ship::at(0, MAX_BOTTOM - 1, 0, 0).is_none());
    assert!(Ship::at(0, MAX_TOP + 1, 0, 0).is_none());
    assert!(Ship::at(0, 0, -MAX_ROT_X - 1, 0).is_none());
    assert!(Ship::at(0, 0, MAX_ROT_X + 1, 0).is_none());
    assert!(Ship::at(0, 0, 0, -MAX_ROT_Z - 1).is_none());
    assert!(Ship::at(0, 0, 0, MAX_ROT_Z + 1).is_none());
    assert!(Ship::at(i64::MIN, i64::MAX, i64::MIN, i64::MAX).is_none());
}

#[test]
fn up_key_raises_pitch() {
    let mut ship = Ship::new();
    rotate_arwing(&mut ship, Steering { up: true, ..REST }, 100_000);
    assert_eq!(state(&ship), (0, 0, 150_000, 0));
}

#[test]
fn down_key_lowers_pitch() {
    let mut ship = Ship::new();
    rotate_arwing(&mut ship, Steering { down: true, ..REST }, 100_000);
    assert_eq!(state(&ship), (0, 0, -150_000, 0));
}

#[test]
fn right_key_raises_roll() {
    let mut ship = Ship::new();
    rotate_arwing(&mut ship, Steering { right: true, ..REST }, 200_000);
    assert_eq!(state(&ship), (0, 0, 0, 300_000));
}

#[test]
fn left_key_lowers_roll() {
    let mut ship = Ship::new();
    rotate_arwing(&mut ship, Steering { left: true, ..REST }, 200_000);
    assert_eq!(state(&ship), (0, 0, 0, -300_000));
}

#[test]
fn no_key_leaves_the_ship_alone() {
    let mut it = ship(5, -7, 123, -456);
    rotate_arwing(&mut it, REST, 1_000_000);
    assert_eq!(state(&it), (5, -7, 123, -456));
}

#[test]
fn no_time_leaves_the_ship_alone() {
    let mut it = ship(5, -7, 123, -456);
    rotate_arwing(&mut it, Steering { up: true, down: false, right: true, left: false }, 0);
    rotation_to_movement(&mut it, 0);
    assert_eq!(state(&it), (5, -7, 123, -456));
}

#[test]
fn a_turn_is_rounded_towards_zero() {
    // One and a half millionths a microsecond: 333 333 microseconds give 499 999.5.
    let mut ship = Ship::new();
    rotate_arwing(&mut ship, Steering { right: true, ..REST }, 333_333);
    assert_eq!(ship.roll(), 499_999);
    let mut ship = Ship::new();
    rotate_arwing(&mut ship, Steering { left: true, ..REST }, 333_333);
    assert_eq!(ship.roll(), -499_999);
    let mut ship = Ship::new();
    rotate_arwing(&mut ship, Steering { up: true, ..REST }, 1);
    assert_eq!(ship.pitch(), 1);
}

#[test]
fn rotation_stops_at_the_clamps() {
    let mut ship = Ship::new();
    rotate_arwing(&mut ship, Steering { up: true, down: false, right: true, left: false }, 1_000_000);
    assert_eq!(state(&ship), (0, 0, 400_000, 700_000));
    let mut ship = Ship::new();
    rotate_arwing(&mut ship, Steering { up: false, down: true, right: false, left: true }, 1_000_000);
    assert_eq!(state(&ship), (0, 0, -400_000, -700_000));
}

#[test]
fn rotation_reaches_the_clamp_exactly() {
    let mut it = ship(0, 0, 399_999, 699_997);
    rotate_arwing(&mut it, Steering { up: true, down: false, right: true, left: false }, 2);
    assert_eq!(state(&it), (0, 0, 400_000, 700_000));
}

#[test]
fn opposite_keys_cancel_away_from_the_clamps() {
    let mut ship = Ship::new();
    rotate_arwing(&mut ship, Steering { up: true, down: true, right: true, left: true }, 100_000);
    assert_eq!(state(&ship), (0, 0, 0, 0));
}

#[test]
fn opposite_keys_raise_first_and_lower_last() {
    // Raised to the clamp and then lowered by the full turn.
    let mut it = ship(0, 0, 300_000, 600_000);
    rotate_arwing(&mut it, Steering { up: true, down: true, right: true, left: true }, 200_000);
    assert_eq!(state(&it), (0, 0, 100_000, 400_000));
    let mut it = Ship::new();
    rotate_arwing(&mut it, Steering { up: true, down: true, right: true, left: true }, 1_000_000);
    assert_eq!(state(&it), (0, 0, -400_000, -700_000));
}

#[test]
fn the_longest_frame_does_not_overflow() {
    let mut it = ship(0, 0, -400_000, -700_000);
    rotate_arwing(&mut it, Steering { up: true, down: false, right: true, left: false }, u64::MAX);
    assert_eq!(state(&it), (0, 0, 400_000, 700_000));
    rotation_to_movement(&mut it, u64::MAX);
    assert_eq!(state(&it), (MAX_LEFT, MAX_BOTTOM, 400_000, 700_000));
    let mut it = ship(0, 0, -400_000, -700_000);
    rotation_to_movement(&mut it, u64::MAX);
    assert_eq!(state(&it), (MAX_RIGHT, MAX_TOP, -400_000, -700_000));
}

#[test]
fn roll_moves_the_ship_across() {
    let mut it = ship(0, 0, 0, 700_000);
    rotation_to_movement(&mut it, 100_000);
    assert_eq!(state(&it), (-350_000, 0, 0, 700_000));
    let mut it = ship(100_000, 0, 0, -200_000);
    rotation_to_movement(&mut it, 500_000);
    assert_eq!(state(&it), (600_000, 0, 0, -200_000));
}

#[test]
fn pitch_moves_the_ship_up_and_down() {
    let mut it = ship(0, 0, 400_000, 0);
    rotation_to_movement(&mut it, 100_000);
    assert_eq!(state(&it), (0, -200_000, 400_000, 0));
    let mut it = ship(0, -100_000, -100_000, 0);
    rotation_to_movement(&mut it, 1_000_000);
    assert_eq!(state(&it), (0, 400_000, -100_000, 0));
}

#[test]
fn movement_is_rounded_towards_zero() {
    // Three millionths of roll for a tenth of a second: 1.5 millionths.
    let mut it = ship(0, 0, 3, 3);
    rotation_to_movement(&mut it, 100_000);
    assert_eq!(state(&it), (-1, -1, 3, 3));
    let mut it = ship(0, 0, -3, -3);
    rotation_to_movement(&mut it, 100_000);
    assert_eq!(state(&it), (1, 1, -3, -3));
    let mut it = ship(0, 0, -1, 1);
    rotation_to_movement(&mut it, 100_000);
    assert_eq!(state(&it), (0, 0, -1, 1));
}

#[test]
fn the_corridor_stops_the_ship() {
    let mut it = ship(-1_600_000, -1_400_000, 400_000, 700_000);
    rotation_to_movement(&mut it, 1_000_000);
    assert_eq!(state(&it), (-1_700_000, -1_500_000, 400_000, 700_000));
    let mut it = ship(1_600_000, 600_000, -400_000, -700_000);
    rotation_to_movement(&mut it, 1_000_000);
    assert_eq!(state(&it), (1_700_000, 700_000, -400_000, -700_000));
    let mut it = ship(0, 0, -400_000, 0);
    rotation_to_movement(&mut it, 350_000);
    assert_eq!(it.y(), 700_000);
    rotation_to_movement(&mut it, 1);
    assert_eq!(it.y(), 700_000);
}

#[test]
fn decay_takes_at_most_one_whole() {
    assert_eq!(Decay::new(0).map(|d| d.millionths()), Some(0));
    assert_eq!(Decay::new(200_000).map(|d| d.millionths()), Some(200_000));
    assert_eq!(Decay::new(1_000_000).map(|d| d.millionths()), Some(1_000_000));
    assert!(Decay::new(1_000_001).is_none());
    assert!(Decay::new(u32::MAX).is_none());
}

#[test]
fn rotation_decays_by_the_factor() {
    let mut it = ship(12, -34, 400_000, -700_000);
    normalize_rotation(&mut it, Decay::new(NORMALIZE_FACTOR).unwrap());
    assert_eq!(state(&it), (12, -34, 80_000, -140_000));
    normalize_rotation(&mut it, Decay::new(500_000).unwrap());
    assert_eq!(state(&it), (12, -34, 40_000, -70_000));
}

#[test]
fn decay_is_rounded_towards_zero() {
    let mut it = ship(0, 0, 3, -3);
    normalize_rotation(&mut it, Decay::new(500_000).unwrap());
    assert_eq!(state(&it), (0, 0, 1, -1));
    normalize_rotation(&mut it, Decay::new(999_999).unwrap());
    assert_eq!(state(&it), (0, 0, 0, 0));
}

#[test]
fn a_whole_decay_keeps_and_an_empty_one_clears() {
    let mut it = ship(0, 0, -400_000, 700_000);
    normalize_rotation(&mut it, Decay::new(1_000_000).unwrap());
    assert_eq!(state(&it), (0, 0, -400_000, 700_000));
    normalize_rotation(&mut it, Decay::new(0).unwrap());
    assert_eq!(state(&it), (0, 0, 0, 0));
}

#[test]
fn rotation_stays_clamped_through_a_flight() {
    let keys = [
        Steering { up: true, down: false, right: true, left: false },
        Steering { up: true, down: true, right: false, left: true },
        Steering { up: false, down: true, right: true, left: true },
        REST,
    ];
    let frames: [u64; 7] = [0, 1, 16_667, 33_333, 250_000, 1_000_000, u64::MAX];
    let decays: [u32; 5] = [0, 1, 764_000, 999_999, 1_000_000];
    let mut it = Ship::new();
    for round in 0..140usize {
        rotate_arwing(&mut it, keys[round % keys.len()], frames[round % frames.len()]);
        assert!(-MAX_ROT_X <= it.pitch() && it.pitch() <= MAX_ROT_X);
        assert!(-MAX_ROT_Z <= it.roll() && it.roll() <= MAX_ROT_Z);
        rotation_to_movement(&mut it, frames[(round / 2) % frames.len()]);
        assert!(MAX_LEFT <= it.x() && it.x() <= MAX_RIGHT);
        assert!(MAX_BOTTOM <= it.y() && it.y() <= MAX_TOP);
        normalize_rotation(&mut it, Decay::new(decays[round % decays.len()]).unwrap());
        assert!(-MAX_ROT_X <= it.pitch() && it.pitch() <= MAX_ROT_X);
        assert!(-MAX_ROT_Z <= it.roll() && it.roll() <= MAX_ROT_Z);
    }
}

#[test]
fn a_frame_agrees_with_floating_point() {
    // A sixtieth of a second with up and left held, from a turned ship.
    let dt = 16_667u64;
    let seconds = dt as f32 / 1e6;
    let mut it = ship(250_000, -500_000, 100_000, -300_000);
    rotate_arwing(&mut it, Steering { up: true, down: false, right: false, left: true }, dt);
    let pitch = (0.1f32 + seconds * 1.5).clamp(-0.4, 0.4);
    let roll = (-0.3f32 - seconds * 1.5).clamp(-0.7, 0.7);
    assert!((it.pitch() as f32 / 1e6 - pitch).abs() < 2e-6);
    assert!((it.roll() as f32 / 1e6 - roll).abs() < 2e-6);
    rotation_to_movement(&mut it, dt);
    let x = (0.25f32 - roll * seconds * 5.0).clamp(-1.7, 1.7);
    let y = (-0.5f32 - pitch * seconds * 5.0).clamp(-1.5, 0.7);
    assert!((it.x() as f32 / 1e6 - x).abs() < 2e-6);
    assert!((it.y() as f32 / 1e6 - y).abs() < 2e-6);
    let factor = 0.2f32.powf(seconds);
    normalize_rotation(&mut it, Decay::new((factor * 1e6).round() as u32).unwrap());
    assert!((it.pitch() as f32 / 1e6 - pitch * factor).abs() < 2e-6);
    assert!((it.roll() as f32 / 1e6 - roll * factor).abs() < 2e-6);
}
