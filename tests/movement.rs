use signal_scuffle::geometry::{Rotation, Vec2};
use signal_scuffle::level::{Player, Zombie};
use signal_scuffle::movement::{
    apply_movement, heading_control, next_velocity, HeadingControl, MoveController, Velocity,
};

const TICK: u32 = 16_667;

fn player_with_target(x: i32, y: i32) -> MoveController {
    let mut c = MoveController::default();
    c.target_speed = Vec2 { x, y };
    c
}

#[test]
fn default_controller_values() {
    let c = MoveController::default();
    assert_eq!(c.target_speed, Vec2 { x: 0, y: 0 });
    assert_eq!(c.max_speed, 10_000);
    assert_eq!(c.impulse_exponent, 4);
    assert_eq!(c.impulse_coefficient, 200_000);
    assert_eq!(Player::move_controller(), c);
    let z = Zombie::move_controller();
    assert_eq!(z.max_speed, 1_000);
    assert_eq!(z.impulse_coefficient, 100_000);
    assert_eq!(z.impulse_exponent, 4);
}

#[test]
fn full_impulse_accelerates_by_push() {
    // impulse of exactly the top speed: response one, push 16_667 us * 200 units/s^2
    let c = player_with_target(1000, 0);
    let v = next_velocity(&c, Velocity { x: 0, y: 0 }, TICK);
    assert_eq!(v, Velocity { x: 3334, y: 0 });
}

#[test]
fn half_impulse_scaled_by_fourth_power() {
    // m = 0.5: response 0.0625, kick = ceil(5000 * 3_333_400_000 * 62_500 / (10^12 * 5000)) = 209
    let c = player_with_target(1000, 0);
    let v = next_velocity(&c, Velocity { x: 5000, y: 0 }, TICK);
    assert_eq!(v, Velocity { x: 5209, y: 0 });
}

#[test]
fn small_impulse_snaps_to_goal() {
    let c = player_with_target(1000, 0);
    let v = next_velocity(&c, Velocity { x: 9000, y: 0 }, TICK);
    assert_eq!(v, Velocity { x: 10_000, y: 0 });
    let rest = MoveController::default();
    let v = next_velocity(&rest, Velocity { x: 3000, y: -2000 }, TICK);
    assert_eq!(v, Velocity { x: 0, y: 0 });
}

#[test]
fn impulse_beyond_top_speed_is_capped() {
    let c = player_with_target(-1000, 0);
    let v = next_velocity(&c, Velocity { x: 10_000, y: 0 }, TICK);
    assert_eq!(v, Velocity { x: 6666, y: 0 });
}

#[test]
fn velocity_saturates_at_the_limit() {
    let mut c = player_with_target(1000, 0);
    c.impulse_coefficient = u32::MAX;
    let v = next_velocity(&c, Velocity { x: 0, y: 0 }, u32::MAX);
    assert_eq!(v.x, 1_099_511_627_776);
    assert_eq!(v.y, 0);
}

#[test]
fn repeated_ticks_converge_to_goal() {
    let c = player_with_target(600, 800);
    let mut v = Velocity { x: -7000, y: 3000 };
    let mut last_gap = i128::MAX;
    for _ in 0..1000 {
        v = next_velocity(&c, v, TICK);
        let gx = (6000 - v.x) as i128;
        let gy = (8000 - v.y) as i128;
        let gap = gx * gx + gy * gy;
        assert!(gap <= last_gap);
        last_gap = gap;
    }
    assert_eq!(v, Velocity { x: 6000, y: 8000 });
}

#[test]
fn pursuer_converges_too() {
    let mut c = Zombie::move_controller();
    c.target_speed = Vec2 { x: 0, y: -1000 };
    let mut v = Velocity { x: 0, y: 0 };
    for _ in 0..200 {
        v = next_velocity(&c, v, TICK);
    }
    assert_eq!(v, Velocity { x: 0, y: -1000 });
}

#[test]
fn heading_turns_toward_target() {
    let facing_up = Rotation { cos: 1000, sin: 0 };
    assert_eq!(
        heading_control(Vec2 { x: 1000, y: 0 }, facing_up),
        HeadingControl::Turn { angular_velocity: -20 }
    );
    assert_eq!(
        heading_control(Vec2 { x: -1000, y: 0 }, facing_up),
        HeadingControl::Turn { angular_velocity: 20 }
    );
    assert_eq!(
        heading_control(Vec2 { x: 0, y: -1000 }, facing_up),
        HeadingControl::Turn { angular_velocity: -20 }
    );
}

#[test]
fn heading_aligns_when_close() {
    let facing_up = Rotation { cos: 1000, sin: 0 };
    assert_eq!(heading_control(Vec2 { x: 0, y: 1000 }, facing_up), HeadingControl::Align);
    // about 0.05 radians off
    assert_eq!(heading_control(Vec2 { x: 50, y: 998 }, facing_up), HeadingControl::Align);
    // about 0.2 radians off
    assert_eq!(
        heading_control(Vec2 { x: 198, y: 980 }, facing_up),
        HeadingControl::Turn { angular_velocity: -20 }
    );
}

#[test]
fn heading_halts_without_intent() {
    let facing_up = Rotation { cos: 1000, sin: 0 };
    assert_eq!(heading_control(Vec2 { x: 100, y: 0 }, facing_up), HeadingControl::Halt);
    assert_eq!(heading_control(Vec2 { x: 0, y: 0 }, facing_up), HeadingControl::Halt);
    // squared magnitude exactly 0.1
    assert_eq!(heading_control(Vec2 { x: 300, y: 100 }, facing_up), HeadingControl::Unchanged);
}

#[test]
fn heading_skips_degenerate_rotation() {
    let none = Rotation { cos: 0, sin: 0 };
    assert_eq!(heading_control(Vec2 { x: 1000, y: 0 }, none), HeadingControl::Unchanged);
}

#[test]
fn apply_movement_combines_both() {
    let c = player_with_target(1000, 0);
    let u = apply_movement(&c, Velocity { x: 0, y: 0 }, Rotation { cos: 1000, sin: 0 }, TICK);
    assert_eq!(u.velocity, Velocity { x: 3334, y: 0 });
    assert_eq!(u.heading, HeadingControl::Turn { angular_velocity: -20 });
}
