use drift::arith::isqrt;
use drift::input::{sample_direction, Keys};
use drift::motion::{
    control_velocity, friction_velocity, integrate_position, jitter, speed_gain,
};
use drift::vector::{resize, Vec2};
use drift::world::{entity_frame_fits, Entity, World};

const FRAME_20MS: u64 = 20000;

fn v(x: i64, y: i64) -> Vec2 {
    Vec2::new(x, y)
}

#[test]
fn friction_snaps_slow_velocity_to_zero() {
    assert_eq!(friction_velocity(v(100, 0), 5000, FRAME_20MS), v(0, 0));
}

#[test]
fn friction_slows_fast_velocity_by_one_frame_of_loss() {
    assert_eq!(friction_velocity(v(10000, 0), 5000, FRAME_20MS), v(9900, 0));
}

#[test]
fn friction_snaps_at_exactly_twice_the_loss() {
    assert_eq!(friction_velocity(v(200, 0), 5000, FRAME_20MS), v(0, 0));
    assert_eq!(friction_velocity(v(201, 0), 5000, FRAME_20MS), v(101, 0));
}

#[test]
fn friction_keeps_direction_on_a_diagonal() {
    // |(3000, 4000)| = 5000; a loss of 100 takes (60, 80).
    assert_eq!(friction_velocity(v(3000, -4000), 5000, FRAME_20MS), v(2940, -3920));
}

#[test]
fn steering_leaves_velocity_above_cap_untouched() {
    let d = sample_direction(Keys::new(false, false, false, true));
    assert_eq!(control_velocity(v(600, 0), 500, 10000, d, 100000), v(600, 0));
}

#[test]
fn steering_clamps_candidate_to_cap() {
    let d = sample_direction(Keys::new(false, false, false, true));
    assert_eq!(d, v(1, 0));
    assert_eq!(control_velocity(v(0, 0), 500, 10000, d, 100000), v(500, 0));
}

#[test]
fn steering_adopts_candidate_below_cap() {
    let d = sample_direction(Keys::new(true, false, false, false));
    assert_eq!(control_velocity(v(0, 0), 500, 10000, d, FRAME_20MS), v(0, 200));
}

#[test]
fn steering_normalizes_diagonal_input() {
    let d = sample_direction(Keys::new(true, false, true, false));
    assert_eq!(d, v(-1, 1));
    // 200 / sqrt(2) = 141.42...
    assert_eq!(control_velocity(v(0, 0), 500, 10000, d, FRAME_20MS), v(-141, 141));
}

#[test]
fn steering_without_keys_keeps_velocity() {
    let d = sample_direction(Keys::none());
    assert_eq!(control_velocity(v(30, -40), 500, 10000, d, FRAME_20MS), v(30, -40));
}

#[test]
fn opposing_keys_cancel() {
    assert_eq!(sample_direction(Keys::new(true, true, false, false)), v(0, 0));
    assert_eq!(sample_direction(Keys::new(false, false, true, true)), v(0, 0));
    assert_eq!(sample_direction(Keys::new(true, true, true, true)), v(0, 0));
    assert_eq!(sample_direction(Keys::new(false, true, true, false)), v(-1, -1));
}

#[test]
fn position_moves_by_velocity_times_time() {
    assert_eq!(integrate_position(v(300, 0), v(500, -250), FRAME_20MS), v(310, -5));
    // Rounded toward zero on each axis.
    assert_eq!(integrate_position(v(0, 0), v(-75, 75), FRAME_20MS), v(-1, 1));
}

#[test]
fn position_at_rest_stays_put_however_often() {
    let mut p = v(-300, 42);
    for _ in 0..50 {
        p = integrate_position(p, v(0, 0), FRAME_20MS);
    }
    assert_eq!(p, v(-300, 42));
}

#[test]
fn jitter_scales_draw_to_amplitude() {
    assert_eq!(jitter(10, 0), 0);
    assert_eq!(jitter(10, u32::MAX), 9);
    assert_eq!(jitter(10, 1 << 31), 5);
    assert_eq!(jitter(0, u32::MAX), 0);
}

#[test]
fn square_root_rounds_down() {
    assert_eq!(isqrt(0), 0);
    assert_eq!(isqrt(1), 1);
    assert_eq!(isqrt(15), 3);
    assert_eq!(isqrt(16), 4);
    assert_eq!(isqrt(u128::MAX), u64::MAX);
}

#[test]
fn resize_keeps_direction() {
    assert_eq!(resize(v(1000, 0), 500), v(500, 0));
    assert_eq!(resize(v(-3, 4), 10), v(-6, 8));
    assert_eq!(resize(v(0, 0), 10), v(0, 0));
}

#[test]
fn speed_gain_is_rate_times_seconds() {
    assert_eq!(speed_gain(5000, FRAME_20MS), 100);
    assert_eq!(speed_gain(10000, 100000), 1000);
    assert_eq!(speed_gain(u64::MAX, u64::MAX), (u64::MAX as u128) * (u64::MAX as u128) / 1000000);
}

fn player() -> Entity {
    let mut e = Entity::new();
    e.position = Some(v(300, 0));
    e.velocity = Some(v(0, 0));
    e.is_player = true;
    e.max_speed = Some(500);
    e.acceleration = Some(10000);
    e.visual = Some(v(0, 0));
    e
}

fn shaker(amplitude: u64) -> Entity {
    let mut e = Entity::new();
    e.position = Some(v(-300, 0));
    e.shake_amplitude = Some(amplitude);
    e.visual = Some(v(0, 0));
    e
}

#[test]
fn frame_runs_rules_in_order() {
    let mut w = World::new(5000);
    w.spawn(player());
    w.run_frame(Keys::new(false, false, false, true), FRAME_20MS);
    let e = w.entities[0];
    // The visual shows the position from before the frame's motion.
    assert_eq!(e.visual, Some(v(300, 0)));
    // The velocity was still zero when the position rule ran.
    assert_eq!(e.position, Some(v(300, 0)));
    // Steering gave 200, then friction snapped it (200 <= 2 * 100).
    assert_eq!(e.velocity, Some(v(0, 0)));

    let mut w = World::new(5000);
    let mut p = player();
    p.velocity = Some(v(400, 0));
    w.spawn(p);
    w.run_frame(Keys::new(false, false, false, true), FRAME_20MS);
    let e = w.entities[0];
    assert_eq!(e.position, Some(v(308, 0)));
    // 400 + 200 is clamped to 500, then friction takes 100.
    assert_eq!(e.velocity, Some(v(400, 0)));
}

#[test]
fn still_entity_is_unchanged_by_a_frame_without_time() {
    let mut w = World::new(5000);
    let mut e = Entity::new();
    e.position = Some(v(7, -9));
    e.visual = Some(v(7, -9));
    w.spawn(e);
    w.run_frame(Keys::new(true, false, false, true), 0);
    assert_eq!(w.entities[0], e);
}

#[test]
fn shaking_visual_stays_within_amplitude() {
    let mut w = World::new(5000);
    w.spawn(shaker(10));
    for _ in 0..200 {
        w.run_frame(Keys::none(), FRAME_20MS);
        let e = w.entities[0];
        assert_eq!(e.position, Some(v(-300, 0)));
        let vis = e.visual.unwrap();
        assert!(-300 <= vis.x && vis.x < -290);
        assert!(0 <= vis.y && vis.y < 10);
    }
}

#[test]
fn shake_with_given_draws_is_exact() {
    let mut w = World::new(5000);
    w.spawn(shaker(10));
    w.spawn(player());
    w.shake_visuals_with(&vec![(u32::MAX, 1 << 31), (5, 5)]);
    assert_eq!(w.entities[0].visual, Some(v(-291, 5)));
    assert_eq!(w.entities[1], player());
}

#[test]
fn player_stuck_above_cap_stays_stuck() {
    let mut w = World::new(0);
    let mut p = player();
    p.velocity = Some(v(600, 0));
    w.spawn(p);
    w.steer_players(Keys::new(false, false, true, false), FRAME_20MS);
    assert_eq!(w.entities[0].velocity, Some(v(600, 0)));
}

#[test]
fn every_player_is_steered() {
    let mut w = World::new(0);
    w.spawn(player());
    w.spawn(shaker(3));
    w.spawn(player());
    w.steer_players(Keys::new(false, true, false, false), FRAME_20MS);
    assert_eq!(w.entities[0].velocity, Some(v(0, -200)));
    assert_eq!(w.entities[1], shaker(3));
    assert_eq!(w.entities[2].velocity, Some(v(0, -200)));
}

#[test]
fn sync_skips_shaking_entities() {
    let mut w = World::new(0);
    w.spawn(shaker(3));
    w.spawn(player());
    w.sync_visuals();
    assert_eq!(w.entities[0], shaker(3));
    assert_eq!(w.entities[1].visual, Some(v(300, 0)));
}

#[test]
fn frame_check_rejects_out_of_range_rows() {
    assert!(entity_frame_fits(player(), FRAME_20MS));
    let mut fast = player();
    fast.velocity = Some(v(1 << 40, 0));
    assert!(!entity_frame_fits(fast, FRAME_20MS));
    let mut huge_cap = player();
    huge_cap.max_speed = Some(1 << 40);
    assert!(!entity_frame_fits(huge_cap, FRAME_20MS));
    let mut edge = shaker(10);
    edge.position = Some(v(i64::MAX - 5, 0));
    assert!(!entity_frame_fits(edge, FRAME_20MS));
    let mut runaway = Entity::new();
    runaway.position = Some(v(i64::MAX - 5, 0));
    runaway.velocity = Some(v(1000, 0));
    assert!(!entity_frame_fits(runaway, FRAME_20MS));
    assert!(entity_frame_fits(runaway, 0));
    assert!(!entity_frame_fits(player(), u64::MAX));
}

#[test]
fn skipped_frame_leaves_table_alone() {
    let mut w = World::new(5000);
    let mut runaway = Entity::new();
    runaway.position = Some(v(i64::MAX - 5, 0));
    runaway.velocity = Some(v(1000, 0));
    w.spawn(player());
    w.spawn(runaway);
    assert!(!w.can_run_frame(FRAME_20MS));
    assert!(!w.try_run_frame(Keys::new(false, false, false, true), FRAME_20MS));
    assert_eq!(w.entities[0], player());
    assert_eq!(w.entities[1], runaway);
    assert!(w.try_run_frame(Keys::none(), 0));
}
