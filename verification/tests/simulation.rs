use bunnymark::entity::Bunny;
use bunnymark::metrics::tick_rate_millihertz;
use bunnymark::spawn::round_up_to_multiple;
use bunnymark::world::ImageState;
use bunnymark::world::World;

// All coordinates and velocities below are in milli-pixels: the screen
// is 640_000 x 480_000, gravity is 750 per tick, and an image of
// 26 x 37 pixels has scaled half-extents (2_600, 3_700).

fn world_with(bunnies: Vec<Bunny>) -> World {
    World { bunnies, image: ImageState::Loaded { width: 26, height: 37 } }
}

#[test]
fn integrator_advances_position_by_velocity() {
    let mut w = world_with(vec![
        Bunny { x: 1_000, y: 2_000, vx: 3_000, vy: 4_000 },
        Bunny { x: -5_000, y: 0, vx: -2_500, vy: -750 },
    ]);
    w.update_positions();
    assert_eq!(w.bunnies[0].x, 4_000);
    assert_eq!(w.bunnies[0].y, 6_000);
    assert_eq!(w.bunnies[1].x, -7_500);
    assert_eq!(w.bunnies[1].y, -750);
}

#[test]
fn integrator_applies_gravity_exactly() {
    let mut w = world_with(vec![Bunny { x: 0, y: 0, vx: 3_000, vy: 4_000 }]);
    w.update_positions();
    assert_eq!(w.bunnies[0].vx, 3_000);
    assert_eq!(w.bunnies[0].vy, 3_250);
    w.update_positions();
    assert_eq!(w.bunnies[0].vy, 2_500);
}

#[test]
fn round_up_examples() {
    assert_eq!(round_up_to_multiple(2_500, 1_000), 500);
    assert_eq!(round_up_to_multiple(3_000, 1_000), 1_000);
    assert_eq!(round_up_to_multiple(0, 1_000), 1_000);
    assert_eq!(round_up_to_multiple(2_550, 100), 50);
    assert_eq!(round_up_to_multiple(99, 100), 1);
    assert_eq!(round_up_to_multiple(100, 100), 100);
}

#[test]
fn right_edge_reflects_velocity_and_keeps_position() {
    // one milli-pixel past the right boundary for half-width 2_600
    let start = Bunny { x: 320_000 - 2_600 + 1_000, y: 0, vx: 3_000, vy: 0 };
    let mut w = world_with(vec![start]);
    w.check_boundaries();
    assert_eq!(w.bunnies[0].vx, -3_000);
    assert_eq!(w.bunnies[0].x, start.x);
    assert_eq!(w.bunnies[0].y, start.y);
}

#[test]
fn left_edge_reflects_velocity_and_keeps_position() {
    let start = Bunny { x: -320_000 + 2_600 - 1_000, y: 0, vx: -3_000, vy: 0 };
    let mut w = world_with(vec![start]);
    w.check_boundaries();
    assert_eq!(w.bunnies[0].vx, 3_000);
    assert_eq!(w.bunnies[0].x, start.x);
}

#[test]
fn floor_clamps_position_and_reflects_velocity() {
    // floor for half-height 3_700 sits at -240_000 + 3_700
    let mut w = world_with(vec![Bunny { x: 0, y: -250_000, vx: 0, vy: -9_000 }]);
    w.check_boundaries();
    assert_eq!(w.bunnies[0].y, -236_300);
    assert_eq!(w.bunnies[0].vy, 9_000);
}

#[test]
fn floor_clamp_handles_any_vertical_velocity() {
    // an entity below the floor moving up is still clamped and reflected
    let mut w = world_with(vec![Bunny { x: 0, y: -239_000, vx: 0, vy: 4_000 }]);
    w.check_boundaries();
    assert_eq!(w.bunnies[0].y, -236_300);
    assert_eq!(w.bunnies[0].vy, -4_000);
}

#[test]
fn ceiling_damps_upward_velocity_to_seven_tenths() {
    // damping zone for half-height 3_700 starts above 240_000 - 40_000 - 3_700
    let mut w = world_with(vec![Bunny { x: 0, y: 200_000, vx: 0, vy: 10_000 }]);
    w.check_boundaries();
    assert_eq!(w.bunnies[0].vy, 7_000);
    assert_eq!(w.bunnies[0].y, 200_000);
}

#[test]
fn ceiling_damping_compounds_across_passes() {
    let mut w = world_with(vec![Bunny { x: 0, y: 200_000, vx: 0, vy: 10_000 }]);
    w.check_boundaries();
    w.check_boundaries();
    w.check_boundaries();
    // 10 * 0.7^3 = 3.43 pixels, exact in milli-pixels
    assert_eq!(w.bunnies[0].vy, 3_430);
}

#[test]
fn ceiling_leaves_downward_velocity_alone() {
    let mut w = world_with(vec![Bunny { x: 0, y: 200_000, vx: 0, vy: -10_000 }]);
    w.check_boundaries();
    assert_eq!(w.bunnies[0].vy, -10_000);
}

#[test]
fn tick_rate_is_reciprocal_of_fixed_duration() {
    // 0.02 s -> 50 Hz
    assert_eq!(tick_rate_millihertz(20_000), 50_000);
    // 1/60 s, rounded down in milli-hertz
    assert_eq!(tick_rate_millihertz(16_667), 59_998);
}

#[test]
fn tick_rate_of_zero_duration_is_zero() {
    assert_eq!(tick_rate_millihertz(0), 0);
}

#[test]
fn image_load_spawns_initial_batch() {
    let mut w = World::new();
    assert_eq!(w.bunny_count(), 0);
    w.observe_image_loaded(26, 37);
    assert_eq!(w.bunny_count(), 10);
    assert_eq!(w.image, ImageState::Loaded { width: 26, height: 37 });
    assert_eq!(w.half_width_milli(), 2_600);
    assert_eq!(w.half_height_milli(), 3_700);
}

#[test]
fn image_load_happens_at_most_once() {
    let mut w = World::new();
    w.observe_image_loaded(26, 37);
    w.observe_image_loaded(26, 37);
    w.observe_image_loaded(99, 99);
    assert_eq!(w.bunny_count(), 10);
    assert_eq!(w.image, ImageState::Loaded { width: 26, height: 37 });
}

#[test]
fn zero_width_report_does_not_count_as_loaded() {
    let mut w = World::new();
    w.observe_image_loaded(0, 37);
    assert_eq!(w.bunny_count(), 0);
    assert_eq!(w.image, ImageState::Unloaded);
    w.observe_image_loaded(26, 37);
    assert_eq!(w.bunny_count(), 10);
}

#[test]
fn spawned_entities_are_placed_and_launched_within_bounds() {
    let mut w = World::new();
    w.observe_image_loaded(26, 37);
    w.spawn_bunnies(200);
    assert_eq!(w.bunny_count(), 210);
    for b in &w.bunnies {
        // left edge plus half-width, jitter of up to 5 pixels added on x
        assert!(b.x >= -320_000 + 2_600);
        assert!(b.x < -320_000 + 2_600 + 5_000);
        // top edge minus half-height, jitter of up to 5 pixels subtracted on y
        assert!(b.y <= 240_000 - 3_700);
        assert!(b.y > 240_000 - 3_700 - 5_000);
        // each velocity component uniform in [2, 4) pixels per tick
        assert!(b.vx >= 2_000 && b.vx < 4_000);
        assert!(b.vy >= 2_000 && b.vy < 4_000);
    }
}

#[test]
fn input_does_nothing_before_image_loads() {
    let mut w = World::new();
    w.handle_input(true, true, true);
    assert_eq!(w.bunny_count(), 0);
    assert_eq!(w.image, ImageState::Unloaded);
}

#[test]
fn left_button_spawns_one_per_tick() {
    let mut w = World::new();
    w.observe_image_loaded(26, 37);
    w.handle_input(true, false, false);
    assert_eq!(w.bunny_count(), 11);
    w.handle_input(true, true, true);
    assert_eq!(w.bunny_count(), 12);
}

#[test]
fn middle_button_rounds_population_up_to_next_thousand() {
    let mut w = World::new();
    w.observe_image_loaded(26, 37);
    w.handle_input(false, true, false);
    assert_eq!(w.bunny_count(), 1_000);
    // already at a multiple: a full extra thousand
    w.handle_input(false, true, false);
    assert_eq!(w.bunny_count(), 2_000);
}

#[test]
fn right_button_rounds_population_up_to_next_hundred() {
    let mut w = World::new();
    w.observe_image_loaded(26, 37);
    w.handle_input(false, false, true);
    assert_eq!(w.bunny_count(), 100);
    w.handle_input(true, false, true);
    assert_eq!(w.bunny_count(), 101);
    w.handle_input(false, false, true);
    assert_eq!(w.bunny_count(), 200);
}

#[test]
fn no_input_spawns_nothing() {
    let mut w = World::new();
    w.observe_image_loaded(26, 37);
    w.handle_input(false, false, false);
    assert_eq!(w.bunny_count(), 10);
}

#[test]
fn metrics_snapshot_carries_fps_tick_rate_and_count() {
    let mut w = World::new();
    w.observe_image_loaded(26, 37);
    let m = w.report_metrics(Some(60_000), 20_000).unwrap();
    assert_eq!(m.fps_milli, 60_000);
    assert_eq!(m.tps_milli, 50_000);
    assert_eq!(m.bunnies, 10);
}

#[test]
fn no_frame_rate_means_no_snapshot() {
    let w = World::new();
    assert!(w.report_metrics(None, 20_000).is_none());
}

#[test]
fn full_tick_bounces_a_falling_entity_off_the_floor() {
    // drop an entity just above the floor and let a few ticks pass
    let floor = -240_000 + 3_700;
    let mut w = world_with(vec![Bunny { x: 0, y: floor + 1_000, vx: 2_500, vy: -3_000 }]);
    assert!(w.all_in_range());
    w.update_positions();
    w.check_boundaries();
    // it fell through the floor and was clamped back onto it
    assert_eq!(w.bunnies[0].y, floor);
    assert_eq!(w.bunnies[0].vy, 3_750);
    assert_eq!(w.bunnies[0].x, 2_500);
}
