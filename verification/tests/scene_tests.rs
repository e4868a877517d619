use overlay_core::scene::SceneState;

fn state_with_timestamps(timestamps: Vec<u64>) -> SceneState {
    SceneState {
        pos_x: 0,
        pos_y: 0,
        vel_x: 0,
        vel_y: 0,
        hue: 0,
        timestamps,
    }
}

#[test]
fn pruning_drops_only_entries_older_than_one_second() {
    // Timestamps t-2s and t-0.5s already recorded; recording at t prunes the
    // two-second-old entry and keeps the half-second-old one.
    let mut s = state_with_timestamps(vec![8000, 9500]);
    s.record_frame(10000);
    assert_eq!(s.timestamps, vec![9500, 10000]);
}

#[test]
fn pruning_keeps_entries_exactly_under_the_window() {
    let mut s = state_with_timestamps(vec![9001, 9500]);
    s.record_frame(10000);
    assert_eq!(s.timestamps, vec![9001, 9500, 10000]);
}

#[test]
fn pruning_drops_entry_exactly_at_the_window() {
    let mut s = state_with_timestamps(vec![9000, 9500]);
    s.record_frame(10000);
    assert_eq!(s.timestamps, vec![9500, 10000]);
}

#[test]
fn fps_is_zero_with_a_single_timestamp() {
    let s = state_with_timestamps(vec![10000]);
    assert_eq!(s.fps_milli(10000), 0);
}

#[test]
fn fps_two_frames_one_second_apart_is_two() {
    let s = state_with_timestamps(vec![9000, 10000]);
    assert_eq!(s.fps_milli(10000), 2000);
}

#[test]
fn fps_is_zero_when_no_time_has_elapsed() {
    let s = state_with_timestamps(vec![10000, 10000]);
    assert_eq!(s.fps_milli(10000), 0);
}

#[test]
fn fps_counts_all_samples_over_the_elapsed_span() {
    // Four samples over half a second: 4 / 0.5 = 8 frames per second.
    let s = state_with_timestamps(vec![9500, 9700, 9900, 10000]);
    assert_eq!(s.fps_milli(10000), 8000);
}

#[test]
fn right_edge_bounce_flips_velocity_to_negative() {
    let mut s = SceneState::new(750000, 100000, 3000, 0);
    // Text 100 units wide in an 800-unit window: 750 + 100 > 800.
    s.step_physics(100000, 24000, 800000, 600000);
    assert_eq!(s.vel_x, -3000);
    assert_eq!(s.pos_x, 747000);
}

#[test]
fn left_edge_bounce_flips_velocity_back_to_positive() {
    let mut s = SceneState::new(-1000, 100000, -3000, 0);
    s.step_physics(100000, 24000, 800000, 600000);
    assert_eq!(s.vel_x, 3000);
    assert_eq!(s.pos_x, 2000);
}

#[test]
fn no_bounce_inside_the_window() {
    let mut s = SceneState::new(400000, 300000, 3000, 2000);
    s.step_physics(130000, 24000, 800000, 600000);
    assert_eq!((s.vel_x, s.vel_y), (3000, 2000));
    assert_eq!((s.pos_x, s.pos_y), (403000, 302000));
}

#[test]
fn vertical_bounce_at_the_bottom_edge() {
    let mut s = SceneState::new(100000, 590000, 0, 2000);
    s.step_physics(130000, 24000, 800000, 600000);
    assert_eq!(s.vel_y, -2000);
    assert_eq!(s.pos_y, 588000);
}

#[test]
fn hue_advances_three_degrees_per_frame() {
    let mut s = SceneState::new(0, 0, 0, 0);
    s.advance_hue();
    assert_eq!(s.hue, 3000);
}

#[test]
fn hue_wraps_at_a_full_turn() {
    let mut s = SceneState::new(0, 0, 0, 0);
    s.hue = 358000;
    s.advance_hue();
    assert_eq!(s.hue, 1000);
}
