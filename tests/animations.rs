use bevy_animations::{
    AnimationDirection, AnimationDirectionIndexes, AnimationTimer, DirectionVector, FlipBasedDirection, FrameGrid,
    FXBasedDirection, IndexBasedDirection, LinearTimedAnimation, LinearTransformAnimation, Position,
    SingleFrameAnimation, SpriteState, TimedAnimation, TransformAnimation, YIndex,
};

const MS: u64 = 1_000_000;

fn rows(left: usize, right: usize, up: usize, down: usize) -> AnimationDirectionIndexes {
    AnimationDirectionIndexes::IndexBased(IndexBasedDirection { left, right, up, down })
}

fn grid(columns: usize) -> FrameGrid {
    FrameGrid { columns, rows: 4 }
}

fn sprite() -> SpriteState {
    SpriteState { index: 0, flip_x: false, flip_y: false }
}

#[test]
fn timed_first_frame_fires_at_once_then_steps_and_wraps() {
    let mut a = TimedAnimation::new(
        vec![0, 1, 2, 3],
        vec![MS, 500 * MS, 500 * MS, 500 * MS],
        grid(4),
        rows(1, 1, 1, 1),
        true,
        false,
        0,
    );
    let mut s = sprite();
    let d = AnimationDirection::Left;
    assert_eq!(a.cycle_animation(&mut s, &d, MS), Some(()));
    assert_eq!(s.index, 4);
    let mut seen = Vec::new();
    for _ in 0..4 {
        assert_eq!(a.cycle_animation(&mut s, &d, 500 * MS), Some(()));
        seen.push(s.index);
    }
    assert_eq!(seen, vec![5, 6, 7, 4]);
}

#[test]
fn timed_waits_until_the_timer_runs_out() {
    let mut a = TimedAnimation::new(vec![2, 3], vec![10 * MS, 10 * MS], grid(4), rows(0, 1, 2, 3), false, false, 0);
    let mut s = sprite();
    assert_eq!(a.cycle_animation(&mut s, &AnimationDirection::Down, 4 * MS), Some(()));
    assert_eq!(s.index, 0);
    assert_eq!(a.cycle_animation(&mut s, &AnimationDirection::Down, 6 * MS), Some(()));
    assert_eq!(s.index, 3 * 4 + 2);
}

#[test]
fn flip_based_resolution_of_left_and_right() {
    let flip = AnimationDirectionIndexes::FlipBased(FlipBasedDirection {
        left_direction_is_flipped: true,
        x_direction_index: 2,
    });
    assert_eq!(flip.get_y_index(&AnimationDirection::Left, 0), YIndex::Flip(true, 2));
    assert_eq!(flip.get_y_index(&AnimationDirection::Right, 0), YIndex::Flip(false, 2));
    assert_eq!(flip.get_y_index(&AnimationDirection::Up, 0), YIndex::Flip(false, 2));
    assert_eq!(flip.get_y_index(&AnimationDirection::Still, 5), YIndex::Flip(false, 5));
}

#[test]
fn index_based_and_fixed_resolution() {
    let idx = rows(4, 3, 2, 1);
    assert_eq!(idx.get_y_index(&AnimationDirection::Left, 0), YIndex::Index(4));
    assert_eq!(idx.get_y_index(&AnimationDirection::Right, 0), YIndex::Index(3));
    assert_eq!(idx.get_y_index(&AnimationDirection::Up, 0), YIndex::Index(2));
    assert_eq!(idx.get_y_index(&AnimationDirection::Down, 0), YIndex::Index(1));
    assert_eq!(idx.get_y_index(&AnimationDirection::Still, 7), YIndex::Index(7));
    let fx = AnimationDirectionIndexes::FX(FXBasedDirection { index: 6 });
    assert_eq!(fx.get_y_index(&AnimationDirection::Left, 0), YIndex::Index(6));
    assert_eq!(fx.get_y_index(&AnimationDirection::Still, 1), YIndex::Index(6));
    assert_eq!(YIndex::Flip(true, 3).get_row(), 3);
    assert!(YIndex::Flip(true, 3).is_flipped());
    assert!(!YIndex::Index(3).is_flipped());
}

#[test]
fn default_direction_indexes_are_all_one() {
    assert_eq!(AnimationDirectionIndexes::default(), rows(1, 1, 1, 1));
    assert_eq!(AnimationDirection::default(), AnimationDirection::Still);
}

#[test]
fn direction_vectors_and_mirror() {
    assert_eq!(AnimationDirection::get_direction(&AnimationDirection::Left), DirectionVector { x: -1, y: 0 });
    assert_eq!(AnimationDirection::get_direction(&AnimationDirection::Right), DirectionVector { x: 1, y: 0 });
    assert_eq!(AnimationDirection::get_direction(&AnimationDirection::Up), DirectionVector { x: 0, y: 1 });
    assert_eq!(AnimationDirection::get_direction(&AnimationDirection::Down), DirectionVector { x: 0, y: -1 });
    assert_eq!(AnimationDirection::get_direction(&AnimationDirection::Still), DirectionVector { x: 0, y: 0 });
    assert_eq!(AnimationDirection::Left.mirror_horizontal(), AnimationDirection::Right);
    assert_eq!(AnimationDirection::Right.mirror_horizontal(), AnimationDirection::Left);
    assert_eq!(AnimationDirection::Up.mirror_horizontal(), AnimationDirection::Still);
    assert_eq!(AnimationDirection::Still.mirror_horizontal(), AnimationDirection::Still);
}

#[test]
fn non_repeating_timed_runs_out_after_its_frames() {
    let mut a = TimedAnimation::new(vec![5, 6, 7], vec![MS, 2 * MS, 3 * MS], grid(8), rows(0, 1, 0, 0), false, false, 0);
    let mut s = sprite();
    let d = AnimationDirection::Right;
    let mut seen = Vec::new();
    for delta in [MS, MS, 2 * MS] {
        assert_eq!(a.cycle_animation(&mut s, &d, delta), Some(()));
        seen.push(s.index);
    }
    assert_eq!(seen, vec![13, 14, 15]);
    assert_eq!(a.cycle_animation(&mut s, &d, 3 * MS), None);
    assert_eq!(a.animation_tick, 1);
}

#[test]
fn non_repeating_linear_timed_runs_out_after_its_frames() {
    let mut a = LinearTimedAnimation::new(vec![3, 1, 4], vec![MS, MS, MS], false);
    let mut s = sprite();
    let mut seen = Vec::new();
    for _ in 0..3 {
        assert_eq!(a.cycle_animation(&mut s, MS), Some(()));
        seen.push(s.index);
    }
    assert_eq!(seen, vec![3, 1, 4]);
    assert_eq!(a.cycle_animation(&mut s, MS), None);
}

#[test]
fn repeating_animation_never_signals_the_end() {
    let mut a = LinearTimedAnimation::new(vec![0, 1], vec![MS, MS], true);
    let mut s = sprite();
    let mut seen = Vec::new();
    for _ in 0..7 {
        assert_eq!(a.cycle_animation(&mut s, MS), Some(()));
        seen.push(s.index);
    }
    assert_eq!(seen, vec![0, 1, 0, 1, 0, 1, 0]);
}

#[test]
fn reset_draws_what_a_fresh_animation_draws() {
    let make = || TimedAnimation::new(vec![1, 2, 3], vec![MS, MS, MS], grid(4), rows(0, 2, 3, 1), true, false, 0);
    let fresh = make();
    let mut a = make();
    let mut s = sprite();
    for d in [AnimationDirection::Right, AnimationDirection::Up, AnimationDirection::Down] {
        a.cycle_animation(&mut s, &d, MS);
    }
    a.reset_animation();
    for d in [
        AnimationDirection::Left,
        AnimationDirection::Right,
        AnimationDirection::Up,
        AnimationDirection::Down,
        AnimationDirection::Still,
    ] {
        assert_eq!(a.sprite_index(&d), fresh.sprite_index(&d));
    }
    assert_eq!(a.sprite_index(&AnimationDirection::Still), 4 + 1);
}

#[test]
fn reset_and_render_draws_the_first_frame() {
    let mut a = TimedAnimation::new(vec![1, 2], vec![MS, MS], grid(4), rows(0, 2, 3, 1), true, false, 0);
    let mut s = sprite();
    a.cycle_animation(&mut s, &AnimationDirection::Up, MS);
    a.cycle_animation(&mut s, &AnimationDirection::Up, MS);
    assert_eq!(s.index, 3 * 4 + 2);
    a.reset_and_render(&mut s, &AnimationDirection::Down);
    assert_eq!(s.index, 4 + 1);
    assert_eq!(a.animation_tick, 1);
}

#[test]
fn transform_keeps_its_frame_below_the_threshold() {
    // 10 pixels per meter, 500 mm per frame: 5 pixels, 5000 thousandths of a pixel.
    let mut a = TransformAnimation::new(vec![0, 1, 2], 500, grid(3), rows(0, 2, 3, 0), true);
    let mut s = sprite();
    let d = AnimationDirection::Right;
    // the row changes from the initial one, so the first advance draws at once
    assert_eq!(a.cycle_animation(&mut s, &d, &Position { x: 0, y: 0 }, 10), Some(()));
    assert_eq!(s.index, 6);
    assert_eq!(a.animation_tick, 2);
    assert_eq!(a.cycle_animation(&mut s, &d, &Position { x: 4_999, y: 0 }, 10), Some(()));
    assert_eq!(s.index, 6);
    assert_eq!(a.animation_tick, 2);
    assert_eq!(a.cycle_animation(&mut s, &d, &Position { x: 5_000, y: 0 }, 10), Some(()));
    assert_eq!(s.index, 7);
    assert_eq!(a.animation_tick, 3);
    assert_eq!(a.cycle_animation(&mut s, &d, &Position { x: 5_000, y: -5_000 }, 10), Some(()));
    assert_eq!(s.index, 8);
}

#[test]
fn transform_redraws_on_a_turn_without_moving() {
    let mut a = TransformAnimation::new(vec![0, 1, 2], 500, grid(3), rows(0, 2, 3, 0), true);
    let mut s = sprite();
    let here = Position { x: 0, y: 0 };
    a.cycle_animation(&mut s, &AnimationDirection::Right, &here, 10);
    assert_eq!(s.index, 6);
    assert_eq!(a.cycle_animation(&mut s, &AnimationDirection::Up, &here, 10), Some(()));
    assert_eq!(s.index, 3 * 3 + 1);
}

#[test]
fn transform_standing_still_shows_the_first_frame() {
    let mut a = TransformAnimation::new(vec![4, 5], 1000, grid(6), rows(0, 1, 2, 3), true);
    let mut s = sprite();
    a.cycle_animation(&mut s, &AnimationDirection::Down, &Position { x: 0, y: 0 }, 1);
    a.cycle_animation(&mut s, &AnimationDirection::Down, &Position { x: 0, y: 1000 }, 1);
    assert_eq!(s.index, 3 * 6 + 5);
    a.cycle_animation(&mut s, &AnimationDirection::Still, &Position { x: 0, y: 1000 }, 1);
    assert_eq!(s.index, 3 * 6 + 4);
}

#[test]
fn transform_flip_based_sets_the_flip() {
    let flip = AnimationDirectionIndexes::FlipBased(FlipBasedDirection {
        left_direction_is_flipped: true,
        x_direction_index: 0,
    });
    let mut a = TransformAnimation::new(vec![0, 1], 1000, grid(2), flip, true);
    let mut s = sprite();
    a.cycle_animation(&mut s, &AnimationDirection::Left, &Position { x: 0, y: 0 }, 1);
    a.cycle_animation(&mut s, &AnimationDirection::Left, &Position { x: -1000, y: 0 }, 1);
    assert!(s.flip_x);
    a.cycle_animation(&mut s, &AnimationDirection::Right, &Position { x: 0, y: 0 }, 1);
    assert!(!s.flip_x);
}

#[test]
fn linear_transform_steps_at_the_threshold() {
    let mut a = LinearTransformAnimation::new(vec![7, 8], 2, false);
    let mut s = sprite();
    assert_eq!(a.cycle_animation(&mut s, &Position { x: 0, y: 9 }, 5), Some(()));
    assert_eq!(s.index, 0);
    assert_eq!(a.cycle_animation(&mut s, &Position { x: 0, y: 10 }, 5), Some(()));
    assert_eq!(s.index, 7);
    assert_eq!(a.cycle_animation(&mut s, &Position { x: -10, y: 10 }, 5), Some(()));
    assert_eq!(s.index, 8);
    assert_eq!(a.cycle_animation(&mut s, &Position { x: -20, y: 10 }, 5), None);
    assert_eq!(a.sprite_index(&AnimationDirection::Still), 7);
}

#[test]
fn single_frame_blocking_timer_finishes_once() {
    let mut a = SingleFrameAnimation::new(2, rows(0, 1, 2, 3), true, 4, 250 * MS, grid(5));
    let mut s = sprite();
    a.cycle_animation(&mut s, &AnimationDirection::Up, 100 * MS);
    assert!(!a.blocking_finished);
    assert_eq!(s.index, 2 * 5 + 2);
    a.cycle_animation(&mut s, &AnimationDirection::Up, 150 * MS);
    assert!(a.blocking_finished);
    a.cycle_animation(&mut s, &AnimationDirection::Up, 10 * MS);
    assert!(a.blocking_finished);
    a.reset_animation();
    assert!(!a.blocking_finished);
}

#[test]
fn single_frame_without_timer_never_finishes() {
    let mut a = SingleFrameAnimation::new(0, rows(0, 1, 2, 3), true, 1, 0, grid(2));
    let mut s = sprite();
    for _ in 0..5 {
        a.cycle_animation(&mut s, &AnimationDirection::Left, u64::MAX);
    }
    assert!(!a.blocking_finished);
}

#[test]
fn single_frame_reset_clears_the_flips() {
    let flip = AnimationDirectionIndexes::FlipBased(FlipBasedDirection {
        left_direction_is_flipped: true,
        x_direction_index: 1,
    });
    let mut a = SingleFrameAnimation::new(3, flip, false, 0, 0, grid(4));
    let mut s = sprite();
    a.cycle_animation(&mut s, &AnimationDirection::Left, MS);
    assert!(s.flip_x);
    assert_eq!(s.index, 4 + 3);
    s.flip_y = true;
    a.reset_and_render(&mut s, &AnimationDirection::Right);
    assert!(!s.flip_x);
    assert!(!s.flip_y);
    assert_eq!(s.index, 4 + 3);
}

#[test]
fn timer_repeats_and_resets() {
    let mut t = AnimationTimer::from_nanos(10);
    t.tick(4);
    assert!(!t.finished());
    t.tick(9);
    assert!(t.finished());
    assert_eq!(t.elapsed, 3);
    t.tick(1);
    assert!(!t.finished());
    t.set_duration(2);
    t.reset();
    assert_eq!(t.elapsed, 0);
    assert_eq!(t.duration, 2);
    t.tick(u64::MAX);
    assert!(t.finished());
}

#[test]
fn zero_timer_finishes_every_tick() {
    let mut t = AnimationTimer::from_nanos(0);
    t.tick(0);
    assert!(t.finished());
    assert_eq!(t.elapsed, 0);
}
