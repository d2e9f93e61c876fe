use bevy_animations::{
    AdvanceOutcome, AnimationDirection, AnimationDirectionIndexes, AnimationType, Animations, AnimationsError,
    EntitesToRemove, FXBasedDirection, FrameGrid, Handles, IndexBasedDirection, LinearTimedAnimation, NewAnimation,
    PlayOutcome, Position, SingleFrameAnimation, SpriteState, TimedAnimation, TransformAnimation, WorldEntity,
};

const MS: u64 = 1_000_000;

fn name(s: &str) -> String {
    s.to_string()
}

fn handles(n: u64) -> Handles {
    Handles { image: n, layout: n + 100 }
}

fn rows() -> AnimationDirectionIndexes {
    AnimationDirectionIndexes::IndexBased(IndexBasedDirection { left: 0, right: 1, up: 2, down: 3 })
}

fn grid() -> FrameGrid {
    FrameGrid { columns: 4, rows: 4 }
}

fn walk() -> NewAnimation {
    NewAnimation {
        handles: handles(1),
        animation: AnimationType::Transform(
            TransformAnimation::new(vec![0, 1, 2, 3], 500, grid(), rows(), true),
            name("walk"),
        ),
    }
}

fn timed(label: &str, h: u64, priority: i32) -> NewAnimation {
    NewAnimation {
        handles: handles(h),
        animation: AnimationType::Timed(
            TimedAnimation::new(vec![1, 2], vec![MS, MS], grid(), rows(), false, true, priority),
            name(label),
        ),
    }
}

fn jump(priority: i32, nanos: u64) -> NewAnimation {
    NewAnimation {
        handles: handles(9),
        animation: AnimationType::SingleFrame(
            SingleFrameAnimation::new(3, rows(), true, priority, nanos, grid()),
            name("jump"),
        ),
    }
}

fn sprite() -> SpriteState {
    SpriteState { index: 0, flip_x: false, flip_y: false }
}

fn world_of(animations: &Animations, facing: AnimationDirection) -> Vec<Option<WorldEntity>> {
    animations
        .entity_ids()
        .iter()
        .map(|_| Some(WorldEntity { sprite: sprite(), direction: facing, position: Position { x: 0, y: 0 } }))
        .collect()
}

fn character() -> Animations {
    let mut a = Animations::new();
    a.insert_animation(walk(), Some(1))
        .insert_animation(timed("attack", 2, 2), None)
        .insert_animation(timed("swing", 3, 2), None)
        .insert_animation(timed("slash", 4, 3), None)
        .insert_animation(jump(5, 100 * MS), None);
    for n in ["attack", "swing", "slash", "jump"] {
        assert_eq!(a.add_animation_to_entity(&name(n), 1), Ok(()));
    }
    a
}

#[test]
fn first_animation_attached_is_current() {
    let mut a = character();
    let mut s = sprite();
    assert_eq!(a.is_new_animation(&name("walk"), &1), Some(false));
    assert_eq!(a.is_new_animation(&name("attack"), &1), Some(true));
    assert_eq!(a.in_animation(1), Some(false));
    assert_eq!(a.play_animation(&name("walk"), 1, &AnimationDirection::Left, &mut s), PlayOutcome::Continued);
    assert_eq!(a.in_animation(1), Some(true));
    assert_eq!(a.doing_animation(1, &name("walk")), Some(true));
}

#[test]
fn switching_draws_the_first_frame_with_the_new_handles() {
    let mut a = character();
    let mut s = sprite();
    a.play_animation(&name("walk"), 1, &AnimationDirection::Up, &mut s);
    // the new animation is drawn facing the last valid direction, known from before this request
    assert_eq!(a.play_animation(&name("attack"), 1, &AnimationDirection::Up, &mut s), PlayOutcome::Switched(handles(2)));
    assert_eq!(s.index, 2 * 4 + 1);
    assert_eq!(a.in_blocking_animation(1), Some(true));
}

#[test]
fn blocking_holds_off_requests_of_no_higher_priority() {
    let mut a = character();
    let mut s = sprite();
    assert_eq!(a.play_animation(&name("attack"), 1, &AnimationDirection::Left, &mut s), PlayOutcome::Switched(handles(2)));
    let before = s;
    assert_eq!(a.play_animation(&name("swing"), 1, &AnimationDirection::Right, &mut s), PlayOutcome::Rejected);
    assert_eq!(a.play_animation(&name("walk"), 1, &AnimationDirection::Right, &mut s), PlayOutcome::Rejected);
    assert_eq!(s, before);
    assert_eq!(a.doing_animation(1, &name("attack")), Some(true));
    assert_eq!(a.play_animation(&name("slash"), 1, &AnimationDirection::Right, &mut s), PlayOutcome::Switched(handles(4)));
    assert_eq!(a.doing_animation(1, &name("slash")), Some(true));
}

#[test]
fn pose_blocks_until_its_timer_runs_out() {
    let mut a = character();
    let mut s = sprite();
    assert_eq!(a.play_animation(&name("jump"), 1, &AnimationDirection::Down, &mut s), PlayOutcome::Switched(handles(9)));
    assert_eq!(a.play_animation(&name("attack"), 1, &AnimationDirection::Down, &mut s), PlayOutcome::Rejected);
    let mut queue = EntitesToRemove::new();
    let mut world = world_of(&a, AnimationDirection::Down);
    let out = a.advance_entities(&mut world, 50 * MS, 10, &mut queue);
    assert_eq!(out, vec![AdvanceOutcome::Advanced]);
    assert_eq!(a.play_animation(&name("attack"), 1, &AnimationDirection::Down, &mut s), PlayOutcome::Rejected);
    let out = a.advance_entities(&mut world, 50 * MS, 10, &mut queue);
    assert_eq!(out, vec![AdvanceOutcome::Advanced]);
    assert_eq!(world[0].unwrap().sprite.index, 3 * 4 + 3);
    assert_eq!(a.play_animation(&name("attack"), 1, &AnimationDirection::Down, &mut s), PlayOutcome::Switched(handles(2)));
    assert!(queue.0.is_empty());
}

#[test]
fn persistent_entity_goes_idle_when_its_animation_ends() {
    let mut a = character();
    let mut s = sprite();
    a.play_animation(&name("attack"), 1, &AnimationDirection::Left, &mut s);
    let mut queue = EntitesToRemove::new();
    let mut world = world_of(&a, AnimationDirection::Left);
    let mut outcomes = Vec::new();
    for _ in 0..3 {
        outcomes.push(a.advance_entities(&mut world, MS, 10, &mut queue)[0]);
    }
    assert_eq!(outcomes, vec![AdvanceOutcome::Advanced, AdvanceOutcome::Advanced, AdvanceOutcome::Finished]);
    assert_eq!(a.in_blocking_animation(1), Some(false));
    assert_eq!(a.in_animation(1), Some(false));
    a.remove_entities(&mut queue);
    assert!(a.has_entity(&1));
    assert_eq!(a.advance_entities(&mut world, MS, 10, &mut queue), vec![AdvanceOutcome::Skipped]);
}

#[test]
fn effect_is_queued_for_removal_when_it_ends() {
    let mut a = Animations::new();
    a.insert_fx_animation(NewAnimation {
        handles: handles(7),
        animation: AnimationType::LinearTimed(LinearTimedAnimation::new(vec![4, 5], vec![MS, MS], false), name("boom")),
    });
    assert_eq!(a.get_fx_handles(&name("boom")), Some(handles(7)));
    assert_eq!(a.start_fx_animation(10, &name("boom")), Ok((handles(7), 4)));
    assert_eq!(a.in_animation(10), Some(true));
    let mut queue = EntitesToRemove::new();
    let mut world = world_of(&a, AnimationDirection::Still);
    let mut outcomes = Vec::new();
    for _ in 0..3 {
        outcomes.push(a.advance_entities(&mut world, MS, 10, &mut queue)[0]);
    }
    assert_eq!(outcomes, vec![AdvanceOutcome::Advanced, AdvanceOutcome::Advanced, AdvanceOutcome::Despawn]);
    assert_eq!(queue.0, vec![10]);
    a.remove_entities(&mut queue);
    assert!(!a.has_entity(&10));
    assert!(queue.0.is_empty());
}

#[test]
fn effect_index_uses_its_fixed_row() {
    let mut a = Animations::new();
    a.insert_fx_animation(NewAnimation {
        handles: handles(8),
        animation: AnimationType::Timed(
            TimedAnimation::new(
                vec![2, 3],
                vec![MS, MS],
                grid(),
                AnimationDirectionIndexes::FX(FXBasedDirection { index: 3 }),
                false,
                false,
                0,
            ),
            name("spark"),
        ),
    });
    assert_eq!(a.start_fx_animation(11, &name("spark")), Ok((handles(8), 3 * 4 + 2)));
}

#[test]
fn unknown_effect_is_refused() {
    let mut a = Animations::new();
    assert_eq!(a.start_fx_animation(10, &name("nope")), Err(()));
    assert!(!a.has_entity(&10));
    assert_eq!(a.get_fx_handles(&name("nope")), None);
}

#[test]
fn entity_missing_from_the_world_is_queued() {
    let mut a = character();
    let mut s = sprite();
    a.play_animation(&name("walk"), 1, &AnimationDirection::Left, &mut s);
    let mut queue = EntitesToRemove::new();
    let mut world: Vec<Option<WorldEntity>> = vec![None];
    assert_eq!(a.advance_entities(&mut world, MS, 10, &mut queue), vec![AdvanceOutcome::Gone]);
    assert_eq!(queue.0, vec![1]);
    a.remove_entities(&mut queue);
    assert!(!a.has_entity(&1));
}

#[test]
fn inserting_a_tracked_entity_is_refused() {
    let mut a = Animations::new();
    assert_eq!(a.insert_entity(3), Ok(()));
    assert!(a.is_inserted(&3));
    assert_eq!(a.insert_entity(3), Err(AnimationsError::EntityExists(3)));
    assert_eq!(a.in_animation(3), Some(false));
    assert_eq!(a.is_new_animation(&name("walk"), &3), Some(true));
    assert_eq!(a.doing_animation(3, &name("walk")), Some(false));
}

#[test]
fn attaching_unknown_or_duplicate_animations_is_refused() {
    let mut a = Animations::new();
    a.insert_animation(walk(), None);
    assert_eq!(a.add_animation_to_entity(&name("run"), 1), Err(AnimationsError::UnknownAnimation(name("run"))));
    assert!(!a.has_entity(&1));
    assert_eq!(a.add_animation_to_entity(&name("walk"), 1), Ok(()));
    assert_eq!(a.add_animation_to_entity(&name("walk"), 1), Err(AnimationsError::AnimationExists(name("walk"), 1)));
    assert_eq!(a.entity_has_animation(&name("walk"), 1), Some(()));
    assert_eq!(a.entity_has_animation(&name("run"), 1), None);
    assert_eq!(a.entity_has_animation(&name("walk"), 2), None);
}

#[test]
fn first_registration_wins() {
    let mut a = Animations::new();
    a.insert_animation(walk(), None);
    let mut again = walk();
    again.handles = handles(50);
    a.insert_animation(again, None);
    assert_eq!(a.get_handles(&name("walk")), Some(handles(1)));
    assert!(a.has_animation(&name("walk")));
    assert!(!a.has_animation(&name("run")));
    assert_eq!(a.get_handles(&name("run")), None);
}

#[test]
fn untracked_entity_queries_give_none() {
    let a = Animations::new();
    assert_eq!(a.in_blocking_animation(4), None);
    assert_eq!(a.in_animation(4), None);
    assert_eq!(a.doing_animation(4, &name("walk")), None);
    assert_eq!(a.is_new_animation(&name("walk"), &4), None);
    assert!(!a.has_entity(&4));
}

#[test]
fn reset_rewinds_the_current_animation() {
    let mut a = character();
    let mut s = sprite();
    a.play_animation(&name("attack"), 1, &AnimationDirection::Left, &mut s);
    let mut queue = EntitesToRemove::new();
    let mut world = world_of(&a, AnimationDirection::Left);
    a.advance_entities(&mut world, MS, 10, &mut queue);
    a.advance_entities(&mut world, MS, 10, &mut queue);
    assert_eq!(world[0].unwrap().sprite.index, 2);
    a.reset_entity_animation(1, &mut s, &AnimationDirection::Up);
    assert_eq!(s.index, 2 * 4 + 1);
}

#[test]
fn direction_is_remembered_except_still() {
    let mut a = character();
    let mut s = sprite();
    a.play_animation(&name("walk"), 1, &AnimationDirection::Down, &mut s);
    a.play_animation(&name("walk"), 1, &AnimationDirection::Still, &mut s);
    let e = a.get_entity(&1).unwrap();
    assert_eq!(e.curr_direction, AnimationDirection::Still);
    assert_eq!(e.last_valid_direction, AnimationDirection::Down);
    assert_eq!(a.get_map().len(), 1);
    assert_eq!(a.entity_ids(), vec![1]);
}
