use vstd::prelude::*;

use crate::animations::{
    INITIAL_ROW, LinearTimedAnimation, LinearTransformAnimation, SingleFrameAnimation, TimedAnimation, TransformAnimation,
    moved_enough,
};
use crate::frames::{cell_index, column_at, cursor_after};
use crate::registry::{AnimatingEntity, is_fx_start, named_has, named_pos};
use crate::systems::{AdvanceOutcome, PlayOutcome, WorldEntity, advanced, is_new_for, played};
use crate::types::{AnimationDirection, AnimationType, Drive, Handles, Position, SpriteState};

verus! {

/// What each of a run of advances of a timed animation draws, and whether it goes on.
pub open spec fn timed_run(a: TimedAnimation, sprite: SpriteState, direction: AnimationDirection, deltas: Seq<u64>) -> Seq<
    (SpriteState, bool),
>
    decreases deltas.len(),
{
    if deltas.len() == 0 {
        Seq::empty()
    } else {
        let (b, s, go) = a.cycled(sprite, direction, deltas[0]);
        seq![(s, go)] + timed_run(b, s, direction, deltas.drop_first())
    }
}

/// The duration that the timer holds once `k` frames of a fresh animation have been drawn.
pub open spec fn active_duration(timings: Seq<u64>, k: int) -> u64 {
    if k == 0 {
        timings[0]
    } else {
        timings[k - 1]
    }
}

#[verifier::spinoff_prover]
#[verifier::rlimit(50)]
proof fn lemma_timed_run_from(
    a: TimedAnimation,
    sprite: SpriteState,
    direction: AnimationDirection,
    deltas: Seq<u64>,
    k: int,
    row: usize,
)
    requires
        a.wf(),
        !a.repeating,
        0 <= k <= a.animation_frames@.len(),
        a.animation_tick == k + 1,
        a.animation_timer.elapsed == 0,
        a.animation_timer.duration == active_duration(a.frame_timings_in_nanos@, k),
        a.direction_indexes.y_index_spec(direction, a.previous_dir_index).row() == row,
        deltas.len() == a.animation_frames@.len() + 1 - k,
        forall|j: int| 0 <= j < deltas.len() ==> deltas[j] >= active_duration(a.frame_timings_in_nanos@, k + j),
    ensures
        ({
            let run = timed_run(a, sprite, direction, deltas);
            &&& run.len() == deltas.len()
            &&& forall|j: int|
                0 <= j < a.animation_frames@.len() - k ==> #[trigger] run[j].1 && run[j].0.index == cell_index(
                    row,
                    a.frame.columns,
                    a.animation_frames@[k + j],
                )
            &&& !run[a.animation_frames@.len() - k].1
        }),
    decreases deltas.len(),
{
    let n = a.animation_frames@.len();
    let (b, s, go) = a.cycled(sprite, direction, deltas[0]);
    a.lemma_cycled_wf(sprite, direction, deltas[0]);
    a.direction_indexes.lemma_y_index_bounded(direction, a.previous_dir_index);
    let run = timed_run(a, sprite, direction, deltas);
    let rest = timed_run(b, s, direction, deltas.drop_first());
    assert(run == seq![(s, go)] + rest);
    assert(run[0] == (s, go));
    assert(a.animation_timer.ticked(deltas[0]).finished);
    if k < n {
        assert(go);
        assert(a.row_bound() * a.frame.columns + a.animation_frames@[k] <= usize::MAX);
        crate::frames::lemma_cell_fits(row, a.row_bound(), a.frame.columns, a.animation_frames@[k]);
        assert(s.index == cell_index(row, a.frame.columns, a.animation_frames@[k]));
        assert(deltas.drop_first().len() == n + 1 - (k + 1));
        assert forall|j: int| 0 <= j < deltas.drop_first().len() implies deltas.drop_first()[j] >= active_duration(
            b.frame_timings_in_nanos@,
            k + 1 + j,
        ) by {
            assert(deltas.drop_first()[j] == deltas[j + 1]);
        }
        lemma_timed_run_from(b, s, direction, deltas.drop_first(), k + 1, row);
        assert forall|j: int| 0 <= j < n - k implies #[trigger] run[j].1 && run[j].0.index == cell_index(
            row,
            a.frame.columns,
            a.animation_frames@[k + j],
        ) by {
            if j > 0 {
                assert(run[j] == rest[j - 1]);
                assert(rest[j - 1].1);
                assert(k + 1 + (j - 1) == k + j);
            }
        }
        assert(run[n - k] == rest[n - k - 1]);
        assert(run.len() == deltas.len());
    } else {
        assert(!go);
        assert(rest.len() == 0);
        assert(run.len() == deltas.len());
    }
}

/// A fresh non-repeating timed animation of N frames, advanced N + 1 times by at least the
/// duration its timer holds each time, draws its N frames in order and then gives the terminal
/// signal.
#[verifier::spinoff_prover]
#[verifier::rlimit(50)]
pub proof fn lemma_timed_runs_out(a: TimedAnimation, sprite: SpriteState, direction: AnimationDirection, deltas: Seq<u64>)
    requires
        a.wf(),
        a == a.initial(),
        !a.repeating,
        deltas.len() == a.animation_frames@.len() + 1,
        forall|j: int| 0 <= j < deltas.len() ==> deltas[j] >= active_duration(a.frame_timings_in_nanos@, j),
    ensures
        ({
            let run = timed_run(a, sprite, direction, deltas);
            let row = a.direction_indexes.y_index_spec(direction, INITIAL_ROW).row();
            &&& run.len() == deltas.len()
            &&& forall|j: int|
                0 <= j < a.animation_frames@.len() ==> #[trigger] run[j].1 && run[j].0.index == cell_index(
                    row,
                    a.frame.columns,
                    a.animation_frames@[j],
                )
            &&& !run[a.animation_frames@.len() as int].1
        }),
{
    let row = a.direction_indexes.y_index_spec(direction, INITIAL_ROW).row();
    assert forall|j: int| 0 <= j < deltas.len() implies deltas[j] >= active_duration(a.frame_timings_in_nanos@, 0 + j) by {
        assert(0 + j == j);
    }
    lemma_timed_run_from(a, sprite, direction, deltas, 0, row);
    let run = timed_run(a, sprite, direction, deltas);
    assert forall|j: int| 0 <= j < a.animation_frames@.len() implies #[trigger] run[j].1 && run[j].0.index == cell_index(
        row,
        a.frame.columns,
        a.animation_frames@[j],
    ) by {
        assert(a.animation_frames@[0 + j] == a.animation_frames@[j]);
    }
}

/// What each of a run of advances of a single-row timed animation draws, and whether it goes on.
pub open spec fn linear_timed_run(a: LinearTimedAnimation, sprite: SpriteState, deltas: Seq<u64>) -> Seq<(SpriteState, bool)>
    decreases deltas.len(),
{
    if deltas.len() == 0 {
        Seq::empty()
    } else {
        let (b, s, go) = a.cycled(sprite, deltas[0]);
        seq![(s, go)] + linear_timed_run(b, s, deltas.drop_first())
    }
}

#[verifier::spinoff_prover]
#[verifier::rlimit(50)]
proof fn lemma_linear_timed_run_from(a: LinearTimedAnimation, sprite: SpriteState, deltas: Seq<u64>, k: int)
    requires
        a.wf(),
        !a.repeating,
        0 <= k <= a.animation_frames@.len(),
        a.animation_tick == k + 1,
        a.animation_timer.elapsed == 0,
        a.animation_timer.duration == active_duration(a.frame_timings_in_nanos@, k),
        deltas.len() == a.animation_frames@.len() + 1 - k,
        forall|j: int| 0 <= j < deltas.len() ==> deltas[j] >= active_duration(a.frame_timings_in_nanos@, k + j),
    ensures
        ({
            let run = linear_timed_run(a, sprite, deltas);
            &&& run.len() == deltas.len()
            &&& forall|j: int|
                0 <= j < a.animation_frames@.len() - k ==> #[trigger] run[j].1 && run[j].0.index
                    == a.animation_frames@[k + j]
            &&& !run[a.animation_frames@.len() - k].1
        }),
    decreases deltas.len(),
{
    let n = a.animation_frames@.len();
    let (b, s, go) = a.cycled(sprite, deltas[0]);
    let run = linear_timed_run(a, sprite, deltas);
    let rest = linear_timed_run(b, s, deltas.drop_first());
    assert(run == seq![(s, go)] + rest);
    assert(run[0] == (s, go));
    assert(a.animation_timer.ticked(deltas[0]).finished);
    if k < n {
        assert(go);
        assert(s.index == a.animation_frames@[k]);
        assert forall|j: int| 0 <= j < deltas.drop_first().len() implies deltas.drop_first()[j] >= active_duration(
            b.frame_timings_in_nanos@,
            k + 1 + j,
        ) by {
            assert(deltas.drop_first()[j] == deltas[j + 1]);
        }
        lemma_linear_timed_run_from(b, s, deltas.drop_first(), k + 1);
        assert forall|j: int| 0 <= j < n - k implies #[trigger] run[j].1 && run[j].0.index == a.animation_frames@[k
            + j] by {
            if j > 0 {
                assert(run[j] == rest[j - 1]);
                assert(rest[j - 1].1);
                assert(k + 1 + (j - 1) == k + j);
            }
        }
        assert(run[n - k] == rest[n - k - 1]);
    } else {
        assert(!go);
    }
}

/// A fresh non-repeating single-row timed animation of N frames, advanced N + 1 times by at
/// least the duration its timer holds each time, draws its N frames in order and then gives the
/// terminal signal.
#[verifier::spinoff_prover]
#[verifier::rlimit(50)]
pub proof fn lemma_linear_timed_runs_out(a: LinearTimedAnimation, sprite: SpriteState, deltas: Seq<u64>)
    requires
        a.wf(),
        a == a.initial(),
        !a.repeating,
        deltas.len() == a.animation_frames@.len() + 1,
        forall|j: int| 0 <= j < deltas.len() ==> deltas[j] >= active_duration(a.frame_timings_in_nanos@, j),
    ensures
        ({
            let run = linear_timed_run(a, sprite, deltas);
            &&& run.len() == deltas.len()
            &&& forall|j: int|
                0 <= j < a.animation_frames@.len() ==> #[trigger] run[j].1 && run[j].0.index == a.animation_frames@[j]
            &&& !run[a.animation_frames@.len() as int].1
        }),
{
    assert forall|j: int| 0 <= j < deltas.len() implies deltas[j] >= active_duration(a.frame_timings_in_nanos@, 0 + j) by {
        assert(0 + j == j);
    }
    lemma_linear_timed_run_from(a, sprite, deltas, 0);
    let run = linear_timed_run(a, sprite, deltas);
    assert forall|j: int| 0 <= j < a.animation_frames@.len() implies #[trigger] run[j].1 && run[j].0.index
        == a.animation_frames@[j] by {
        assert(a.animation_frames@[0 + j] == a.animation_frames@[j]);
    }
}

/// A repeating animation never gives the terminal signal, and once its cursor has run past the
/// last frame, an advance either leaves it there or draws the first frame and moves on to the
/// second.
pub proof fn lemma_repeating_wraps(a: AnimationType, sprite: SpriteState, direction: AnimationDirection, drive: Drive)
    requires
        a.wf(),
        a.repeating_spec(),
    ensures
        a.cycled(sprite, direction, drive).2,
        a.cursor_spec() == a.frame_count() + 1 ==> {
            let b = a.cycled(sprite, direction, drive).0;
            b.cursor_spec() == 2 || b.cursor_spec() == a.cursor_spec()
        },
{
}

/// A repeating timed animation whose cursor has run past its last frame draws the first frame
/// again on the advance that runs its timer out, and moves the cursor on to the second.
pub proof fn lemma_timed_wraps_to_first_frame(a: TimedAnimation, sprite: SpriteState, direction: AnimationDirection, delta: u64)
    requires
        a.wf(),
        a.repeating,
        a.animation_tick == a.animation_frames@.len() + 1,
        a.animation_timer.ticked(delta).finished,
    ensures
        ({
            let (b, s, go) = a.cycled(sprite, direction, delta);
            let row = a.direction_indexes.y_index_spec(direction, a.previous_dir_index).row();
            &&& go
            &&& b.animation_tick == 2
            &&& s.index == cell_index(row, a.frame.columns, a.animation_frames@[0])
        }),
{
    let row = a.direction_indexes.y_index_spec(direction, a.previous_dir_index).row();
    a.direction_indexes.lemma_y_index_bounded(direction, a.previous_dir_index);
    assert(a.row_bound() * a.frame.columns + a.animation_frames@[0] <= usize::MAX);
    crate::frames::lemma_cell_fits(row, a.row_bound(), a.frame.columns, a.animation_frames@[0]);
}

/// Rewinding an animation gives what a never-advanced animation of the same configuration draws,
/// whatever the direction.
pub proof fn lemma_reset_matches_fresh(a: AnimationType, fresh: AnimationType, direction: AnimationDirection)
    requires
        fresh == fresh.initial(),
        a.initial().matches(fresh.initial()),
    ensures
        a.initial().sprite_index_spec(direction) == fresh.sprite_index_spec(direction),
{
    a.initial().lemma_matches(fresh.initial());
}

/// A directional distance-driven animation keeps its state while the entity has moved less than
/// the distance between frames since the last frame and its row is unchanged; at or beyond that
/// distance it draws the frame at the cursor and moves the cursor on.
pub proof fn lemma_transform_threshold(
    a: TransformAnimation,
    sprite: SpriteState,
    direction: AnimationDirection,
    position: Position,
    pixels_per_meter: u64,
)
    requires
        a.wf(),
    ensures
        ({
            let (b, s, go) = a.cycled(sprite, direction, position, pixels_per_meter);
            let row = a.direction_indexes.y_index_spec(direction, a.previous_dir_index).row();
            &&& !moved_enough(a.previous_position, position, pixels_per_meter, a.millimeters_per_frame) && row
                == a.previous_dir_index ==> b == a && go && s.flip_x == sprite.flip_x
            &&& moved_enough(a.previous_position, position, pixels_per_meter, a.millimeters_per_frame) ==> {
                &&& b.previous_position == position
                &&& b.animation_tick == cursor_after(
                    a.animation_frames@.len() as int,
                    a.animation_tick as int,
                    a.repeating,
                )
                &&& go ==> s.index == cell_index(
                    row,
                    a.frame.columns,
                    column_at(a.animation_frames@, a.animation_tick as int, a.repeating)->Some_0,
                )
            }
        }),
{
    a.lemma_cycled_wf(sprite, direction, position, pixels_per_meter);
    let row = a.direction_indexes.y_index_spec(direction, a.previous_dir_index).row();
    a.direction_indexes.lemma_y_index_bounded(direction, a.previous_dir_index);
    let (b, s, go) = a.cycled(sprite, direction, position, pixels_per_meter);
    if go && moved_enough(a.previous_position, position, pixels_per_meter, a.millimeters_per_frame) {
        let p = crate::frames::shown_position(a.animation_frames@.len() as int, a.animation_tick as int, a.repeating)->Some_0;
        assert(a.row_bound() * a.frame.columns + a.animation_frames@[p - 1] <= usize::MAX);
        crate::frames::lemma_cell_fits(row, a.row_bound(), a.frame.columns, a.animation_frames@[p - 1]);
    }
}

/// A single-row distance-driven animation keeps its state while the entity has moved less than
/// the distance between frames since the last frame; at or beyond that distance it draws the
/// frame at the cursor and moves the cursor on.
pub proof fn lemma_linear_transform_threshold(
    a: LinearTransformAnimation,
    sprite: SpriteState,
    position: Position,
    pixels_per_meter: u64,
)
    requires
        a.wf(),
    ensures
        ({
            let (b, s, go) = a.cycled(sprite, position, pixels_per_meter);
            &&& !moved_enough(a.previous_position, position, pixels_per_meter, a.millimeters_per_frame) ==> b == a
                && s == sprite && go
            &&& moved_enough(a.previous_position, position, pixels_per_meter, a.millimeters_per_frame) ==> {
                &&& b.previous_position == position
                &&& b.animation_tick == cursor_after(
                    a.animation_frames@.len() as int,
                    a.animation_tick as int,
                    a.repeating,
                )
                &&& go ==> s.index == column_at(a.animation_frames@, a.animation_tick as int, a.repeating)->Some_0
            }
        }),
{
}

/// A directional distance-driven animation whose row changes draws at once, even when the
/// entity has not moved: the frame at the cursor, in the new row.
pub proof fn lemma_transform_turn_redraws(
    a: TransformAnimation,
    sprite: SpriteState,
    direction: AnimationDirection,
    position: Position,
    pixels_per_meter: u64,
)
    requires
        a.wf(),
        a.direction_indexes.y_index_spec(direction, a.previous_dir_index).row() != a.previous_dir_index,
    ensures
        ({
            let (b, s, go) = a.cycled(sprite, direction, position, pixels_per_meter);
            let row = a.direction_indexes.y_index_spec(direction, a.previous_dir_index).row();
            &&& b.previous_position == position
            &&& go ==> b.previous_dir_index == row && s.index == cell_index(
                row,
                a.frame.columns,
                column_at(a.animation_frames@, a.animation_tick as int, a.repeating)->Some_0,
            )
        }),
{
    a.lemma_cycled_wf(sprite, direction, position, pixels_per_meter);
    let row = a.direction_indexes.y_index_spec(direction, a.previous_dir_index).row();
    a.direction_indexes.lemma_y_index_bounded(direction, a.previous_dir_index);
    let (b, s, go) = a.cycled(sprite, direction, position, pixels_per_meter);
    if go {
        let p = crate::frames::shown_position(a.animation_frames@.len() as int, a.animation_tick as int, a.repeating)->Some_0;
        assert(a.row_bound() * a.frame.columns + a.animation_frames@[p - 1] <= usize::MAX);
        crate::frames::lemma_cell_fits(row, a.row_bound(), a.frame.columns, a.animation_frames@[p - 1]);
    }
}

/// While an entity plays a blocking timed animation, or a blocking pose whose blocking time is
/// not over, a request for another animation of no higher priority is refused and changes
/// nothing, and one of higher priority is taken.
pub proof fn lemma_blocking_priority(
    e: AnimatingEntity,
    e2: AnimatingEntity,
    s: SpriteState,
    s2: SpriteState,
    name: Seq<char>,
    direction: AnimationDirection,
    handles: Handles,
    outcome: PlayOutcome,
)
    requires
        e.wf(),
        named_has(e.animations@, name),
        played(e, e2, s, s2, name, direction, handles, outcome),
        e.in_blocking_animation,
        is_new_for(e, name),
        e.current() is Timed || (e.current() is SingleFrame && !e.current()->SingleFrame_0.blocking_finished),
    ensures
        ({
            let next = e.animations@[named_pos(e.animations@, name)];
            let held = e.current().priority_spec();
            &&& next.priority_spec() <= held ==> outcome == PlayOutcome::Rejected && e2 == e && s2 == s
            &&& next.priority_spec() > held ==> outcome == PlayOutcome::Switched(handles) && e2.curr_animation
                == Some(named_pos(e.animations@, name) as usize)
        }),
{
}

/// A blocking pose holds off requests of no higher priority only until its blocking timer runs
/// out: the timer running out marks it finished, it stays finished, and from then on any request
/// for another animation is taken.
pub proof fn lemma_pose_timeout(
    a: SingleFrameAnimation,
    sprite: SpriteState,
    direction: AnimationDirection,
    delta: u64,
    e: AnimatingEntity,
    e2: AnimatingEntity,
    s: SpriteState,
    s2: SpriteState,
    name: Seq<char>,
    handles: Handles,
    outcome: PlayOutcome,
)
    requires
        named_has(e.animations@, name),
        played(e, e2, s, s2, name, direction, handles, outcome),
        is_new_for(e, name),
        e.current() is SingleFrame && e.current()->SingleFrame_0.blocking_finished,
    ensures
        a.blocking_timer.duration != 0 && a.blocking_timer.ticked(delta).finished ==> a.cycled(
            sprite,
            direction,
            delta,
        ).0.blocking_finished,
        a.blocking_finished ==> a.cycled(sprite, direction, delta).0.blocking_finished,
        outcome == PlayOutcome::Switched(handles),
        e2.curr_animation == Some(named_pos(e.animations@, name) as usize),
{
}

/// An effect plays from its start; while its animation goes on, each tick keeps it an effect and
/// keeps it playing; the tick on which the animation gives the terminal signal queues it for
/// removal. An entity that is no effect stays instead, idle and no longer blocking.
pub proof fn lemma_fx_lifecycle(
    e: AnimatingEntity,
    e2: AnimatingEntity,
    we: WorldEntity,
    w2: Option<WorldEntity>,
    delta: u64,
    pixels_per_meter: u64,
    outcome: AdvanceOutcome,
)
    requires
        e.wf(),
        e.curr_animation_called,
        advanced(e, e2, Some(we), w2, delta, pixels_per_meter, outcome),
    ensures
        ({
            let c = e.curr_animation->Some_0 as int;
            let drive = Drive { delta, position: we.position, pixels_per_meter };
            let go = e.animations@[c].cycled(we.sprite, e.last_valid_direction, drive).2;
            &&& go ==> outcome == AdvanceOutcome::Advanced && e2.fx_animation == e.fx_animation
                && e2.curr_animation_called && e2.curr_animation == e.curr_animation
            &&& !go && e.fx_animation ==> outcome.removes()
            &&& !go && !e.fx_animation ==> !outcome.removes() && e2.entity == e.entity
                && !e2.in_blocking_animation
        }),
{
}

/// An effect entity, as it starts, is one that the ticks advance.
pub proof fn lemma_fx_start_plays(e: AnimatingEntity, entity: u64, animation: AnimationType)
    requires
        is_fx_start(e, entity, animation),
    ensures
        e.curr_animation_called,
        e.fx_animation,
        e.curr_animation is Some,
{
}

} // verus!
