use vstd::prelude::*;

use crate::frames::{cell, cell_index, column_at, frame_at_cursor, frames_fit, lemma_cell_fits, shown_position};
use crate::timer::AnimationTimer;
use crate::types::{AnimationDirection, AnimationDirectionIndexes, FrameGrid, Position, SpriteState, YIndex, max_usize};

verus! {

/// The row that a directional animation remembers before it has been drawn facing anywhere.
pub const INITIAL_ROW: usize = 1;

/// Copies a list of frames or timings.
fn copy_vec<T: Copy>(v: &Vec<T>) -> (r: Vec<T>)
    ensures
        r@ == v@,
{
    let mut r: Vec<T> = Vec::new();
    let mut i: usize = 0;
    while i < v.len()
        invariant
            i <= v.len(),
            r@ == v@.subrange(0, i as int),
        decreases v.len() - i,
    {
        r.push(v[i]);
        i += 1;
    }
    assert(r@ =~= v@);
    r
}

/// How far apart two positions are: the larger of the horizontal and the vertical distance.
pub open spec fn distance(a: Position, b: Position) -> int {
    let dx = if a.x >= b.x { a.x - b.x } else { b.x - a.x };
    let dy = if a.y >= b.y { a.y - b.y } else { b.y - a.y };
    if dx >= dy { dx } else { dy }
}

/// Whether a move from `from` to `to` is far enough for the next frame: positions count
/// thousandths of a pixel, so `pixels_per_meter` times `millimeters_per_frame` is the distance
/// between two frames.
pub open spec fn moved_enough(from: Position, to: Position, pixels_per_meter: u64, millimeters_per_frame: u64) -> bool {
    distance(from, to) >= pixels_per_meter * millimeters_per_frame
}

fn ready_to_animate(from: &Position, to: &Position, pixels_per_meter: u64, millimeters_per_frame: u64) -> (r: bool)
    ensures
        r == moved_enough(*from, *to, pixels_per_meter, millimeters_per_frame),
{
    let dx: i128 = if to.x >= from.x { to.x as i128 - from.x as i128 } else { from.x as i128 - to.x as i128 };
    let dy: i128 = if to.y >= from.y { to.y as i128 - from.y as i128 } else { from.y as i128 - to.y as i128 };
    proof {
        let (a, b) = (pixels_per_meter as int, millimeters_per_frame as int);
        assert(a * b <= u64::MAX * u64::MAX) by (nonlinear_arith)
            requires
                0 <= a <= u64::MAX,
                0 <= b <= u64::MAX,
        ;
    }
    let modifier: u128 = (pixels_per_meter as u128) * (millimeters_per_frame as u128);
    dx as u128 >= modifier || dy as u128 >= modifier
}

/// Time-driven frames on a sheet with one row per direction (a bow shot, a reload).
///
/// The cursor counts frames from 1. The timer starts with the first frame's duration; when it
/// runs out, the frame at the cursor is drawn and the timer is loaded with that frame's duration.
#[derive(Debug)]
pub struct TimedAnimation {
    pub animation_tick: usize,
    pub previous_dir_index: usize,
    /// One duration per frame, in nanoseconds.
    pub frame_timings_in_nanos: Vec<u64>,
    pub blocking: bool,
    pub blocking_priority: i32,
    /// The column of each frame.
    pub animation_frames: Vec<usize>,
    pub frame: FrameGrid,
    pub direction_indexes: AnimationDirectionIndexes,
    pub repeating: bool,
    pub animation_timer: AnimationTimer,
}

impl TimedAnimation {
    /// The largest row this animation can draw.
    pub open spec fn row_bound(self) -> usize {
        max_usize(self.direction_indexes.max_row(), INITIAL_ROW)
    }

    pub open spec fn wf(self) -> bool {
        &&& 1 <= self.animation_frames@.len() < usize::MAX
        &&& self.frame_timings_in_nanos@.len() >= self.animation_frames@.len()
        &&& 1 <= self.animation_tick <= self.animation_frames@.len() + 1
        &&& self.previous_dir_index <= self.row_bound()
        &&& frames_fit(self.animation_frames@, self.row_bound(), self.frame.columns)
    }

    /// Same configuration and same state, lists compared by their contents.
    pub open spec fn matches(self, other: Self) -> bool {
        &&& self.animation_tick == other.animation_tick
        &&& self.previous_dir_index == other.previous_dir_index
        &&& self.frame_timings_in_nanos@ == other.frame_timings_in_nanos@
        &&& self.blocking == other.blocking
        &&& self.blocking_priority == other.blocking_priority
        &&& self.animation_frames@ == other.animation_frames@
        &&& self.frame == other.frame
        &&& self.direction_indexes == other.direction_indexes
        &&& self.repeating == other.repeating
        &&& self.animation_timer == other.animation_timer
    }

    /// The state of a new animation with this configuration.
    pub open spec fn initial(self) -> Self {
        TimedAnimation {
            animation_tick: 1,
            previous_dir_index: INITIAL_ROW,
            animation_timer: AnimationTimer::new_spec(self.frame_timings_in_nanos@[0]),
            ..self
        }
    }

    /// The cell drawn now for `direction`, without advancing.
    pub open spec fn sprite_index_spec(self, direction: AnimationDirection) -> int {
        let row = self.direction_indexes.y_index_spec(direction, self.previous_dir_index).row();
        let column = match column_at(self.animation_frames@, self.animation_tick as int, self.repeating) {
            Some(c) => c,
            None => 0,
        };
        cell_index(row, self.frame.columns, column)
    }

    /// One advance by `delta` nanoseconds: the next state, the sprite, and whether the animation
    /// goes on (false is the terminal signal).
    pub open spec fn cycled(self, sprite: SpriteState, direction: AnimationDirection, delta: u64) -> (
        TimedAnimation,
        SpriteState,
        bool,
    ) {
        let timer = self.animation_timer.ticked(delta);
        if !timer.finished {
            (TimedAnimation { animation_timer: timer, ..self }, sprite, true)
        } else {
            let y = self.direction_indexes.y_index_spec(direction, self.previous_dir_index);
            let flipped = SpriteState { flip_x: y.apply_flip(sprite.flip_x), ..sprite };
            let len = self.animation_frames@.len() as int;
            match shown_position(len, self.animation_tick as int, self.repeating) {
                None => (
                    TimedAnimation {
                        animation_timer: timer,
                        previous_dir_index: y.row(),
                        animation_tick: 1,
                        ..self
                    },
                    flipped,
                    false,
                ),
                Some(p) => (
                    TimedAnimation {
                        animation_timer: AnimationTimer::new_spec(self.frame_timings_in_nanos@[p - 1]),
                        previous_dir_index: y.row(),
                        animation_tick: (p + 1) as usize,
                        ..self
                    },
                    SpriteState {
                        index: cell_index(y.row(), self.frame.columns, self.animation_frames@[p - 1]) as usize,
                        ..flipped
                    },
                    true,
                ),
            }
        }
    }

    pub proof fn lemma_cycled_wf(self, sprite: SpriteState, direction: AnimationDirection, delta: u64)
        requires
            self.wf(),
        ensures
            self.cycled(sprite, direction, delta).0.wf(),
    {
        self.direction_indexes.lemma_y_index_bounded(direction, self.previous_dir_index);
    }

    pub fn new(
        animation_frames: Vec<usize>,
        frame_timings_in_nanos: Vec<u64>,
        frame: FrameGrid,
        direction_indexes: AnimationDirectionIndexes,
        repeating: bool,
        blocking: bool,
        blocking_priority: i32,
    ) -> (r: Self)
        requires
            1 <= animation_frames@.len() < usize::MAX,
            frame_timings_in_nanos@.len() >= animation_frames@.len(),
            frames_fit(animation_frames@, max_usize(direction_indexes.max_row(), INITIAL_ROW), frame.columns),
        ensures
            r.wf(),
            r == r.initial(),
            r.animation_frames@ == animation_frames@,
            r.frame_timings_in_nanos@ == frame_timings_in_nanos@,
            r.frame == frame,
            r.direction_indexes == direction_indexes,
            r.repeating == repeating,
            r.blocking == blocking,
            r.blocking_priority == blocking_priority,
    {
        let timer_dur = frame_timings_in_nanos[0];
        TimedAnimation {
            animation_tick: 1,
            previous_dir_index: INITIAL_ROW,
            frame_timings_in_nanos,
            blocking,
            blocking_priority,
            animation_frames,
            frame,
            direction_indexes,
            repeating,
            animation_timer: AnimationTimer::from_nanos(timer_dur),
        }
    }

    pub fn clone_animation(&self) -> (r: Self)
        ensures
            r.matches(*self),
    {
        TimedAnimation {
            animation_tick: self.animation_tick,
            previous_dir_index: self.previous_dir_index,
            frame_timings_in_nanos: copy_vec(&self.frame_timings_in_nanos),
            blocking: self.blocking,
            blocking_priority: self.blocking_priority,
            animation_frames: copy_vec(&self.animation_frames),
            frame: self.frame,
            direction_indexes: self.direction_indexes,
            repeating: self.repeating,
            animation_timer: self.animation_timer,
        }
    }

    pub fn sprite_index(&self, direction: &AnimationDirection) -> (r: usize)
        requires
            self.wf(),
        ensures
            r == self.sprite_index_spec(*direction),
    {
        let y = self.direction_indexes.get_y_index(direction, self.previous_dir_index);
        let row = y.get_row();
        proof {
            self.direction_indexes.lemma_y_index_bounded(*direction, self.previous_dir_index);
        }
        let column = match frame_at_cursor(&self.animation_frames, self.animation_tick, self.repeating) {
            Some((_, c)) => c,
            None => 0,
        };
        proof {
            if column_at(self.animation_frames@, self.animation_tick as int, self.repeating).is_some() {
                let p = shown_position(self.animation_frames@.len() as int, self.animation_tick as int, self.repeating).unwrap();
                assert(self.row_bound() * self.frame.columns + self.animation_frames@[p - 1] <= usize::MAX);
            } else {
                assert(self.row_bound() * self.frame.columns + self.animation_frames@[0] <= usize::MAX);
            }
            lemma_cell_fits(row, self.row_bound(), self.frame.columns, column);
        }
        cell(row, self.frame.columns, column)
    }

    /// Advances the timer by `delta` nanoseconds and draws the next frame once it runs out.
    /// Returns `None` when a non-repeating animation has no frame left; the cursor then rewinds.
    pub fn cycle_animation(&mut self, sprite: &mut SpriteState, direction: &AnimationDirection, delta: u64) -> (r: Option<()>)
        requires
            old(self).wf(),
        ensures
            (*final(self), *final(sprite), r.is_some()) == old(self).cycled(*old(sprite), *direction, delta),
            final(self).wf(),
    {
        proof {
            self.lemma_cycled_wf(*sprite, *direction, delta);
        }
        self.animation_timer.tick(delta);
        if !self.animation_timer.finished() {
            return Some(());
        }
        let y = self.direction_indexes.get_y_index(direction, self.previous_dir_index);
        proof {
            self.direction_indexes.lemma_y_index_bounded(*direction, self.previous_dir_index);
        }
        match y {
            YIndex::Flip(flipped, _) => {
                sprite.flip_x = flipped;
            },
            YIndex::Index(_) => {},
        }
        let row = y.get_row();
        self.previous_dir_index = row;
        match frame_at_cursor(&self.animation_frames, self.animation_tick, self.repeating) {
            None => {
                self.animation_tick = 1;
                None
            },
            Some((p, column)) => {
                proof {
                    lemma_cell_fits(row, self.row_bound(), self.frame.columns, column);
                }
                sprite.index = cell(row, self.frame.columns, column);
                let timing = self.frame_timings_in_nanos[p - 1];
                self.animation_timer.set_duration(timing);
                self.animation_timer.reset();
                self.animation_tick = p + 1;
                Some(())
            },
        }
    }

    /// Rewinds to the state of a new animation with this configuration.
    pub fn reset_animation(&mut self)
        requires
            old(self).wf(),
        ensures
            *final(self) == old(self).initial(),
            final(self).wf(),
    {
        self.animation_tick = 1;
        self.previous_dir_index = INITIAL_ROW;
        let first = self.frame_timings_in_nanos[0];
        self.animation_timer.set_duration(first);
        self.animation_timer.reset();
    }

    /// Rewinds, then draws the first frame for `direction`.
    pub fn reset_and_render(&mut self, sprite: &mut SpriteState, direction: &AnimationDirection)
        requires
            old(self).wf(),
        ensures
            *final(self) == old(self).initial(),
            final(self).wf(),
            final(sprite).index == old(self).initial().sprite_index_spec(*direction),
            final(sprite).flip_x == old(self).direction_indexes.y_index_spec(*direction, INITIAL_ROW).apply_flip(
                old(sprite).flip_x,
            ),
            final(sprite).flip_y == old(sprite).flip_y,
    {
        self.reset_animation();
        sprite.index = self.sprite_index(direction);
        let y = self.direction_indexes.get_y_index(direction, self.previous_dir_index);
        match y {
            YIndex::Flip(flipped, _) => {
                sprite.flip_x = flipped;
            },
            YIndex::Index(_) => {},
        }
    }
}


/// Distance-driven frames on a sheet with one row per direction (walking, running).
///
/// A frame is drawn when the entity has moved far enough since the last one, or at once when the
/// resolved row changes; standing still shows the first frame in the last row.
#[derive(Debug)]
pub struct TransformAnimation {
    pub animation_tick: usize,
    pub previous_dir_index: usize,
    pub previous_position: Position,
    pub animation_frames: Vec<usize>,
    /// Distance between two frames, in thousandths of a meter.
    pub millimeters_per_frame: u64,
    pub frame: FrameGrid,
    pub direction_indexes: AnimationDirectionIndexes,
    pub repeating: bool,
}

impl TransformAnimation {
    pub open spec fn row_bound(self) -> usize {
        max_usize(self.direction_indexes.max_row(), INITIAL_ROW)
    }

    pub open spec fn wf(self) -> bool {
        &&& 1 <= self.animation_frames@.len() < usize::MAX
        &&& 1 <= self.animation_tick <= self.animation_frames@.len() + 1
        &&& self.previous_dir_index <= self.row_bound()
        &&& frames_fit(self.animation_frames@, self.row_bound(), self.frame.columns)
    }

    pub open spec fn matches(self, other: Self) -> bool {
        &&& self.animation_tick == other.animation_tick
        &&& self.previous_dir_index == other.previous_dir_index
        &&& self.previous_position == other.previous_position
        &&& self.animation_frames@ == other.animation_frames@
        &&& self.millimeters_per_frame == other.millimeters_per_frame
        &&& self.frame == other.frame
        &&& self.direction_indexes == other.direction_indexes
        &&& self.repeating == other.repeating
    }

    pub open spec fn initial(self) -> Self {
        TransformAnimation {
            animation_tick: 1,
            previous_dir_index: INITIAL_ROW,
            previous_position: Position { x: 0, y: 0 },
            ..self
        }
    }

    pub open spec fn sprite_index_spec(self, direction: AnimationDirection) -> int {
        let row = self.direction_indexes.y_index_spec(direction, self.previous_dir_index).row();
        let column = match column_at(self.animation_frames@, self.animation_tick as int, self.repeating) {
            Some(c) => c,
            None => 0,
        };
        cell_index(row, self.frame.columns, column)
    }

    /// Whether an advance to `position` draws the next frame: far enough from the last frame's
    /// position, or a row other than the last one drawn.
    pub open spec fn refreshes(self, direction: AnimationDirection, position: Position, pixels_per_meter: u64) -> bool {
        moved_enough(self.previous_position, position, pixels_per_meter, self.millimeters_per_frame)
            || self.direction_indexes.y_index_spec(direction, self.previous_dir_index).row()
            != self.previous_dir_index
    }

    /// One advance to `position`: the next state, the sprite, and whether the animation goes on.
    pub open spec fn cycled(
        self,
        sprite: SpriteState,
        direction: AnimationDirection,
        position: Position,
        pixels_per_meter: u64,
    ) -> (TransformAnimation, SpriteState, bool) {
        let y = self.direction_indexes.y_index_spec(direction, self.previous_dir_index);
        if self.refreshes(direction, position, pixels_per_meter) {
            match shown_position(self.animation_frames@.len() as int, self.animation_tick as int, self.repeating) {
                None => (
                    TransformAnimation { previous_position: position, animation_tick: 1, ..self },
                    sprite,
                    false,
                ),
                Some(p) => (
                    TransformAnimation {
                        previous_position: position,
                        previous_dir_index: y.row(),
                        animation_tick: (p + 1) as usize,
                        ..self
                    },
                    SpriteState {
                        index: cell_index(y.row(), self.frame.columns, self.animation_frames@[p - 1]) as usize,
                        flip_x: y.apply_flip(sprite.flip_x),
                        ..sprite
                    },
                    true,
                ),
            }
        } else if direction == AnimationDirection::Still {
            (
                self,
                SpriteState {
                    index: cell_index(self.previous_dir_index, self.frame.columns, self.animation_frames@[0]) as usize,
                    ..sprite
                },
                true,
            )
        } else {
            (self, sprite, true)
        }
    }

    pub proof fn lemma_cycled_wf(
        self,
        sprite: SpriteState,
        direction: AnimationDirection,
        position: Position,
        pixels_per_meter: u64,
    )
        requires
            self.wf(),
        ensures
            self.cycled(sprite, direction, position, pixels_per_meter).0.wf(),
    {
        self.direction_indexes.lemma_y_index_bounded(direction, self.previous_dir_index);
    }

    pub fn new(
        animation_frames: Vec<usize>,
        millimeters_per_frame: u64,
        frame: FrameGrid,
        direction_indexes: AnimationDirectionIndexes,
        repeating: bool,
    ) -> (r: Self)
        requires
            1 <= animation_frames@.len() < usize::MAX,
            frames_fit(animation_frames@, max_usize(direction_indexes.max_row(), INITIAL_ROW), frame.columns),
        ensures
            r.wf(),
            r == r.initial(),
            r.animation_frames@ == animation_frames@,
            r.millimeters_per_frame == millimeters_per_frame,
            r.frame == frame,
            r.direction_indexes == direction_indexes,
            r.repeating == repeating,
    {
        TransformAnimation {
            animation_tick: 1,
            previous_dir_index: INITIAL_ROW,
            previous_position: Position { x: 0, y: 0 },
            animation_frames,
            millimeters_per_frame,
            frame,
            direction_indexes,
            repeating,
        }
    }

    pub fn clone_animation(&self) -> (r: Self)
        ensures
            r.matches(*self),
    {
        TransformAnimation {
            animation_tick: self.animation_tick,
            previous_dir_index: self.previous_dir_index,
            previous_position: self.previous_position,
            animation_frames: copy_vec(&self.animation_frames),
            millimeters_per_frame: self.millimeters_per_frame,
            frame: self.frame,
            direction_indexes: self.direction_indexes,
            repeating: self.repeating,
        }
    }

    pub fn sprite_index(&self, direction: &AnimationDirection) -> (r: usize)
        requires
            self.wf(),
        ensures
            r == self.sprite_index_spec(*direction),
    {
        let y = self.direction_indexes.get_y_index(direction, self.previous_dir_index);
        let row = y.get_row();
        proof {
            self.direction_indexes.lemma_y_index_bounded(*direction, self.previous_dir_index);
        }
        let column = match frame_at_cursor(&self.animation_frames, self.animation_tick, self.repeating) {
            Some((_, c)) => c,
            None => 0,
        };
        proof {
            if column_at(self.animation_frames@, self.animation_tick as int, self.repeating).is_some() {
                let p = shown_position(self.animation_frames@.len() as int, self.animation_tick as int, self.repeating).unwrap();
                assert(self.row_bound() * self.frame.columns + self.animation_frames@[p - 1] <= usize::MAX);
            } else {
                assert(self.row_bound() * self.frame.columns + self.animation_frames@[0] <= usize::MAX);
            }
            lemma_cell_fits(row, self.row_bound(), self.frame.columns, column);
        }
        cell(row, self.frame.columns, column)
    }

    /// Advances to the entity's new `position`. Returns `None` when a non-repeating animation
    /// has no frame left; the cursor then rewinds.
    pub fn cycle_animation(
        &mut self,
        sprite: &mut SpriteState,
        direction: &AnimationDirection,
        position: &Position,
        pixels_per_meter: u64,
    ) -> (r: Option<()>)
        requires
            old(self).wf(),
        ensures
            (*final(self), *final(sprite), r.is_some()) == old(self).cycled(
                *old(sprite),
                *direction,
                *position,
                pixels_per_meter,
            ),
            final(self).wf(),
    {
        proof {
            self.lemma_cycled_wf(*sprite, *direction, *position, pixels_per_meter);
            self.direction_indexes.lemma_y_index_bounded(*direction, self.previous_dir_index);
        }
        let y = self.direction_indexes.get_y_index(direction, self.previous_dir_index);
        let row = y.get_row();
        if ready_to_animate(&self.previous_position, position, pixels_per_meter, self.millimeters_per_frame)
            || row != self.previous_dir_index {
            self.previous_position = *position;
            match frame_at_cursor(&self.animation_frames, self.animation_tick, self.repeating) {
                None => {
                    self.animation_tick = 1;
                    None
                },
                Some((p, column)) => {
                    match y {
                        YIndex::Flip(flipped, _) => {
                            sprite.flip_x = flipped;
                        },
                        YIndex::Index(_) => {},
                    }
                    self.previous_dir_index = row;
                    proof {
                        lemma_cell_fits(row, self.row_bound(), self.frame.columns, column);
                    }
                    sprite.index = cell(row, self.frame.columns, column);
                    self.animation_tick = p + 1;
                    Some(())
                },
            }
        } else if direction.is_still() {
            proof {
                assert(self.row_bound() * self.frame.columns + self.animation_frames@[0] <= usize::MAX);
                lemma_cell_fits(self.previous_dir_index, self.row_bound(), self.frame.columns, self.animation_frames@[0]);
            }
            sprite.index = cell(self.previous_dir_index, self.frame.columns, self.animation_frames[0]);
            Some(())
        } else {
            Some(())
        }
    }

    /// Rewinds to the state of a new animation with this configuration.
    pub fn reset_animation(&mut self)
        requires
            old(self).wf(),
        ensures
            *final(self) == old(self).initial(),
            final(self).wf(),
    {
        self.animation_tick = 1;
        self.previous_dir_index = INITIAL_ROW;
        self.previous_position = Position { x: 0, y: 0 };
    }

    /// Rewinds, then draws the first frame for `direction`.
    pub fn reset_and_render(&mut self, sprite: &mut SpriteState, direction: &AnimationDirection)
        requires
            old(self).wf(),
        ensures
            *final(self) == old(self).initial(),
            final(self).wf(),
            final(sprite).index == old(self).initial().sprite_index_spec(*direction),
            final(sprite).flip_x == old(self).direction_indexes.y_index_spec(*direction, INITIAL_ROW).apply_flip(
                old(sprite).flip_x,
            ),
            final(sprite).flip_y == old(sprite).flip_y,
    {
        self.reset_animation();
        sprite.index = self.sprite_index(direction);
        let y = self.direction_indexes.get_y_index(direction, self.previous_dir_index);
        match y {
            YIndex::Flip(flipped, _) => {
                sprite.flip_x = flipped;
            },
            YIndex::Index(_) => {},
        }
    }
}

/// Time-driven frames on a single-row sheet (a door opening); direction plays no part.
#[derive(Debug)]
pub struct LinearTimedAnimation {
    pub animation_tick: usize,
    pub animation_timer: AnimationTimer,
    /// One duration per frame, in nanoseconds.
    pub frame_timings_in_nanos: Vec<u64>,
    pub animation_frames: Vec<usize>,
    pub repeating: bool,
}

impl LinearTimedAnimation {
    pub open spec fn wf(self) -> bool {
        &&& 1 <= self.animation_frames@.len() < usize::MAX
        &&& self.frame_timings_in_nanos@.len() >= self.animation_frames@.len()
        &&& 1 <= self.animation_tick <= self.animation_frames@.len() + 1
    }

    pub open spec fn matches(self, other: Self) -> bool {
        &&& self.animation_tick == other.animation_tick
        &&& self.animation_timer == other.animation_timer
        &&& self.frame_timings_in_nanos@ == other.frame_timings_in_nanos@
        &&& self.animation_frames@ == other.animation_frames@
        &&& self.repeating == other.repeating
    }

    pub open spec fn initial(self) -> Self {
        LinearTimedAnimation {
            animation_tick: 1,
            animation_timer: AnimationTimer::new_spec(self.frame_timings_in_nanos@[0]),
            ..self
        }
    }

    pub open spec fn sprite_index_spec(self) -> int {
        match column_at(self.animation_frames@, self.animation_tick as int, self.repeating) {
            Some(c) => c as int,
            None => 0,
        }
    }

    pub open spec fn cycled(self, sprite: SpriteState, delta: u64) -> (LinearTimedAnimation, SpriteState, bool) {
        let timer = self.animation_timer.ticked(delta);
        if !timer.finished {
            (LinearTimedAnimation { animation_timer: timer, ..self }, sprite, true)
        } else {
            match shown_position(self.animation_frames@.len() as int, self.animation_tick as int, self.repeating) {
                None => (LinearTimedAnimation { animation_timer: timer, animation_tick: 1, ..self }, sprite, false),
                Some(p) => (
                    LinearTimedAnimation {
                        animation_timer: AnimationTimer::new_spec(self.frame_timings_in_nanos@[p - 1]),
                        animation_tick: (p + 1) as usize,
                        ..self
                    },
                    SpriteState { index: self.animation_frames@[p - 1], ..sprite },
                    true,
                ),
            }
        }
    }

    pub fn new(animation_frames: Vec<usize>, frame_timings_in_nanos: Vec<u64>, repeating: bool) -> (r: Self)
        requires
            1 <= animation_frames@.len() < usize::MAX,
            frame_timings_in_nanos@.len() >= animation_frames@.len(),
        ensures
            r.wf(),
            r == r.initial(),
            r.animation_frames@ == animation_frames@,
            r.frame_timings_in_nanos@ == frame_timings_in_nanos@,
            r.repeating == repeating,
    {
        let first = frame_timings_in_nanos[0];
        LinearTimedAnimation {
            animation_tick: 1,
            animation_timer: AnimationTimer::from_nanos(first),
            frame_timings_in_nanos,
            animation_frames,
            repeating,
        }
    }

    pub fn clone_animation(&self) -> (r: Self)
        ensures
            r.matches(*self),
    {
        LinearTimedAnimation {
            animation_tick: self.animation_tick,
            animation_timer: self.animation_timer,
            frame_timings_in_nanos: copy_vec(&self.frame_timings_in_nanos),
            animation_frames: copy_vec(&self.animation_frames),
            repeating: self.repeating,
        }
    }

    /// The column drawn now; the direction plays no part.
    pub fn sprite_index(&self, _direction: &AnimationDirection) -> (r: usize)
        requires
            self.wf(),
        ensures
            r == self.sprite_index_spec(),
    {
        match frame_at_cursor(&self.animation_frames, self.animation_tick, self.repeating) {
            Some((_, c)) => c,
            None => 0,
        }
    }

    pub fn cycle_animation(&mut self, sprite: &mut SpriteState, delta: u64) -> (r: Option<()>)
        requires
            old(self).wf(),
        ensures
            (*final(self), *final(sprite), r.is_some()) == old(self).cycled(*old(sprite), delta),
            final(self).wf(),
    {
        self.animation_timer.tick(delta);
        if !self.animation_timer.finished() {
            return Some(());
        }
        match frame_at_cursor(&self.animation_frames, self.animation_tick, self.repeating) {
            None => {
                self.animation_tick = 1;
                None
            },
            Some((p, column)) => {
                let timing = self.frame_timings_in_nanos[p - 1];
                self.animation_timer.set_duration(timing);
                self.animation_timer.reset();
                sprite.index = column;
                self.animation_tick = p + 1;
                Some(())
            },
        }
    }

    pub fn reset_animation(&mut self)
        requires
            old(self).wf(),
        ensures
            *final(self) == old(self).initial(),
            final(self).wf(),
    {
        self.animation_tick = 1;
        let first = self.frame_timings_in_nanos[0];
        self.animation_timer.set_duration(first);
        self.animation_timer.reset();
    }

    /// Rewinds, then draws the first frame.
    pub fn reset_and_render(&mut self, sprite: &mut SpriteState)
        requires
            old(self).wf(),
        ensures
            *final(self) == old(self).initial(),
            final(self).wf(),
            *final(sprite) == (SpriteState { index: old(self).animation_frames@[0], ..*old(sprite) }),
    {
        self.reset_animation();
        sprite.index = self.animation_frames[0];
    }
}

/// Distance-driven frames on a single-row sheet (a projectile); direction plays no part.
#[derive(Debug)]
pub struct LinearTransformAnimation {
    pub animation_tick: usize,
    pub previous_position: Position,
    pub animation_frames: Vec<usize>,
    /// Distance between two frames, in thousandths of a meter.
    pub millimeters_per_frame: u64,
    pub repeating: bool,
}

impl LinearTransformAnimation {
    pub open spec fn wf(self) -> bool {
        &&& 1 <= self.animation_frames@.len() < usize::MAX
        &&& 1 <= self.animation_tick <= self.animation_frames@.len() + 1
    }

    pub open spec fn matches(self, other: Self) -> bool {
        &&& self.animation_tick == other.animation_tick
        &&& self.previous_position == other.previous_position
        &&& self.animation_frames@ == other.animation_frames@
        &&& self.millimeters_per_frame == other.millimeters_per_frame
        &&& self.repeating == other.repeating
    }

    pub open spec fn initial(self) -> Self {
        LinearTransformAnimation { animation_tick: 1, previous_position: Position { x: 0, y: 0 }, ..self }
    }

    pub open spec fn sprite_index_spec(self) -> int {
        match column_at(self.animation_frames@, self.animation_tick as int, self.repeating) {
            Some(c) => c as int,
            None => 0,
        }
    }

    pub open spec fn cycled(self, sprite: SpriteState, position: Position, pixels_per_meter: u64) -> (
        LinearTransformAnimation,
        SpriteState,
        bool,
    ) {
        if moved_enough(self.previous_position, position, pixels_per_meter, self.millimeters_per_frame) {
            match shown_position(self.animation_frames@.len() as int, self.animation_tick as int, self.repeating) {
                None => (
                    LinearTransformAnimation { previous_position: position, animation_tick: 1, ..self },
                    sprite,
                    false,
                ),
                Some(p) => (
                    LinearTransformAnimation { previous_position: position, animation_tick: (p + 1) as usize, ..self },
                    SpriteState { index: self.animation_frames@[p - 1], ..sprite },
                    true,
                ),
            }
        } else {
            (self, sprite, true)
        }
    }

    pub fn new(animation_frames: Vec<usize>, millimeters_per_frame: u64, repeating: bool) -> (r: Self)
        requires
            1 <= animation_frames@.len() < usize::MAX,
        ensures
            r.wf(),
            r == r.initial(),
            r.animation_frames@ == animation_frames@,
            r.millimeters_per_frame == millimeters_per_frame,
            r.repeating == repeating,
    {
        LinearTransformAnimation {
            animation_tick: 1,
            previous_position: Position { x: 0, y: 0 },
            animation_frames,
            millimeters_per_frame,
            repeating,
        }
    }

    pub fn clone_animation(&self) -> (r: Self)
        ensures
            r.matches(*self),
    {
        LinearTransformAnimation {
            animation_tick: self.animation_tick,
            previous_position: self.previous_position,
            animation_frames: copy_vec(&self.animation_frames),
            millimeters_per_frame: self.millimeters_per_frame,
            repeating: self.repeating,
        }
    }

    pub fn sprite_index(&self, _direction: &AnimationDirection) -> (r: usize)
        requires
            self.wf(),
        ensures
            r == self.sprite_index_spec(),
    {
        match frame_at_cursor(&self.animation_frames, self.animation_tick, self.repeating) {
            Some((_, c)) => c,
            None => 0,
        }
    }

    pub fn cycle_animation(&mut self, sprite: &mut SpriteState, position: &Position, pixels_per_meter: u64) -> (r: Option<()>)
        requires
            old(self).wf(),
        ensures
            (*final(self), *final(sprite), r.is_some()) == old(self).cycled(*old(sprite), *position, pixels_per_meter),
            final(self).wf(),
    {
        if ready_to_animate(&self.previous_position, position, pixels_per_meter, self.millimeters_per_frame) {
            self.previous_position = *position;
            match frame_at_cursor(&self.animation_frames, self.animation_tick, self.repeating) {
                None => {
                    self.animation_tick = 1;
                    None
                },
                Some((p, column)) => {
                    sprite.index = column;
                    self.animation_tick = p + 1;
                    Some(())
                },
            }
        } else {
            Some(())
        }
    }

    pub fn reset_animation(&mut self)
        requires
            old(self).wf(),
        ensures
            *final(self) == old(self).initial(),
            final(self).wf(),
    {
        self.animation_tick = 1;
        self.previous_position = Position { x: 0, y: 0 };
    }

    /// Rewinds, then draws the first frame.
    pub fn reset_and_render(&mut self, sprite: &mut SpriteState)
        requires
            old(self).wf(),
        ensures
            *final(self) == old(self).initial(),
            final(self).wf(),
            *final(sprite) == (SpriteState { index: old(self).animation_frames@[0], ..*old(sprite) }),
    {
        self.reset_animation();
        sprite.index = self.animation_frames[0];
    }
}

/// One fixed column held as a pose (a jump start), drawn in the row of the direction.
///
/// A blocking timer, when its duration is not zero, marks the pose `blocking_finished` once it
/// runs out, after which any request may replace it.
#[derive(Clone, Copy, Debug, PartialEq, Eq, Structural)]
pub struct SingleFrameAnimation {
    pub blocking: bool,
    pub blocking_priority: i32,
    pub blocking_timer: AnimationTimer,
    pub blocking_finished: bool,
    pub frame: FrameGrid,
    pub x_index_pos: usize,
    pub previous_dir_index: usize,
    pub direction_indexes: AnimationDirectionIndexes,
}

impl SingleFrameAnimation {
    pub open spec fn row_bound(self) -> usize {
        self.direction_indexes.max_row()
    }

    pub open spec fn wf(self) -> bool {
        &&& self.previous_dir_index <= self.row_bound()
        &&& self.row_bound() * self.frame.columns + self.x_index_pos <= usize::MAX
    }

    pub open spec fn matches(self, other: Self) -> bool {
        self == other
    }

    pub open spec fn initial(self) -> Self {
        SingleFrameAnimation {
            blocking_timer: AnimationTimer::new_spec(self.blocking_timer.duration),
            blocking_finished: false,
            previous_dir_index: 0,
            ..self
        }
    }

    pub open spec fn sprite_index_spec(self, direction: AnimationDirection) -> int {
        let row = self.direction_indexes.y_index_spec(direction, self.previous_dir_index).row();
        cell_index(row, self.frame.columns, self.x_index_pos)
    }

    /// One advance by `delta` nanoseconds: the pose is drawn for `direction`; the timer only runs
    /// when its duration is not zero.
    pub open spec fn cycled(self, sprite: SpriteState, direction: AnimationDirection, delta: u64) -> (
        SingleFrameAnimation,
        SpriteState,
    ) {
        let timer = if self.blocking_timer.duration != 0 {
            self.blocking_timer.ticked(delta)
        } else {
            self.blocking_timer
        };
        let y = self.direction_indexes.y_index_spec(direction, self.previous_dir_index);
        (
            SingleFrameAnimation {
                blocking_timer: timer,
                blocking_finished: self.blocking_finished || timer.finished,
                previous_dir_index: y.row(),
                ..self
            },
            SpriteState {
                index: cell_index(y.row(), self.frame.columns, self.x_index_pos) as usize,
                flip_x: y.apply_flip(sprite.flip_x),
                ..sprite
            },
        )
    }

    pub fn new(
        x_index_pos: usize,
        direction_indexes: AnimationDirectionIndexes,
        blocking: bool,
        blocking_priority: i32,
        blocking_duration_in_nanos: u64,
        frame: FrameGrid,
    ) -> (r: Self)
        requires
            direction_indexes.max_row() * frame.columns + x_index_pos <= usize::MAX,
        ensures
            r.wf(),
            r == r.initial(),
            r.x_index_pos == x_index_pos,
            r.direction_indexes == direction_indexes,
            r.blocking == blocking,
            r.blocking_priority == blocking_priority,
            r.blocking_timer.duration == blocking_duration_in_nanos,
            r.frame == frame,
    {
        SingleFrameAnimation {
            blocking,
            blocking_priority,
            blocking_timer: AnimationTimer::from_nanos(blocking_duration_in_nanos),
            blocking_finished: false,
            frame,
            x_index_pos,
            previous_dir_index: 0,
            direction_indexes,
        }
    }

    pub fn clone_animation(&self) -> (r: Self)
        ensures
            r.matches(*self),
    {
        *self
    }

    pub fn sprite_index(&self, direction: &AnimationDirection) -> (r: usize)
        requires
            self.wf(),
        ensures
            r == self.sprite_index_spec(*direction),
    {
        let y = self.direction_indexes.get_y_index(direction, self.previous_dir_index);
        let row = y.get_row();
        proof {
            self.direction_indexes.lemma_y_index_bounded(*direction, self.previous_dir_index);
            lemma_cell_fits(row, self.row_bound(), self.frame.columns, self.x_index_pos);
        }
        cell(row, self.frame.columns, self.x_index_pos)
    }

    pub fn cycle_animation(&mut self, sprite: &mut SpriteState, direction: &AnimationDirection, delta: u64)
        requires
            old(self).wf(),
        ensures
            (*final(self), *final(sprite)) == old(self).cycled(*old(sprite), *direction, delta),
            final(self).wf(),
    {
        if self.blocking_timer.duration != 0 {
            self.blocking_timer.tick(delta);
        }
        if self.blocking_timer.finished() {
            self.blocking_finished = true;
        }
        let y = self.direction_indexes.get_y_index(direction, self.previous_dir_index);
        let row = y.get_row();
        proof {
            self.direction_indexes.lemma_y_index_bounded(*direction, self.previous_dir_index);
            lemma_cell_fits(row, self.row_bound(), self.frame.columns, self.x_index_pos);
        }
        match y {
            YIndex::Flip(flipped, _) => {
                sprite.flip_x = flipped;
            },
            YIndex::Index(_) => {},
        }
        self.previous_dir_index = row;
        sprite.index = cell(row, self.frame.columns, self.x_index_pos);
    }

    pub fn reset_animation(&mut self)
        requires
            old(self).wf(),
        ensures
            *final(self) == old(self).initial(),
            final(self).wf(),
    {
        self.blocking_timer.reset();
        self.blocking_finished = false;
        self.previous_dir_index = 0;
    }

    /// Rewinds, then draws the pose for `direction`, unflipped.
    pub fn reset_and_render(&mut self, sprite: &mut SpriteState, direction: &AnimationDirection)
        requires
            old(self).wf(),
        ensures
            *final(self) == old(self).initial(),
            final(self).wf(),
            final(sprite).index == old(self).initial().sprite_index_spec(*direction),
            !final(sprite).flip_x,
            !final(sprite).flip_y,
    {
        self.reset_animation();
        sprite.index = self.sprite_index(direction);
        sprite.flip_x = false;
        sprite.flip_y = false;
    }
}

} // verus!
