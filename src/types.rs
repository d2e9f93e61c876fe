use vstd::prelude::*;

use crate::animations::{
    INITIAL_ROW, LinearTimedAnimation, LinearTransformAnimation, SingleFrameAnimation, TimedAnimation, TransformAnimation,
};

verus! {

/// Name under which an animation is registered; unique within a pool.
pub type AnimationName = String;

/// Identifier of an entity of the host world.
pub type EntityId = u64;

/// Which way an entity faces. `Still` is the initial direction.
#[derive(Clone, Copy, Debug, PartialEq, Eq, Structural)]
pub enum AnimationDirection {
    Left,
    Right,
    Up,
    Down,
    Still,
}

/// A vector of the unit grid: each coordinate is -1, 0 or 1.
#[derive(Clone, Copy, Debug, PartialEq, Eq, Structural)]
pub struct DirectionVector {
    pub x: i8,
    pub y: i8,
}

impl AnimationDirection {
    /// The unit vector of a direction, y pointing up; `Still` has the zero vector.
    pub open spec fn vector_spec(self) -> (int, int) {
        match self {
            AnimationDirection::Left => (-1, 0),
            AnimationDirection::Right => (1, 0),
            AnimationDirection::Up => (0, 1),
            AnimationDirection::Down => (0, -1),
            AnimationDirection::Still => (0, 0),
        }
    }

    /// The horizontal mirror image: `Left` and `Right` swap, every other direction gives `Still`.
    pub open spec fn mirror_spec(self) -> AnimationDirection {
        match self {
            AnimationDirection::Left => AnimationDirection::Right,
            AnimationDirection::Right => AnimationDirection::Left,
            _ => AnimationDirection::Still,
        }
    }

    pub fn get_direction(direction: &Self) -> (r: DirectionVector)
        ensures
            (r.x as int, r.y as int) == direction.vector_spec(),
    {
        match direction {
            AnimationDirection::Left => DirectionVector { x: -1, y: 0 },
            AnimationDirection::Right => DirectionVector { x: 1, y: 0 },
            AnimationDirection::Up => DirectionVector { x: 0, y: 1 },
            AnimationDirection::Down => DirectionVector { x: 0, y: -1 },
            AnimationDirection::Still => DirectionVector { x: 0, y: 0 },
        }
    }

    pub fn mirror_horizontal(&self) -> (r: AnimationDirection)
        ensures
            r == self.mirror_spec(),
    {
        match self {
            AnimationDirection::Left => AnimationDirection::Right,
            AnimationDirection::Right => AnimationDirection::Left,
            _ => AnimationDirection::Still,
        }
    }

    pub fn is_still(&self) -> (r: bool)
        ensures
            r == (*self == AnimationDirection::Still),
    {
        match self {
            AnimationDirection::Still => true,
            _ => false,
        }
    }
}

impl Default for AnimationDirection {
    fn default() -> (r: Self)
        ensures
            r == AnimationDirection::Still,
    {
        AnimationDirection::Still
    }
}

/// One row of the sprite sheet for each of the four directions (rows count from 0).
#[derive(Clone, Copy, Debug, PartialEq, Eq, Structural)]
pub struct IndexBasedDirection {
    pub left: usize,
    pub right: usize,
    pub up: usize,
    pub down: usize,
}

/// One row for every direction; facing right is drawn as the mirror image of facing left.
#[derive(Clone, Copy, Debug, PartialEq, Eq, Structural)]
pub struct FlipBasedDirection {
    /// Whether the left-facing frames are drawn flipped.
    pub left_direction_is_flipped: bool,
    /// The row of the horizontal directions.
    pub x_direction_index: usize,
}

/// A fixed row, whatever the direction (effects have no direction).
#[derive(Clone, Copy, Debug, PartialEq, Eq, Structural)]
pub struct FXBasedDirection {
    pub index: usize,
}

/// How a direction selects the row of the sprite sheet.
#[derive(Clone, Copy, Debug, PartialEq, Eq, Structural)]
pub enum AnimationDirectionIndexes {
    IndexBased(IndexBasedDirection),
    FlipBased(FlipBasedDirection),
    FX(FXBasedDirection),
}

/// A resolved row, with the horizontal flip to apply for flip-based sheets.
#[derive(Clone, Copy, Debug, PartialEq, Eq, Structural)]
pub enum YIndex {
    Index(usize),
    Flip(bool, usize),
}

impl YIndex {
    pub open spec fn row(self) -> usize {
        match self {
            YIndex::Index(r) => r,
            YIndex::Flip(_, r) => r,
        }
    }

    /// The flip flag of the sprite once this row is drawn: a plain row leaves it as it was.
    pub open spec fn apply_flip(self, flip_x: bool) -> bool {
        match self {
            YIndex::Index(_) => flip_x,
            YIndex::Flip(f, _) => f,
        }
    }

    /// The flip flag that this resolution stands for: a plain row is never flipped.
    pub open spec fn flip_spec(self) -> bool {
        match self {
            YIndex::Index(_) => false,
            YIndex::Flip(f, _) => f,
        }
    }

    pub fn get_row(&self) -> (r: usize)
        ensures
            r == self.row(),
    {
        match self {
            YIndex::Index(r) => *r,
            YIndex::Flip(_, r) => *r,
        }
    }

    pub fn is_flipped(&self) -> (r: bool)
        ensures
            r == self.flip_spec(),
    {
        match self {
            YIndex::Index(_) => false,
            YIndex::Flip(f, _) => *f,
        }
    }
}

impl Default for AnimationDirectionIndexes {
    fn default() -> (r: Self)
        ensures
            r == AnimationDirectionIndexes::IndexBased(
                IndexBasedDirection { left: 1, right: 1, up: 1, down: 1 },
            ),
    {
        AnimationDirectionIndexes::IndexBased(
            IndexBasedDirection { left: 1, right: 1, up: 1, down: 1 },
        )
    }
}

pub open spec fn max_usize(a: usize, b: usize) -> usize {
    if a >= b {
        a
    } else {
        b
    }
}

impl AnimationDirectionIndexes {
    /// The row (and flip) that `direction` selects; `Still` keeps `previous_row`.
    pub open spec fn y_index_spec(self, direction: AnimationDirection, previous_row: usize) -> YIndex {
        match self {
            AnimationDirectionIndexes::IndexBased(i) => match direction {
                AnimationDirection::Left => YIndex::Index(i.left),
                AnimationDirection::Right => YIndex::Index(i.right),
                AnimationDirection::Up => YIndex::Index(i.up),
                AnimationDirection::Down => YIndex::Index(i.down),
                AnimationDirection::Still => YIndex::Index(previous_row),
            },
            AnimationDirectionIndexes::FlipBased(f) => match direction {
                AnimationDirection::Left => YIndex::Flip(f.left_direction_is_flipped, f.x_direction_index),
                AnimationDirection::Right => YIndex::Flip(!f.left_direction_is_flipped, f.x_direction_index),
                AnimationDirection::Up => YIndex::Flip(false, f.x_direction_index),
                AnimationDirection::Down => YIndex::Flip(false, f.x_direction_index),
                AnimationDirection::Still => YIndex::Flip(false, previous_row),
            },
            AnimationDirectionIndexes::FX(fx) => YIndex::Index(fx.index),
        }
    }

    /// The largest row that the configuration names.
    pub open spec fn max_row(self) -> usize {
        match self {
            AnimationDirectionIndexes::IndexBased(i) => max_usize(
                max_usize(i.left, i.right),
                max_usize(i.up, i.down),
            ),
            AnimationDirectionIndexes::FlipBased(f) => f.x_direction_index,
            AnimationDirectionIndexes::FX(fx) => fx.index,
        }
    }

    /// Resolution never leaves the rows that the configuration and `previous_row` name, and
    /// resolving the same direction again from the row it gave gives that row once more.
    pub proof fn lemma_y_index_bounded(self, direction: AnimationDirection, previous_row: usize)
        ensures
            self.y_index_spec(direction, previous_row).row() <= max_usize(self.max_row(), previous_row),
            self.y_index_spec(direction, self.y_index_spec(direction, previous_row).row())
                == self.y_index_spec(direction, previous_row),
    {
    }

    pub fn get_y_index(&self, direction: &AnimationDirection, previous_row: usize) -> (r: YIndex)
        ensures
            r == self.y_index_spec(*direction, previous_row),
    {
        match self {
            AnimationDirectionIndexes::IndexBased(i) => match direction {
                AnimationDirection::Left => YIndex::Index(i.left),
                AnimationDirection::Right => YIndex::Index(i.right),
                AnimationDirection::Up => YIndex::Index(i.up),
                AnimationDirection::Down => YIndex::Index(i.down),
                AnimationDirection::Still => YIndex::Index(previous_row),
            },
            AnimationDirectionIndexes::FlipBased(f) => match direction {
                AnimationDirection::Left => YIndex::Flip(f.left_direction_is_flipped, f.x_direction_index),
                AnimationDirection::Right => YIndex::Flip(!f.left_direction_is_flipped, f.x_direction_index),
                AnimationDirection::Up => YIndex::Flip(false, f.x_direction_index),
                AnimationDirection::Down => YIndex::Flip(false, f.x_direction_index),
                AnimationDirection::Still => YIndex::Flip(false, previous_row),
            },
            AnimationDirectionIndexes::FX(fx) => YIndex::Index(fx.index),
        }
    }
}

/// What the host draws for an entity: the cell of the sheet and the mirror flags.
#[derive(Clone, Copy, Debug, PartialEq, Eq, Structural)]
pub struct SpriteState {
    pub index: usize,
    pub flip_x: bool,
    pub flip_y: bool,
}

/// A position in the host world, in thousandths of a pixel.
#[derive(Clone, Copy, Debug, PartialEq, Eq, Structural)]
pub struct Position {
    pub x: i64,
    pub y: i64,
}

/// The grid of a sprite sheet: columns and rows of frames.
#[derive(Clone, Copy, Debug, PartialEq, Eq, Structural)]
pub struct FrameGrid {
    pub columns: usize,
    pub rows: usize,
}

/// Image and atlas-layout handles of a sprite sheet, as ids that the host hands out.
#[derive(Clone, Copy, Debug, PartialEq, Eq, Structural)]
pub struct Handles {
    pub image: u64,
    pub layout: u64,
}

/// What drives an advance: the time since the last tick and where the entity stands now.
#[derive(Clone, Copy, Debug, PartialEq, Eq, Structural)]
pub struct Drive {
    /// Nanoseconds since the last tick.
    pub delta: u64,
    pub position: Position,
    pub pixels_per_meter: u64,
}

/// One animation of any kind, with its name; `Empty` is a placeholder that holds no animation.
#[derive(Debug)]
pub enum AnimationType {
    /// For characters: shooting a bow, reloading.
    Timed(TimedAnimation, AnimationName),
    /// For characters: walking, running.
    Transform(TransformAnimation, AnimationName),
    /// For objects: a door opening.
    LinearTimed(LinearTimedAnimation, AnimationName),
    /// For objects: a projectile.
    LinearTransform(LinearTransformAnimation, AnimationName),
    /// A held pose.
    SingleFrame(SingleFrameAnimation, AnimationName),
    Empty,
}

impl AnimationType {
    pub open spec fn wf(self) -> bool {
        match self {
            AnimationType::Timed(a, _) => a.wf(),
            AnimationType::Transform(a, _) => a.wf(),
            AnimationType::LinearTimed(a, _) => a.wf(),
            AnimationType::LinearTransform(a, _) => a.wf(),
            AnimationType::SingleFrame(a, _) => a.wf(),
            AnimationType::Empty => true,
        }
    }

    pub open spec fn name_spec(self) -> Seq<char> {
        match self {
            AnimationType::Timed(_, n) => n@,
            AnimationType::Transform(_, n) => n@,
            AnimationType::LinearTimed(_, n) => n@,
            AnimationType::LinearTransform(_, n) => n@,
            AnimationType::SingleFrame(_, n) => n@,
            AnimationType::Empty => Seq::empty(),
        }
    }

    /// Same kind, same name, same configuration and state.
    pub open spec fn matches(self, other: AnimationType) -> bool {
        match (self, other) {
            (AnimationType::Timed(a, n), AnimationType::Timed(b, m)) => a.matches(b) && n@ == m@,
            (AnimationType::Transform(a, n), AnimationType::Transform(b, m)) => a.matches(b) && n@ == m@,
            (AnimationType::LinearTimed(a, n), AnimationType::LinearTimed(b, m)) => a.matches(b) && n@ == m@,
            (AnimationType::LinearTransform(a, n), AnimationType::LinearTransform(b, m)) => a.matches(b) && n@
                == m@,
            (AnimationType::SingleFrame(a, n), AnimationType::SingleFrame(b, m)) => a.matches(b) && n@ == m@,
            (AnimationType::Empty, AnimationType::Empty) => true,
            _ => false,
        }
    }

    /// Whether the animation starts over after its last frame; a pose never ends.
    pub open spec fn repeating_spec(self) -> bool {
        match self {
            AnimationType::Timed(a, _) => a.repeating,
            AnimationType::Transform(a, _) => a.repeating,
            AnimationType::LinearTimed(a, _) => a.repeating,
            AnimationType::LinearTransform(a, _) => a.repeating,
            _ => true,
        }
    }

    /// The 1-based cursor into the frames (a pose stays at its one frame).
    pub open spec fn cursor_spec(self) -> int {
        match self {
            AnimationType::Timed(a, _) => a.animation_tick as int,
            AnimationType::Transform(a, _) => a.animation_tick as int,
            AnimationType::LinearTimed(a, _) => a.animation_tick as int,
            AnimationType::LinearTransform(a, _) => a.animation_tick as int,
            _ => 1,
        }
    }

    /// How many frames the animation cycles through.
    pub open spec fn frame_count(self) -> int {
        match self {
            AnimationType::Timed(a, _) => a.animation_frames@.len() as int,
            AnimationType::Transform(a, _) => a.animation_frames@.len() as int,
            AnimationType::LinearTimed(a, _) => a.animation_frames@.len() as int,
            AnimationType::LinearTransform(a, _) => a.animation_frames@.len() as int,
            _ => 1,
        }
    }

    /// Whether the animation holds off requests of no higher priority while it plays.
    pub open spec fn blocking_spec(self) -> bool {
        match self {
            AnimationType::Timed(a, _) => a.blocking,
            AnimationType::SingleFrame(a, _) => a.blocking,
            _ => false,
        }
    }

    pub open spec fn priority_spec(self) -> i32 {
        match self {
            AnimationType::Timed(a, _) => a.blocking_priority,
            AnimationType::SingleFrame(a, _) => a.blocking_priority,
            _ => 0,
        }
    }

    pub open spec fn initial(self) -> AnimationType {
        match self {
            AnimationType::Timed(a, n) => AnimationType::Timed(a.initial(), n),
            AnimationType::Transform(a, n) => AnimationType::Transform(a.initial(), n),
            AnimationType::LinearTimed(a, n) => AnimationType::LinearTimed(a.initial(), n),
            AnimationType::LinearTransform(a, n) => AnimationType::LinearTransform(a.initial(), n),
            AnimationType::SingleFrame(a, n) => AnimationType::SingleFrame(a.initial(), n),
            AnimationType::Empty => AnimationType::Empty,
        }
    }

    pub open spec fn sprite_index_spec(self, direction: AnimationDirection) -> int {
        match self {
            AnimationType::Timed(a, _) => a.sprite_index_spec(direction),
            AnimationType::Transform(a, _) => a.sprite_index_spec(direction),
            AnimationType::LinearTimed(a, _) => a.sprite_index_spec(),
            AnimationType::LinearTransform(a, _) => a.sprite_index_spec(),
            AnimationType::SingleFrame(a, _) => a.sprite_index_spec(direction),
            AnimationType::Empty => 0,
        }
    }

    /// What a rewind that draws leaves on the sprite: the first frame for `direction`; directional
    /// kinds apply their flip, a pose clears both flips.
    pub open spec fn reset_rendered(self, sprite: SpriteState, direction: AnimationDirection) -> SpriteState {
        match self {
            AnimationType::Timed(a, _) => SpriteState {
                index: a.initial().sprite_index_spec(direction) as usize,
                flip_x: a.direction_indexes.y_index_spec(direction, INITIAL_ROW).apply_flip(sprite.flip_x),
                ..sprite
            },
            AnimationType::Transform(a, _) => SpriteState {
                index: a.initial().sprite_index_spec(direction) as usize,
                flip_x: a.direction_indexes.y_index_spec(direction, INITIAL_ROW).apply_flip(sprite.flip_x),
                ..sprite
            },
            AnimationType::LinearTimed(a, _) => SpriteState { index: a.animation_frames@[0], ..sprite },
            AnimationType::LinearTransform(a, _) => SpriteState { index: a.animation_frames@[0], ..sprite },
            AnimationType::SingleFrame(a, _) => SpriteState {
                index: a.initial().sprite_index_spec(direction) as usize,
                flip_x: false,
                flip_y: false,
            },
            AnimationType::Empty => sprite,
        }
    }

    /// One advance of whichever kind this is: timed kinds take the time, distance-driven kinds
    /// the position; a pose never ends.
    pub open spec fn cycled(self, sprite: SpriteState, direction: AnimationDirection, drive: Drive) -> (
        AnimationType,
        SpriteState,
        bool,
    ) {
        match self {
            AnimationType::Timed(a, n) => {
                let (b, s, go) = a.cycled(sprite, direction, drive.delta);
                (AnimationType::Timed(b, n), s, go)
            },
            AnimationType::Transform(a, n) => {
                let (b, s, go) = a.cycled(sprite, direction, drive.position, drive.pixels_per_meter);
                (AnimationType::Transform(b, n), s, go)
            },
            AnimationType::LinearTimed(a, n) => {
                let (b, s, go) = a.cycled(sprite, drive.delta);
                (AnimationType::LinearTimed(b, n), s, go)
            },
            AnimationType::LinearTransform(a, n) => {
                let (b, s, go) = a.cycled(sprite, drive.position, drive.pixels_per_meter);
                (AnimationType::LinearTransform(b, n), s, go)
            },
            AnimationType::SingleFrame(a, n) => {
                let (b, s) = a.cycled(sprite, direction, drive.delta);
                (AnimationType::SingleFrame(b, n), s, true)
            },
            AnimationType::Empty => (AnimationType::Empty, sprite, true),
        }
    }

    /// Copies agree on everything the library reads.
    pub proof fn lemma_matches(self, other: AnimationType)
        requires
            self.matches(other),
        ensures
            self.wf() == other.wf(),
            self.name_spec() == other.name_spec(),
            (self is Empty) == (other is Empty),
            self.blocking_spec() == other.blocking_spec(),
            self.priority_spec() == other.priority_spec(),
            forall|d: AnimationDirection| #[trigger] self.sprite_index_spec(d) == other.sprite_index_spec(d),
    {
    }

    /// Advancing or rewinding keeps the kind and the name.
    pub proof fn lemma_cycled_keeps(self, sprite: SpriteState, direction: AnimationDirection, drive: Drive)
        ensures
            self.cycled(sprite, direction, drive).0.name_spec() == self.name_spec(),
            (self.cycled(sprite, direction, drive).0 is Empty) == (self is Empty),
            self.initial().name_spec() == self.name_spec(),
            (self.initial() is Empty) == (self is Empty),
    {
    }

    pub fn is_empty(&self) -> (r: bool)
        ensures
            r == (*self is Empty),
    {
        match self {
            AnimationType::Empty => true,
            _ => false,
        }
    }

    pub fn get_name(&self) -> (r: &AnimationName)
        requires
            !(*self is Empty),
        ensures
            r@ == self.name_spec(),
    {
        match self {
            AnimationType::Timed(_, n) => n,
            AnimationType::Transform(_, n) => n,
            AnimationType::LinearTimed(_, n) => n,
            AnimationType::LinearTransform(_, n) => n,
            AnimationType::SingleFrame(_, n) => n,
            AnimationType::Empty => vstd::pervasive::unreached(),
        }
    }

    /// The timed animation, when this is one.
    pub fn timed_animation(&mut self) -> (r: Option<&mut TimedAnimation>)
        ensures
            match *old(self) {
                AnimationType::Timed(a, n) => r is Some && *r->Some_0 == a && *final(self) == AnimationType::Timed(
                    *final(r->Some_0),
                    n,
                ),
                _ => r is None && *final(self) == *old(self),
            },
    {
        match self {
            AnimationType::Timed(a, _) => Some(a),
            _ => None,
        }
    }

    /// The directional distance-driven animation, when this is one.
    pub fn transform_animation(&mut self) -> (r: Option<&mut TransformAnimation>)
        ensures
            match *old(self) {
                AnimationType::Transform(a, n) => r is Some && *r->Some_0 == a && *final(self) == AnimationType::Transform(
                    *final(r->Some_0),
                    n,
                ),
                _ => r is None && *final(self) == *old(self),
            },
    {
        match self {
            AnimationType::Transform(a, _) => Some(a),
            _ => None,
        }
    }

    /// The single-row timed animation, when this is one.
    pub fn linear_timed_animation(&mut self) -> (r: Option<&mut LinearTimedAnimation>)
        ensures
            match *old(self) {
                AnimationType::LinearTimed(a, n) => r is Some && *r->Some_0 == a && *final(self) == AnimationType::LinearTimed(
                    *final(r->Some_0),
                    n,
                ),
                _ => r is None && *final(self) == *old(self),
            },
    {
        match self {
            AnimationType::LinearTimed(a, _) => Some(a),
            _ => None,
        }
    }

    /// The single-row distance-driven animation, when this is one.
    pub fn linear_transform_animation(&mut self) -> (r: Option<&mut LinearTransformAnimation>)
        ensures
            match *old(self) {
                AnimationType::LinearTransform(a, n) => r is Some && *r->Some_0 == a && *final(self) == AnimationType::LinearTransform(
                    *final(r->Some_0),
                    n,
                ),
                _ => r is None && *final(self) == *old(self),
            },
    {
        match self {
            AnimationType::LinearTransform(a, _) => Some(a),
            _ => None,
        }
    }

    /// The pose, when this is one.
    pub fn single_frame_animation(&mut self) -> (r: Option<&mut SingleFrameAnimation>)
        ensures
            match *old(self) {
                AnimationType::SingleFrame(a, n) => r is Some && *r->Some_0 == a && *final(self) == AnimationType::SingleFrame(
                    *final(r->Some_0),
                    n,
                ),
                _ => r is None && *final(self) == *old(self),
            },
    {
        match self {
            AnimationType::SingleFrame(a, _) => Some(a),
            _ => None,
        }
    }

    /// Whether the animation blocks, and its priority.
    pub fn blocking(&self) -> (r: (bool, i32))
        ensures
            r == (self.blocking_spec(), self.priority_spec()),
    {
        match self {
            AnimationType::Timed(a, _) => (a.blocking, a.blocking_priority),
            AnimationType::SingleFrame(a, _) => (a.blocking, a.blocking_priority),
            _ => (false, 0),
        }
    }

    pub fn clone_animation(&self) -> (r: AnimationType)
        ensures
            r.matches(*self),
    {
        match self {
            AnimationType::Timed(a, n) => AnimationType::Timed(a.clone_animation(), n.clone()),
            AnimationType::Transform(a, n) => AnimationType::Transform(a.clone_animation(), n.clone()),
            AnimationType::LinearTimed(a, n) => AnimationType::LinearTimed(a.clone_animation(), n.clone()),
            AnimationType::LinearTransform(a, n) => AnimationType::LinearTransform(a.clone_animation(), n.clone()),
            AnimationType::SingleFrame(a, n) => AnimationType::SingleFrame(a.clone_animation(), n.clone()),
            AnimationType::Empty => AnimationType::Empty,
        }
    }

    /// The cell drawn now for `direction`, without advancing.
    pub fn sprite_index(&self, direction: &AnimationDirection) -> (r: usize)
        requires
            self.wf(),
        ensures
            r == self.sprite_index_spec(*direction),
    {
        match self {
            AnimationType::Timed(a, _) => a.sprite_index(direction),
            AnimationType::Transform(a, _) => a.sprite_index(direction),
            AnimationType::LinearTimed(a, _) => a.sprite_index(direction),
            AnimationType::LinearTransform(a, _) => a.sprite_index(direction),
            AnimationType::SingleFrame(a, _) => a.sprite_index(direction),
            AnimationType::Empty => 0,
        }
    }

    /// Advances whichever kind this is; a `None` result is the terminal signal.
    pub fn cycle_animation(&mut self, sprite: &mut SpriteState, direction: &AnimationDirection, drive: &Drive) -> (r: Option<()>)
        requires
            old(self).wf(),
            !(*old(self) is Empty),
        ensures
            (*final(self), *final(sprite), r.is_some()) == old(self).cycled(*old(sprite), *direction, *drive),
            final(self).wf(),
    {
        match self {
            AnimationType::Timed(a, _) => a.cycle_animation(sprite, direction, drive.delta),
            AnimationType::Transform(a, _) => a.cycle_animation(sprite, direction, &drive.position, drive.pixels_per_meter),
            AnimationType::LinearTimed(a, _) => a.cycle_animation(sprite, drive.delta),
            AnimationType::LinearTransform(a, _) => a.cycle_animation(sprite, &drive.position, drive.pixels_per_meter),
            AnimationType::SingleFrame(a, _) => {
                a.cycle_animation(sprite, direction, drive.delta);
                Some(())
            },
            AnimationType::Empty => vstd::pervasive::unreached(),
        }
    }

    /// Rewinds to the state of a new animation, drawing nothing.
    pub fn reset_animation(&mut self)
        requires
            old(self).wf(),
        ensures
            *final(self) == old(self).initial(),
            final(self).wf(),
    {
        match self {
            AnimationType::Timed(a, _) => a.reset_animation(),
            AnimationType::Transform(a, _) => a.reset_animation(),
            AnimationType::LinearTimed(a, _) => a.reset_animation(),
            AnimationType::LinearTransform(a, _) => a.reset_animation(),
            AnimationType::SingleFrame(a, _) => a.reset_animation(),
            AnimationType::Empty => {},
        }
    }

    /// Rewinds, then draws the first frame for `direction`.
    pub fn reset_and_render(&mut self, sprite: &mut SpriteState, direction: &AnimationDirection)
        requires
            old(self).wf(),
        ensures
            *final(self) == old(self).initial(),
            final(self).wf(),
            *final(sprite) == old(self).reset_rendered(*old(sprite), *direction),
            !(*old(self) is Empty) ==> final(sprite).index == old(self).initial().sprite_index_spec(*direction),
    {
        match self {
            AnimationType::Timed(a, _) => a.reset_and_render(sprite, direction),
            AnimationType::Transform(a, _) => a.reset_and_render(sprite, direction),
            AnimationType::LinearTimed(a, _) => a.reset_and_render(sprite),
            AnimationType::LinearTransform(a, _) => a.reset_and_render(sprite),
            AnimationType::SingleFrame(a, _) => a.reset_and_render(sprite, direction),
            AnimationType::Empty => {},
        }
    }
}

impl Default for AnimationType {
    fn default() -> (r: Self)
        ensures
            r is Empty,
    {
        AnimationType::Empty
    }
}

} // verus!
