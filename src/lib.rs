//! Sprite-sheet animation for 2D games: which cell of a sheet an entity shows, how its animation
//! advances with time or movement, and which play requests a blocking animation holds off.
//!
//! Times are nanoseconds, positions thousandths of a pixel, distances between frames thousandths
//! of a meter; rows and columns of a sheet count from 0.

use vstd::prelude::*;

pub mod animations;
pub mod frames;
pub mod lemmas;
pub mod prelude;
pub mod registry;
pub mod systems;
pub mod timer;
pub mod types;

pub use animations::{
    LinearTimedAnimation, LinearTransformAnimation, SingleFrameAnimation, TimedAnimation, TransformAnimation,
    INITIAL_ROW,
};
pub use registry::{AnimatingEntity, Animation, Animations, AnimationsError, NewAnimation};
pub use systems::{
    AdvanceOutcome, AnimationEvent, AnimationsConfig, EntitesToRemove, FXAnimationEvent, PlayOutcome,
    ResetAnimationEvent, WorldEntity,
};
pub use timer::AnimationTimer;
pub use types::{
    AnimationDirection, AnimationDirectionIndexes, AnimationName, AnimationType, DirectionVector, Drive, EntityId,
    FXBasedDirection, FlipBasedDirection, FrameGrid, Handles, IndexBasedDirection, Position, SpriteState, YIndex,
};

verus! {

} // verus!
