pub use crate::animations::{
    LinearTimedAnimation, LinearTransformAnimation, SingleFrameAnimation, TimedAnimation, TransformAnimation,
};
pub use crate::registry::{Animation, Animations, NewAnimation};
pub use crate::systems::{AnimationEvent, AnimationsConfig, FXAnimationEvent, ResetAnimationEvent};
pub use crate::types::{
    AnimationDirection, AnimationDirectionIndexes, AnimationName, AnimationType, FXBasedDirection, FlipBasedDirection,
    FrameGrid, Handles, IndexBasedDirection, SpriteState, YIndex,
};
