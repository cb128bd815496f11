//! Sprite-sheet frame selection and animation playback on whole pixels.
//!
//! A sheet is an image cut into equal cells. [`sprite::Sprite`] picks one cell
//! by its linear index; [`animation_player::AnimationPlayer`] steps through the
//! cells of one row as time passes. Both produce the source rectangle that a
//! renderer needs and leave the drawing itself to the caller.

pub mod animation_player;
pub mod error;
pub mod geometry;
pub mod playback;
pub mod sprite;
pub mod texture;
