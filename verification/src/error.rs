//! Why a component could not be built.

use vstd::prelude::*;

verus! {

/// A fault in the description a component is built from. Each one is a
/// mistake in the content, found before the component exists.
#[derive(Debug, Clone, Copy, PartialEq, Eq, Structural)]
pub enum ConfigurationError {
    /// No texture is known under the id that was asked for.
    MissingTexture,
    /// A sprite's index is not below the number of cells in its sheet.
    IndexOutOfRange { index: usize, frame_count: u64 },
    /// The list of animations is empty.
    NoAnimations,
    /// The animation at `position` repeats the id of an earlier one.
    DuplicateAnimationId { position: usize },
}

} // verus!
