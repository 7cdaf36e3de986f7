//! Verified building blocks for working with slices: validated index
//! ranges, slice bounds, UTF-8 aware splitting, and cursors ("slides")
//! that walk over a buffer.

/// Small helpers shared across the crate.
pub mod util;

/// Module for handling slice bounds.
pub mod bounds;

/// Ranges of indices into slices.
pub mod range;

/// What is a slice? This module seeks to answer that question.
pub mod slice;

/// UTF-8 character boundaries.
pub mod str;

/// A cursor over a shared slice.
pub mod slide;

pub use slide::Slide;

/// A cursor over a mutable slice.
pub mod slide_mut;

pub use slide_mut::{Direction, SlideMut};

/// A cursor over any supported slice type that rests on valid split indices.
pub mod raw;
