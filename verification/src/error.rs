//! Error taxonomy of the pipeline: configuration, capture, decode, encode
//! errors, and user-requested cancellation.

use vstd::prelude::*;

verus! {

/// A fatal condition of one capture, decode, or encode operation.
///
/// Configuration and decode errors are reported before any pixel flows;
/// capture and encode errors abort the current operation only.  Cancellation
/// during an encode aborts the encode and reports how many frames had been
/// written before the signal was observed.
#[derive(Debug)]
pub enum Error {
    /// A rotation angle outside `{0, 90, 180, 270}` was configured.
    InvalidRotation(u32),
    /// A configured cancel-key name that no key carries.
    InvalidKey(String),
    /// The configured crop padding does not fit inside the source dimensions.
    PaddingTooLarge,
    /// The configured transform produces a zero-sized geometry.
    EmptyGeometry,
    /// An encoder was handed an empty frame sequence.
    NoFrames,
    /// A frame's dimensions do not match the declared output geometry.
    SizeMismatch,
    /// The output dimensions or frame count exceed the container's field.
    TooLarge,
    /// The capture source failed to produce an image.
    Capture,
    /// The source animation container is absent, unreadable, or empty.
    Decode(String),
    /// The output sink or the codec reported a failure.
    Encode(String),
    /// The cancel signal was observed during an encode; `written` frames had
    /// been emitted before the abort.
    Cancelled { written: usize },
}

} // verus!
