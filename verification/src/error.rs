use vstd::prelude::*;

verus! {

/// The ways a decode step can fail. Every parser either returns a fully
/// formed record or one of these; no step panics and no partial record is
/// ever returned.
#[derive(Debug, Clone, Copy, PartialEq, Eq, Structural)]
pub enum GifError {
    /// A read requested more bytes than remain in the buffer.
    BufferUnderrun,
    /// The first three bytes are not "GIF" (compared case-insensitively).
    InvalidSignature,
    /// The three version bytes are neither "87a" nor "89a".
    UnsupportedVersion,
    /// The 0x2C marker expected at an image descriptor boundary is missing.
    InvalidImageSeparator,
}

} // verus!
