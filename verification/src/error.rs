use vstd::prelude::*;

verus! {

/// The failures that the rendering core reports to its caller.
///
/// All of them are recoverable: the caller may retry with other bytes or fall
/// back to a default resource.
#[derive(Clone, Copy, Debug, PartialEq, Eq, Structural)]
pub enum GameError {
    /// The byte stream is not an image that the decoder understands.
    ImageDecodeError,
    /// The decoded image is wider or taller than a texture can be.
    ImageTooLarge,
    /// The font data could not be turned into a glyph atlas.
    FontError,
}

pub type GameResult<T> = Result<T, GameError>;

} // verus!
