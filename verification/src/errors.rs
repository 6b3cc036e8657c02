use vstd::prelude::*;

verus! {

/// The failures the engines report. Every parse or decode error is detected
/// eagerly and returned as one of these variants; no engine guesses intent or
/// silently produces partial garbage.
#[derive(Clone, Copy, Debug, PartialEq, Eq, Structural)]
pub enum EngineError {
    /// The buffer does not begin with the iNES signature, or the declared
    /// bank counts reach past the end of the buffer.
    InvalidHeader,
    /// The CHR region's length is not a multiple of the 16 bytes one tile takes.
    TruncatedChrData,
    /// Fewer operand bytes remain in the stream than the addressing mode needs.
    TruncatedInstruction,
    /// A Game Genie code is neither 6 nor 8 characters long.
    InvalidLength,
    /// A Game Genie code holds a character outside the 16-symbol alphabet.
    InvalidCharacter,
}

} // verus!
