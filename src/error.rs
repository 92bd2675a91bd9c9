//! Errors reported by the decoder.
use vstd::prelude::*;

verus! {

/// Why a byte sequence could not be decoded. Decoding stops at the first error.
#[derive(Debug, Clone, Copy, PartialEq, Eq, Structural)]
pub enum DecodeError {
    /// The first four bytes are not the magic `ncif`.
    BadMagic,
    /// A read would advance past the end of the input.
    UnexpectedEof,
    /// A style type byte outside `1..=5`.
    UnknownStyleTag(u8),
    /// A gradient kind byte outside `0..=5`.
    UnknownGradientKind(u8),
    /// A shape type byte other than `0x0A`.
    UnknownShapeTag(u8),
    /// A transformer type byte outside `20..=23`.
    UnknownTransformerTag(u8),
    /// A path command code outside `0..=3`.
    UnknownCommandCode(u8),
}

/// The outcome of a spec-level read at a position: the value and the position after it.
pub type ParseResult<T> = Result<(T, int), DecodeError>;

} // verus!

