//! Parse errors surfaced to strict-mode callers.

use vstd::prelude::*;

use crate::character_encoding::CharacterEncoding;

verus! {

/// A terminal failure of the strict parsing path.
#[derive(Clone, Copy, Debug, PartialEq, Eq, Structural)]
pub enum HtmlParseError {
    /// The decoder produced a scalar in the UTF-16 surrogate range.
    SurrogateInInputStream,
    /// The decoder produced a Unicode noncharacter.
    NoncharacterInInputStream,
    /// The decoder produced a disallowed control character.
    ControlCharacterInInputStream,
    /// The resolved encoding has no decoder in this library.
    UnsupportedEncoding(CharacterEncoding),
}

/// Result type of the parsing entry points.
pub type HtmlParseResult<T> = Result<T, HtmlParseError>;

} // verus!
