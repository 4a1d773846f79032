//! Reading a normalized decimal from text and writing it as text.

use vstd::prelude::*;
use crate::engine;
use crate::error::ParseError;
use crate::norm::NormDecimal;
use crate::value::DecimalValue;

verus! {

/// What reading `text` gives: the normal form of the engine's reading, or
/// the engine's error as it is.
pub open spec fn reading_of(text: Seq<char>) -> Result<DecimalValue, ParseError> {
    match engine::engine_reading(text) {
        Ok(d) => Ok(d.normalized()),
        Err(e) => Err(e),
    }
}

/// The reading of a result of parsing.
pub open spec fn read(r: Result<NormDecimal, ParseError>) -> Result<DecimalValue, ParseError> {
    match r {
        Ok(n) => Ok(n@),
        Err(e) => Err(e),
    }
}

impl NormDecimal {
    /// Reads a decimal literal and normalizes it. Fails, with the engine's
    /// own error, exactly where the engine does not take `text` for a
    /// decimal; it never takes the empty text for one.
    pub fn from_str(text: &str) -> (r: Result<NormDecimal, ParseError>)
        ensures
            read(r) == reading_of(text@),
            text@.len() == 0 ==> r is Err,
            r matches Ok(n) ==> n@.is_normal(),
    {
        match engine::parse(text) {
            Ok(raw) => Ok(NormDecimal::from(raw)),
            Err(e) => Err(e),
        }
    }

    /// The decimal as text, as the engine writes the stored decimal: it
    /// depends on the value alone.
    pub fn to_string(&self) -> (s: String)
        ensures
            s@ == engine::engine_text(self@),
    {
        engine::format(self.raw())
    }
}

impl std::str::FromStr for NormDecimal {
    type Err = ParseError;

    /// Reads a decimal literal and normalizes it, as [`NormDecimal::from_str`] does.
    fn from_str(text: &str) -> (r: Result<NormDecimal, ParseError>)
        ensures
            read(r) == reading_of(text@),
            text@.len() == 0 ==> r is Err,
            r matches Ok(n) ==> n@.is_normal(),
    {
        NormDecimal::from_str(text)
    }
}

} // verus!
