use vstd::prelude::*;

verus! {

/// The data-integrity conditions that the engine surfaces instead of
/// truncating or indexing blindly.
#[derive(Clone, Copy, Debug, PartialEq, Eq, Structural)]
pub enum CoreError {
    /// A wire blob's length is not a whole number of value words.
    WireLength,
    /// An order record did not carry exactly the six expected amounts.
    OrderRecordShape,
    /// The demand read does not cover the cached asset universe one for one.
    DemandMismatch,
}

impl CoreError {
    /// A short operator-facing description of the condition.
    pub fn describe(&self) -> (r: &'static str)
        ensures
            r@.len() > 0,
    {
        let r = match self {
            CoreError::WireLength => "wire blob is not a whole number of value words",
            CoreError::OrderRecordShape => "order record does not hold exactly six amounts",
            CoreError::DemandMismatch => "demand vectors do not cover the cached asset universe",
        };
        proof {
            reveal_strlit("wire blob is not a whole number of value words");
            reveal_strlit("order record does not hold exactly six amounts");
            reveal_strlit("demand vectors do not cover the cached asset universe");
        }
        r
    }
}

} // verus!
