use vstd::prelude::*;
use crate::errors::CoreError;
use crate::vector::Vector;

verus! {

/// Number of amounts an order record carries.
pub const ORDER_RECORD_FIELDS: usize = 6;

/// A trader's order record: six scaled amounts at fixed semantic positions.
/// Read-only, fetched on demand, never cached. Decoding names every field
/// and validates the length first, so no offset constant can silently
/// misalign a read.
#[derive(Clone, Copy, Debug, PartialEq, Eq, Structural)]
pub struct OrderRecord {
    pub collateral: u128,
    pub spent: u128,
    pub minted: u128,
    pub locked: u128,
    pub burned: u128,
    pub withdraw: u128,
}

impl OrderRecord {
    /// The record a six-amount vector denotes.
    pub open spec fn spec_of(s: Seq<u128>) -> OrderRecord
        recommends
            s.len() == 6,
    {
        OrderRecord {
            collateral: s[0],
            spent: s[1],
            minted: s[2],
            locked: s[3],
            burned: s[4],
            withdraw: s[5],
        }
    }

    /// Structured decode of a fetched order vector: exactly six amounts, in
    /// the fixed order collateral, spent, minted, locked, burned, withdraw;
    /// anything else is a shape error, never an out-of-range read.
    pub fn from_vector(v: &Vector) -> (r: Result<OrderRecord, CoreError>)
        ensures
            match r {
                Ok(rec) => v@.len() == 6 && rec == OrderRecord::spec_of(v@),
                Err(e) => v@.len() != 6 && e == CoreError::OrderRecordShape,
            },
    {
        if v.len() != ORDER_RECORD_FIELDS {
            return Err(CoreError::OrderRecordShape);
        }
        Ok(OrderRecord {
            collateral: v.data[0],
            spent: v.data[1],
            minted: v.data[2],
            locked: v.data[3],
            burned: v.data[4],
            withdraw: v.data[5],
        })
    }
}

} // verus!
