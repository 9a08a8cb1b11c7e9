use vstd::prelude::*;
use crate::account::Account;

verus! {

/// A typed ledger event, one variant per vault event signature. Messages are
/// immutable once produced; every identifier is an unsigned 128-bit integer.
#[derive(Clone, Copy, Debug, PartialEq, Eq, Structural)]
pub enum ChainMessage {
    BuyOrder { keeper: Account, trader: Account, index_id: u128, vendor_id: u128, collateral: u128 },
    SellOrder { keeper: Account, trader: Account, index_id: u128, vendor_id: u128, itp_amount: u128 },
    Acquisition { controller: Account, index_id: u128, vendor_id: u128, remain: u128, spent: u128, minted: u128 },
    Disposal { controller: Account, index_id: u128, vendor_id: u128, remain: u128, burned: u128, gains: u128 },
    AcquisitionClaim { keeper: Account, trader: Account, index_id: u128, vendor_id: u128, remain: u128, spent: u128 },
    DisposalClaim { keeper: Account, trader: Account, index_id: u128, vendor_id: u128, itp_remain: u128, itp_burned: u128 },
}

impl ChainMessage {
    /// The index this message speaks of.
    pub open spec fn spec_index_id(&self) -> u128 {
        match *self {
            ChainMessage::BuyOrder { index_id, .. } => index_id,
            ChainMessage::SellOrder { index_id, .. } => index_id,
            ChainMessage::Acquisition { index_id, .. } => index_id,
            ChainMessage::Disposal { index_id, .. } => index_id,
            ChainMessage::AcquisitionClaim { index_id, .. } => index_id,
            ChainMessage::DisposalClaim { index_id, .. } => index_id,
        }
    }

    /// The vendor this message speaks of.
    pub open spec fn spec_vendor_id(&self) -> u128 {
        match *self {
            ChainMessage::BuyOrder { vendor_id, .. } => vendor_id,
            ChainMessage::SellOrder { vendor_id, .. } => vendor_id,
            ChainMessage::Acquisition { vendor_id, .. } => vendor_id,
            ChainMessage::Disposal { vendor_id, .. } => vendor_id,
            ChainMessage::AcquisitionClaim { vendor_id, .. } => vendor_id,
            ChainMessage::DisposalClaim { vendor_id, .. } => vendor_id,
        }
    }

    pub fn index_id(&self) -> (r: u128)
        ensures
            r == self.spec_index_id(),
    {
        match *self {
            ChainMessage::BuyOrder { index_id, .. } => index_id,
            ChainMessage::SellOrder { index_id, .. } => index_id,
            ChainMessage::Acquisition { index_id, .. } => index_id,
            ChainMessage::Disposal { index_id, .. } => index_id,
            ChainMessage::AcquisitionClaim { index_id, .. } => index_id,
            ChainMessage::DisposalClaim { index_id, .. } => index_id,
        }
    }

    pub fn vendor_id(&self) -> (r: u128)
        ensures
            r == self.spec_vendor_id(),
    {
        match *self {
            ChainMessage::BuyOrder { vendor_id, .. } => vendor_id,
            ChainMessage::SellOrder { vendor_id, .. } => vendor_id,
            ChainMessage::Acquisition { vendor_id, .. } => vendor_id,
            ChainMessage::Disposal { vendor_id, .. } => vendor_id,
            ChainMessage::AcquisitionClaim { vendor_id, .. } => vendor_id,
            ChainMessage::DisposalClaim { vendor_id, .. } => vendor_id,
        }
    }
}

} // verus!
