use vstd::prelude::*;
use crate::account::Account;
use crate::labels::Labels;
use crate::vector::Vector;

verus! {

/// One step of a dispatch sequence, in the order the dispatcher must run
/// them. Each step is awaited to completion before the next begins.
#[derive(Clone, Copy, Debug, PartialEq, Eq, Structural)]
pub enum Step {
    /// Fetch and log the given trader's order record.
    LogTraderOrder { trader: Account },
    /// Fetch and log the local signer's own pending order record.
    LogPendingOrder,
    /// Push a market-data update for the keeper's cached asset set.
    UpdateMarket,
    /// Refresh the index quote.
    UpdateQuote,
    /// Process the pending buy order at the vault.
    ExecuteBuy,
    /// Process the pending sell order at the vault.
    ExecuteSell,
    /// Reconcile the vendor's published supply with on-chain demand.
    UpdateSupply,
}

/// One named operation of the remote ledger capability, with its arguments.
/// Every mutating call is submitted, awaited and receipt-checked by the
/// caller; a non-success receipt is a hard failure.
#[derive(Clone, Debug, PartialEq, Eq)]
pub enum RemoteCall {
    SubmitIndex {
        vendor_id: u128,
        index_id: u128,
        index_size: usize,
        keeper: Account,
        custody: Account,
        collateral: Account,
        max_order_size: u128,
    },
    SubmitVote { index_id: u128 },
    SubmitAssetWeights { index_id: u128, assets: Labels, weights: Vector },
    UpdateIndexQuote { vendor_id: u128, index_id: u128 },
    ProcessPendingBuyOrder { vault: Account, keeper: Account },
    ProcessPendingSellOrder { vault: Account, keeper: Account },
    SubmitAssets { vendor_id: u128, assets: Labels },
    SubmitMargin { vendor_id: u128, assets: Labels, margins: Vector },
    SubmitMarketData {
        vendor_id: u128,
        assets: Labels,
        liquidity: Vector,
        prices: Vector,
        slopes: Vector,
    },
    SubmitSupply { vendor_id: u128, assets: Labels, supply_short: Vector, supply_long: Vector },
    GetVendorDemand { vendor_id: u128 },
    GetTraderOrder { index_id: u128, trader: Account },
}

} // verus!
