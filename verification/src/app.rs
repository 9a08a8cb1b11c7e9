use vstd::prelude::*;
use crate::account::Account;
use crate::calls::Step;
use crate::keeper::Keeper;
use crate::message::ChainMessage;
use crate::vendor::Vendor;

verus! {

/// Dust-avoidance cutoff for settlement claims: a claim leaving at most this
/// remainder does not trigger a further settlement cycle. The bound is a
/// fixed policy constant with no stated unit; the comparison is strict.
pub const CLAIM_DUST_CUTOFF: u128 = 100;

/// The ordered step sequence for a matching buy order: log the trader's
/// order, log the own pending order, push a market update with the cached
/// assets, update the quote, execute the buy, log the own pending order
/// again.
pub open spec fn spec_buy_sequence(trader: Account) -> Seq<Step> {
    seq![
        Step::LogTraderOrder { trader },
        Step::LogPendingOrder,
        Step::UpdateMarket,
        Step::UpdateQuote,
        Step::ExecuteBuy,
        Step::LogPendingOrder,
    ]
}

/// The same sequence, substituting sell for buy.
pub open spec fn spec_sell_sequence(trader: Account) -> Seq<Step> {
    seq![
        Step::LogTraderOrder { trader },
        Step::LogPendingOrder,
        Step::UpdateMarket,
        Step::UpdateQuote,
        Step::ExecuteSell,
        Step::LogPendingOrder,
    ]
}

/// The five-step settlement sequence a large-enough acquisition claim
/// triggers.
pub open spec fn spec_claim_buy_sequence(trader: Account) -> Seq<Step> {
    seq![
        Step::UpdateMarket,
        Step::UpdateQuote,
        Step::ExecuteBuy,
        Step::LogPendingOrder,
        Step::LogTraderOrder { trader },
    ]
}

/// The same pattern, substituting sell, for a disposal claim.
pub open spec fn spec_claim_sell_sequence(trader: Account) -> Seq<Step> {
    seq![
        Step::UpdateMarket,
        Step::UpdateQuote,
        Step::ExecuteSell,
        Step::LogPendingOrder,
        Step::LogTraderOrder { trader },
    ]
}

/// The dispatcher's whole decision: the exact ordered step sequence a
/// message triggers against the locally configured identity. A message
/// whose embedded identifiers do not both match is a no-op; a claim at or
/// under the dust cutoff is a no-op too.
pub open spec fn spec_dispatch(msg: ChainMessage, index_id: u128, vendor_id: u128) -> Seq<Step> {
    if msg.spec_index_id() != index_id || msg.spec_vendor_id() != vendor_id {
        Seq::empty()
    } else {
        match msg {
            ChainMessage::BuyOrder { trader, .. } => spec_buy_sequence(trader),
            ChainMessage::SellOrder { trader, .. } => spec_sell_sequence(trader),
            ChainMessage::Acquisition { .. } => seq![Step::UpdateSupply],
            ChainMessage::Disposal { .. } => seq![Step::UpdateSupply],
            ChainMessage::AcquisitionClaim { trader, remain, .. } => if remain
                > CLAIM_DUST_CUTOFF {
                spec_claim_buy_sequence(trader)
            } else {
                Seq::empty()
            },
            ChainMessage::DisposalClaim { trader, itp_remain, .. } => if itp_remain
                > CLAIM_DUST_CUTOFF {
                spec_claim_sell_sequence(trader)
            } else {
                Seq::empty()
            },
        }
    }
}

/// A message for a foreign identity triggers no steps at all, whatever its
/// variant: one process can filter a shared multi-tenant log stream down to
/// its own (index, vendor) pair.
pub proof fn lemma_foreign_message_is_noop(msg: ChainMessage, index_id: u128, vendor_id: u128)
    requires
        msg.spec_index_id() != index_id || msg.spec_vendor_id() != vendor_id,
    ensures
        spec_dispatch(msg, index_id, vendor_id) =~= Seq::<Step>::empty(),
{
}

/// The acquisition-claim cutoff is strict: a remainder at or under the
/// bound is skipped entirely; one over it triggers the full five-step
/// settlement sequence.
pub proof fn lemma_acquisition_claim_threshold(
    keeper: Account,
    trader: Account,
    index_id: u128,
    vendor_id: u128,
    remain: u128,
    spent: u128,
)
    ensures
        remain <= CLAIM_DUST_CUTOFF ==> spec_dispatch(
            ChainMessage::AcquisitionClaim { keeper, trader, index_id, vendor_id, remain, spent },
            index_id,
            vendor_id,
        ) =~= Seq::<Step>::empty(),
        remain > CLAIM_DUST_CUTOFF ==> spec_dispatch(
            ChainMessage::AcquisitionClaim { keeper, trader, index_id, vendor_id, remain, spent },
            index_id,
            vendor_id,
        ) =~= spec_claim_buy_sequence(trader),
{
}

/// The disposal-claim cutoff is strict in the same way, on the remaining
/// token amount.
pub proof fn lemma_disposal_claim_threshold(
    keeper: Account,
    trader: Account,
    index_id: u128,
    vendor_id: u128,
    itp_remain: u128,
    itp_burned: u128,
)
    ensures
        itp_remain <= CLAIM_DUST_CUTOFF ==> spec_dispatch(
            ChainMessage::DisposalClaim {
                keeper,
                trader,
                index_id,
                vendor_id,
                itp_remain,
                itp_burned,
            },
            index_id,
            vendor_id,
        ) =~= Seq::<Step>::empty(),
        itp_remain > CLAIM_DUST_CUTOFF ==> spec_dispatch(
            ChainMessage::DisposalClaim {
                keeper,
                trader,
                index_id,
                vendor_id,
                itp_remain,
                itp_burned,
            },
            index_id,
            vendor_id,
        ) =~= spec_claim_sell_sequence(trader),
{
}

/// The single consumer of the message queue: it owns the Keeper and the
/// Vendor and touches them one message at a time.
pub struct App {
    pub keeper: Keeper,
    pub vendor: Vendor,
}

impl App {
    pub fn new(keeper: Keeper, vendor: Vendor) -> (r: App)
        ensures
            r.keeper == keeper,
            r.vendor == vendor,
    {
        App { keeper, vendor }
    }

    /// Route one decoded message: the returned steps are exactly the
    /// ordered sequence the dispatcher must drive, each step awaited to
    /// completion before the next, and any step's failure aborting the
    /// rest.
    pub fn process_chain_message(&self, message: &ChainMessage) -> (r: Vec<Step>)
        ensures
            r@ =~= spec_dispatch(*message, self.keeper.index_id, self.vendor.vendor_id),
    {
        let mut steps: Vec<Step> = Vec::new();
        match message {
            ChainMessage::BuyOrder { trader, index_id, vendor_id, .. } => {
                if self.keeper.get_index_id() == *index_id && self.vendor.get_vendor_id()
                    == *vendor_id {
                    steps.push(Step::LogTraderOrder { trader: *trader });
                    steps.push(Step::LogPendingOrder);
                    steps.push(Step::UpdateMarket);
                    steps.push(Step::UpdateQuote);
                    steps.push(Step::ExecuteBuy);
                    steps.push(Step::LogPendingOrder);
                }
            },
            ChainMessage::SellOrder { trader, index_id, vendor_id, .. } => {
                if self.keeper.get_index_id() == *index_id && self.vendor.get_vendor_id()
                    == *vendor_id {
                    steps.push(Step::LogTraderOrder { trader: *trader });
                    steps.push(Step::LogPendingOrder);
                    steps.push(Step::UpdateMarket);
                    steps.push(Step::UpdateQuote);
                    steps.push(Step::ExecuteSell);
                    steps.push(Step::LogPendingOrder);
                }
            },
            ChainMessage::Acquisition { index_id, vendor_id, .. } => {
                if self.keeper.get_index_id() == *index_id && self.vendor.get_vendor_id()
                    == *vendor_id {
                    steps.push(Step::UpdateSupply);
                }
            },
            ChainMessage::Disposal { index_id, vendor_id, .. } => {
                if self.keeper.get_index_id() == *index_id && self.vendor.get_vendor_id()
                    == *vendor_id {
                    steps.push(Step::UpdateSupply);
                }
            },
            ChainMessage::AcquisitionClaim { trader, index_id, vendor_id, remain, .. } => {
                if self.keeper.get_index_id() == *index_id && self.vendor.get_vendor_id()
                    == *vendor_id && CLAIM_DUST_CUTOFF < *remain {
                    steps.push(Step::UpdateMarket);
                    steps.push(Step::UpdateQuote);
                    steps.push(Step::ExecuteBuy);
                    steps.push(Step::LogPendingOrder);
                    steps.push(Step::LogTraderOrder { trader: *trader });
                }
            },
            ChainMessage::DisposalClaim { trader, index_id, vendor_id, itp_remain, .. } => {
                if self.keeper.get_index_id() == *index_id && self.vendor.get_vendor_id()
                    == *vendor_id && CLAIM_DUST_CUTOFF < *itp_remain {
                    steps.push(Step::UpdateMarket);
                    steps.push(Step::UpdateQuote);
                    steps.push(Step::ExecuteSell);
                    steps.push(Step::LogPendingOrder);
                    steps.push(Step::LogTraderOrder { trader: *trader });
                }
            },
        }
        steps
    }
}

} // verus!
