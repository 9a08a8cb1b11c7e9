use vstd::prelude::*;
use crate::account::Account;
use crate::amount::Amount;
use crate::calls::RemoteCall;
use crate::errors::CoreError;
use crate::labels::Labels;
use crate::rand_pick_assets::{rand_pick_assets, sorted_nondec};
use crate::rand_value::ValueGen;
use crate::record::OrderRecord;
use crate::vector::Vector;
use crate::vendor::VALUE_SCALE;
use crate::wire::decode_words;

verus! {

/// Weight bounds, raw mantissas at two decimals: 1.00 to 10.00.
pub const WEIGHT_LOW: u128 = 100;

pub const WEIGHT_HIGH: u128 = 1000;

/// Fixed maximum order size submitted with the index definition.
pub const MAX_ORDER_SIZE_RAW: u128 = 100;

/// An asset-weight submission: weights positionally aligned with the chosen
/// assets, every weight within the configured bounds.
pub open spec fn is_asset_weights_for(c: RemoteCall, index_id: u128, chosen: Seq<u128>) -> bool {
    &&& c matches RemoteCall::SubmitAssetWeights { index_id: i, assets, weights }
    &&& i == index_id
    &&& assets@ == chosen
    &&& weights@.len() == chosen.len()
    &&& forall|k: int| 0 <= k < weights@.len() ==> WEIGHT_LOW <= #[trigger] weights@[k]
        <= WEIGHT_HIGH
}

/// The index actor: one index's identity, account references, the vault
/// reference assigned once during setup (zero beforehand), and the cached
/// constituent asset set.
pub struct Keeper {
    pub castle_address: Account,
    pub custody_address: Account,
    pub collateral_address: Account,
    pub vault_address: Account,
    pub index_id: u128,
    pub vendor_id: u128,
    pub assets: Labels,
}

impl Keeper {
    pub fn new(
        castle_address: Account,
        custody_address: Account,
        collateral_address: Account,
        index_id: u128,
        vendor_id: u128,
    ) -> (r: Keeper)
        ensures
            r.castle_address == castle_address,
            r.custody_address == custody_address,
            r.collateral_address == collateral_address,
            r.index_id == index_id,
            r.vendor_id == vendor_id,
            r.vault_address.is_zero_spec(),
            r.assets@ =~= Seq::<u128>::empty(),
    {
        Keeper {
            castle_address,
            custody_address,
            collateral_address,
            vault_address: Account::zero(),
            index_id,
            vendor_id,
            assets: Labels::new(),
        }
    }

    pub fn get_index_id(&self) -> (r: u128)
        ensures
            r == self.index_id,
    {
        self.index_id
    }

    pub fn get_vendor_id(&self) -> (r: u128)
        ensures
            r == self.vendor_id,
    {
        self.vendor_id
    }

    pub fn get_assets(&self) -> (r: &Labels)
        ensures
            r@ == self.assets@,
    {
        &self.assets
    }

    pub fn get_custody_address(&self) -> (r: Account)
        ensures
            r == self.custody_address,
    {
        self.custody_address
    }

    pub fn get_collateral_address(&self) -> (r: Account)
        ensures
            r == self.collateral_address,
    {
        self.collateral_address
    }

    pub fn get_vault_address(&self) -> (r: Account)
        ensures
            r == self.vault_address,
    {
        self.vault_address
    }

    /// One-time provisioning, laid out as the exact ordered call sequence:
    /// submit the index definition, cast the empty governance vote, submit
    /// the sampled assets with their weights, and refresh the quote. The
    /// chosen assets are sampled without replacement and handed over in
    /// canonical sorted order; commit records them once every call has a
    /// confirmed successful receipt.
    pub fn setup_calls(
        &self,
        signer: Account,
        market_assets: &Labels,
        index_size: usize,
        rng: &mut rand::rngs::ThreadRng,
    ) -> (r: (Labels, Vec<RemoteCall>))
        ensures
            ({
                let chosen = r.0;
                let calls = r.1;
                &&& chosen@.len() == if index_size <= market_assets@.len() {
                    index_size as int
                } else {
                    market_assets@.len() as int
                }
                &&& sorted_nondec(chosen@)
                &&& chosen@.to_multiset().subset_of(market_assets@.to_multiset())
                &&& market_assets.distinct() ==> chosen.distinct()
                &&& calls@.len() == 4
                &&& calls@[0] == (RemoteCall::SubmitIndex {
                    vendor_id: self.vendor_id,
                    index_id: self.index_id,
                    index_size,
                    keeper: signer,
                    custody: self.custody_address,
                    collateral: self.collateral_address,
                    max_order_size: MAX_ORDER_SIZE_RAW,
                })
                &&& calls@[1] == (RemoteCall::SubmitVote { index_id: self.index_id })
                &&& is_asset_weights_for(calls@[2], self.index_id, chosen@)
                &&& calls@[3] == (RemoteCall::UpdateIndexQuote {
                    vendor_id: self.vendor_id,
                    index_id: self.index_id,
                })
            }),
    {
        let max_order_size = Amount::from_u128_with_scale(MAX_ORDER_SIZE_RAW, 0);
        let chosen = rand_pick_assets(market_assets, index_size);
        let weight_gen = ValueGen::new(WEIGHT_LOW, WEIGHT_HIGH, VALUE_SCALE);
        let weights: Vector = weight_gen.draw_vector(rng, chosen.len());
        let mut calls: Vec<RemoteCall> = Vec::new();
        calls.push(RemoteCall::SubmitIndex {
            vendor_id: self.vendor_id,
            index_id: self.index_id,
            index_size,
            keeper: signer,
            custody: self.custody_address,
            collateral: self.collateral_address,
            max_order_size: max_order_size.to_u128_raw(),
        });
        calls.push(RemoteCall::SubmitVote { index_id: self.index_id });
        calls.push(RemoteCall::SubmitAssetWeights {
            index_id: self.index_id,
            assets: Labels::from_vec_u128(chosen.to_vec()),
            weights,
        });
        calls.push(RemoteCall::UpdateIndexQuote {
            vendor_id: self.vendor_id,
            index_id: self.index_id,
        });
        (chosen, calls)
    }

    /// Record the vault assigned by the registry and cache the chosen
    /// constituents; identity and the other references never change.
    pub fn setup_commit(&mut self, vault_address: Account, assets: Labels)
        ensures
            final(self).vault_address == vault_address,
            final(self).assets == assets,
            final(self).castle_address == old(self).castle_address,
            final(self).custody_address == old(self).custody_address,
            final(self).collateral_address == old(self).collateral_address,
            final(self).index_id == old(self).index_id,
            final(self).vendor_id == old(self).vendor_id,
    {
        self.vault_address = vault_address;
        self.assets = assets;
    }

    /// The quote-refresh call, scoped to (vendor, index).
    pub fn update_quote_call(&self) -> (r: RemoteCall)
        ensures
            r == (RemoteCall::UpdateIndexQuote {
                vendor_id: self.vendor_id,
                index_id: self.index_id,
            }),
    {
        RemoteCall::UpdateIndexQuote { vendor_id: self.vendor_id, index_id: self.index_id }
    }

    /// Process the pending buy order at this keeper's vault, scoped to the
    /// local signer.
    pub fn buy_order_call(&self, signer: Account) -> (r: RemoteCall)
        ensures
            r == (RemoteCall::ProcessPendingBuyOrder {
                vault: self.vault_address,
                keeper: signer,
            }),
    {
        RemoteCall::ProcessPendingBuyOrder { vault: self.vault_address, keeper: signer }
    }

    /// Process the pending sell order at this keeper's vault.
    pub fn sell_order_call(&self, signer: Account) -> (r: RemoteCall)
        ensures
            r == (RemoteCall::ProcessPendingSellOrder {
                vault: self.vault_address,
                keeper: signer,
            }),
    {
        RemoteCall::ProcessPendingSellOrder { vault: self.vault_address, keeper: signer }
    }

    /// The read behind logging a given trader's order record.
    pub fn trader_order_query(&self, trader: Account) -> (r: RemoteCall)
        ensures
            r == (RemoteCall::GetTraderOrder { index_id: self.index_id, trader }),
    {
        RemoteCall::GetTraderOrder { index_id: self.index_id, trader }
    }

    /// The read behind logging the local signer's own pending order.
    pub fn pending_order_query(&self, signer: Account) -> (r: RemoteCall)
        ensures
            r == (RemoteCall::GetTraderOrder { index_id: self.index_id, trader: signer }),
    {
        self.trader_order_query(signer)
    }

    /// Structured decode of a fetched order blob: a whole number of words,
    /// exactly six of them, each field named. Both shape conditions surface
    /// as errors rather than as silent misreads.
    pub fn parse_order(b: &Vec<u8>) -> (r: Result<OrderRecord, CoreError>)
        ensures
            match r {
                Ok(rec) => {
                    &&& crate::wire::spec_decode_words(b@) matches Some(words)
                    &&& words.len() == 6
                    &&& rec == OrderRecord::spec_of(words)
                },
                Err(e) => match crate::wire::spec_decode_words(b@) {
                    Option::None => e == CoreError::WireLength,
                    Option::Some(words) => words.len() != 6 && e == CoreError::OrderRecordShape,
                },
            },
    {
        match decode_words(b) {
            Ok(words) => {
                let v = Vector::from_vec(words);
                OrderRecord::from_vector(&v)
            },
            Err(e) => Err(e),
        }
    }
}

} // verus!
