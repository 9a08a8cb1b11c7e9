use vstd::prelude::*;
use crate::account::Account;
use crate::calls::RemoteCall;
use crate::chunk::{chunks_of, spec_chunks};
use crate::errors::CoreError;
use crate::labels::Labels;
use crate::rand_value::ValueGen;
use crate::vector::Vector;

verus! {

/// Scale shared by every randomly drawn amount: two implied decimals.
pub const VALUE_SCALE: u8 = 2;

/// Margin bounds, raw mantissas at two decimals: 1.00 to 10.00.
pub const MARGIN_LOW: u128 = 100;

pub const MARGIN_HIGH: u128 = 1000;

/// Price bounds: 100.00 to 1000.00.
pub const PRICE_LOW: u128 = 10000;

pub const PRICE_HIGH: u128 = 100000;

/// Slope bounds: 0.01 to 0.10.
pub const SLOPE_LOW: u128 = 1;

pub const SLOPE_HIGH: u128 = 10;

/// Liquidity bounds: 0.10 to 10.00.
pub const LIQUIDITY_LOW: u128 = 10;

pub const LIQUIDITY_HIGH: u128 = 1000;

/// The vendor's chunk of a submission: the `i`-th window of the given label
/// sequence under the configured chunk size.
pub open spec fn vendor_chunks(labels: Seq<u128>, chunk_size: nat) -> Seq<Seq<u128>> {
    spec_chunks(labels, chunk_size)
}

/// An asset-submission call for one chunk.
pub open spec fn is_submit_assets_for(c: RemoteCall, vendor_id: u128, chunk: Seq<u128>) -> bool {
    c matches RemoteCall::SubmitAssets { vendor_id: v, assets } && v == vendor_id && assets@
        == chunk
}

/// A margin-submission call for one chunk: margins positionally aligned with
/// the chunk's assets, every margin within the configured bounds.
pub open spec fn is_submit_margin_for(c: RemoteCall, vendor_id: u128, chunk: Seq<u128>) -> bool {
    &&& c matches RemoteCall::SubmitMargin { vendor_id: v, assets, margins }
    &&& v == vendor_id
    &&& assets@ == chunk
    &&& margins@.len() == chunk.len()
    &&& forall|k: int| 0 <= k < margins@.len() ==> MARGIN_LOW <= #[trigger] margins@[k]
        <= MARGIN_HIGH
}

/// A market-data call for one chunk: liquidity, prices and slopes each
/// positionally aligned with the chunk's assets and within their bounds.
pub open spec fn is_market_data_for(c: RemoteCall, vendor_id: u128, chunk: Seq<u128>) -> bool {
    &&& c matches RemoteCall::SubmitMarketData { vendor_id: v, assets, liquidity, prices, slopes }
    &&& v == vendor_id
    &&& assets@ == chunk
    &&& liquidity@.len() == chunk.len()
    &&& prices@.len() == chunk.len()
    &&& slopes@.len() == chunk.len()
    &&& forall|k: int| 0 <= k < chunk.len() ==> LIQUIDITY_LOW <= #[trigger] liquidity@[k]
        <= LIQUIDITY_HIGH
    &&& forall|k: int| 0 <= k < chunk.len() ==> PRICE_LOW <= #[trigger] prices@[k] <= PRICE_HIGH
    &&& forall|k: int| 0 <= k < chunk.len() ==> SLOPE_LOW <= #[trigger] slopes@[k] <= SLOPE_HIGH
}

/// A supply call for one chunk: the chunk's assets together with the same
/// windows of the short and long demand vectors.
pub open spec fn is_supply_for(
    c: RemoteCall,
    vendor_id: u128,
    chunk: Seq<u128>,
    short: Seq<u128>,
    long: Seq<u128>,
) -> bool {
    &&& c matches RemoteCall::SubmitSupply { vendor_id: v, assets, supply_short, supply_long }
    &&& v == vendor_id
    &&& assets@ == chunk
    &&& supply_short@ == short
    &&& supply_long@ == long
}

/// The market-maker actor: one market's identity, account references, the
/// configured chunk size bounding every batched submission, and the cached
/// asset universe.
pub struct Vendor {
    pub castle_address: Account,
    pub custody_address: Account,
    pub collateral_address: Account,
    pub vendor_id: u128,
    pub chunk_size: usize,
    pub market_assets: Labels,
}

impl Vendor {
    /// The chunk size is a positive batch width.
    pub open spec fn wf(&self) -> bool {
        self.chunk_size > 0
    }

    pub fn new(
        castle_address: Account,
        custody_address: Account,
        collateral_address: Account,
        vendor_id: u128,
        chunk_size: usize,
    ) -> (r: Vendor)
        requires
            chunk_size > 0,
        ensures
            r.wf(),
            r.castle_address == castle_address,
            r.custody_address == custody_address,
            r.collateral_address == collateral_address,
            r.vendor_id == vendor_id,
            r.chunk_size == chunk_size,
            r.market_assets@ =~= Seq::<u128>::empty(),
    {
        Vendor {
            castle_address,
            custody_address,
            collateral_address,
            vendor_id,
            chunk_size,
            market_assets: Labels::new(),
        }
    }

    pub fn get_vendor_id(&self) -> (r: u128)
        ensures
            r == self.vendor_id,
    {
        self.vendor_id
    }

    pub fn get_assets(&self) -> (r: &Labels)
        ensures
            r@ == self.market_assets@,
    {
        &self.market_assets
    }

    /// The market's asset universe: a contiguous run of `market_size`
    /// sequential identifiers starting at 1.
    pub fn market_universe(market_size: usize) -> (r: Labels)
        ensures
            r@.len() == market_size,
            forall|k: int| 0 <= k < market_size ==> #[trigger] r@[k] == k + 1,
    {
        let mut data: Vec<u128> = Vec::new();
        let mut i: usize = 0;
        while i < market_size
            invariant
                i <= market_size,
                data@.len() == i,
                forall|k: int| 0 <= k < i ==> #[trigger] data@[k] == k + 1,
            decreases market_size - i,
        {
            data.push((i as u128) + 1);
            i += 1;
        }
        Labels::from_vec_u128(data)
    }

    /// For each chunk of the given assets, one asset submission followed by
    /// one margin submission over the same chunk, margins freshly drawn.
    pub fn asset_submission_calls(
        &self,
        assets: &Labels,
        rng: &mut rand::rngs::ThreadRng,
    ) -> (r: Vec<RemoteCall>)
        requires
            self.wf(),
        ensures
            ({
                let cs = vendor_chunks(assets@, self.chunk_size as nat);
                &&& r@.len() == 2 * cs.len()
                &&& forall|i: int|
                    0 <= i < cs.len() ==> is_submit_assets_for(r@[2 * i], self.vendor_id, #[trigger] cs[i])
                        && is_submit_margin_for(r@[2 * i + 1], self.vendor_id, cs[i])
            }),
    {
        let ghost cs = vendor_chunks(assets@, self.chunk_size as nat);
        let chunks = chunks_of(&assets.data, self.chunk_size);
        let mut out: Vec<RemoteCall> = Vec::new();
        let mut i: usize = 0;
        while i < chunks.len()
            invariant
                self.wf(),
                i <= chunks@.len(),
                cs == vendor_chunks(assets@, self.chunk_size as nat),
                chunks@.map_values(|v: Vec<u128>| v@) =~= cs,
                out@.len() == 2 * i,
                forall|j: int|
                    0 <= j < i ==> is_submit_assets_for(out@[2 * j], self.vendor_id, #[trigger] cs[j])
                        && is_submit_margin_for(out@[2 * j + 1], self.vendor_id, cs[j]),
            decreases chunks@.len() - i,
        {
            let chunk = Labels::from_vec_u128(vstd::slice::slice_to_vec(chunks[i].as_slice()));
            let margin_gen = ValueGen::new(MARGIN_LOW, MARGIN_HIGH, VALUE_SCALE);
            let margins = margin_gen.draw_vector(rng, chunk.len());
            let chunk_copy = Labels::from_vec_u128(chunk.to_vec());
            out.push(RemoteCall::SubmitAssets { vendor_id: self.vendor_id, assets: chunk });
            out.push(RemoteCall::SubmitMargin {
                vendor_id: self.vendor_id,
                assets: chunk_copy,
                margins,
            });
            i += 1;
        }
        out
    }

    /// For each chunk of the given assets, one market-data call carrying
    /// freshly drawn liquidity, prices and slopes, positionally aligned:
    /// the i-th label corresponds to the i-th drawn value of each vector.
    pub fn update_market_calls(
        &self,
        assets: &Labels,
        rng: &mut rand::rngs::ThreadRng,
    ) -> (r: Vec<RemoteCall>)
        requires
            self.wf(),
        ensures
            ({
                let cs = vendor_chunks(assets@, self.chunk_size as nat);
                &&& r@.len() == cs.len()
                &&& forall|i: int|
                    0 <= i < cs.len() ==> is_market_data_for(r@[i], self.vendor_id, #[trigger] cs[i])
            }),
    {
        let ghost cs = vendor_chunks(assets@, self.chunk_size as nat);
        let chunks = chunks_of(&assets.data, self.chunk_size);
        let mut out: Vec<RemoteCall> = Vec::new();
        let mut i: usize = 0;
        while i < chunks.len()
            invariant
                self.wf(),
                i <= chunks@.len(),
                cs == vendor_chunks(assets@, self.chunk_size as nat),
                chunks@.map_values(|v: Vec<u128>| v@) =~= cs,
                out@.len() == i,
                forall|j: int|
                    0 <= j < i ==> is_market_data_for(out@[j], self.vendor_id, #[trigger] cs[j]),
            decreases chunks@.len() - i,
        {
            let chunk = Labels::from_vec_u128(vstd::slice::slice_to_vec(chunks[i].as_slice()));
            let price_gen = ValueGen::new(PRICE_LOW, PRICE_HIGH, VALUE_SCALE);
            let prices = price_gen.draw_vector(rng, chunk.len());
            let slope_gen = ValueGen::new(SLOPE_LOW, SLOPE_HIGH, VALUE_SCALE);
            let slopes = slope_gen.draw_vector(rng, chunk.len());
            let liquidity_gen = ValueGen::new(LIQUIDITY_LOW, LIQUIDITY_HIGH, VALUE_SCALE);
            let liquidity = liquidity_gen.draw_vector(rng, chunk.len());
            out.push(RemoteCall::SubmitMarketData {
                vendor_id: self.vendor_id,
                assets: chunk,
                liquidity,
                prices,
                slopes,
            });
            i += 1;
        }
        out
    }

    /// The read that precedes a supply reconciliation.
    pub fn demand_query(&self) -> (r: RemoteCall)
        ensures
            r == (RemoteCall::GetVendorDemand { vendor_id: self.vendor_id }),
    {
        RemoteCall::GetVendorDemand { vendor_id: self.vendor_id }
    }

    /// Zip the two-sided demand reading positionally against the cached
    /// asset universe and re-chunk the triples: one supply call per chunk,
    /// short side first. A demand reading that does not cover the cached
    /// universe one for one is a data-integrity error, never a truncation.
    pub fn update_supply_calls(&self, demand_long: &Vector, demand_short: &Vector) -> (r: Result<
        Vec<RemoteCall>,
        CoreError,
    >)
        requires
            self.wf(),
        ensures
            ({
                let cs = vendor_chunks(self.market_assets@, self.chunk_size as nat);
                let cl = vendor_chunks(demand_long@, self.chunk_size as nat);
                let csh = vendor_chunks(demand_short@, self.chunk_size as nat);
                match r {
                    Ok(calls) => {
                        &&& demand_long@.len() == self.market_assets@.len()
                        &&& demand_short@.len() == self.market_assets@.len()
                        &&& calls@.len() == cs.len()
                        &&& forall|i: int|
                            0 <= i < cs.len() ==> is_supply_for(
                                calls@[i],
                                self.vendor_id,
                                #[trigger] cs[i],
                                csh[i],
                                cl[i],
                            )
                    },
                    Err(e) => {
                        &&& (demand_long@.len() != self.market_assets@.len()
                            || demand_short@.len() != self.market_assets@.len())
                        &&& e == CoreError::DemandMismatch
                    },
                }
            }),
    {
        if demand_long.len() != self.market_assets.len() || demand_short.len()
            != self.market_assets.len() {
            return Err(CoreError::DemandMismatch);
        }
        let ghost cs = vendor_chunks(self.market_assets@, self.chunk_size as nat);
        let ghost cl = vendor_chunks(demand_long@, self.chunk_size as nat);
        let ghost csh = vendor_chunks(demand_short@, self.chunk_size as nat);
        let asset_chunks = chunks_of(&self.market_assets.data, self.chunk_size);
        let long_chunks = chunks_of(&demand_long.data, self.chunk_size);
        let short_chunks = chunks_of(&demand_short.data, self.chunk_size);
        proof {
            crate::chunk::lemma_chunks_count(self.market_assets@, self.chunk_size as nat);
            crate::chunk::lemma_chunks_count(demand_long@, self.chunk_size as nat);
            crate::chunk::lemma_chunks_count(demand_short@, self.chunk_size as nat);
        }
        let mut out: Vec<RemoteCall> = Vec::new();
        let mut i: usize = 0;
        while i < asset_chunks.len()
            invariant
                self.wf(),
                i <= asset_chunks@.len(),
                cs == vendor_chunks(self.market_assets@, self.chunk_size as nat),
                cl == vendor_chunks(demand_long@, self.chunk_size as nat),
                csh == vendor_chunks(demand_short@, self.chunk_size as nat),
                asset_chunks@.map_values(|v: Vec<u128>| v@) =~= cs,
                long_chunks@.map_values(|v: Vec<u128>| v@) =~= cl,
                short_chunks@.map_values(|v: Vec<u128>| v@) =~= csh,
                cl.len() == cs.len(),
                csh.len() == cs.len(),
                out@.len() == i,
                forall|j: int|
                    0 <= j < i ==> is_supply_for(
                        out@[j],
                        self.vendor_id,
                        #[trigger] cs[j],
                        csh[j],
                        cl[j],
                    ),
            decreases asset_chunks@.len() - i,
        {
            let chunk = Labels::from_vec_u128(vstd::slice::slice_to_vec(
                asset_chunks[i].as_slice(),
            ));
            let long = Vector::from_vec(vstd::slice::slice_to_vec(long_chunks[i].as_slice()));
            let short = Vector::from_vec(vstd::slice::slice_to_vec(short_chunks[i].as_slice()));
            out.push(RemoteCall::SubmitSupply {
                vendor_id: self.vendor_id,
                assets: chunk,
                supply_short: short,
                supply_long: long,
            });
            i += 1;
        }
        Ok(out)
    }

    /// One-time market bootstrap: build the universe, submit it chunk by
    /// chunk with margins, then push market data for the full set. The
    /// supply reconciliation follows once the demand read comes back, and
    /// the universe is cached on commit.
    pub fn setup_calls(&self, market_size: usize, rng: &mut rand::rngs::ThreadRng) -> (r: (
        Labels,
        Vec<RemoteCall>,
    ))
        requires
            self.wf(),
        ensures
            ({
                let assets = r.0;
                let cs = vendor_chunks(assets@, self.chunk_size as nat);
                &&& assets@.len() == market_size
                &&& (forall|k: int| 0 <= k < market_size ==> #[trigger] assets@[k] == k + 1)
                &&& r.1@.len() == 3 * cs.len()
                &&& forall|i: int|
                    0 <= i < cs.len() ==> is_submit_assets_for(r.1@[2 * i], self.vendor_id, #[trigger] cs[i])
                        && is_submit_margin_for(r.1@[2 * i + 1], self.vendor_id, cs[i])
                        && is_market_data_for(r.1@[2 * cs.len() + i], self.vendor_id, cs[i])
            }),
    {
        let assets = Vendor::market_universe(market_size);
        let mut calls = self.asset_submission_calls(&assets, rng);
        let mut market = self.update_market_calls(&assets, rng);
        let ghost pre = calls@;
        let ghost cs = vendor_chunks(assets@, self.chunk_size as nat);
        calls.append(&mut market);
        proof {
            assert(forall|j: int| 0 <= j < pre.len() ==> #[trigger] calls@[j] == pre[j]);
        }
        (assets, calls)
    }

    /// Record the bootstrapped universe as the cached asset set; identity
    /// and configuration never change.
    pub fn setup_commit(&mut self, assets: Labels)
        ensures
            final(self).market_assets == assets,
            final(self).castle_address == old(self).castle_address,
            final(self).custody_address == old(self).custody_address,
            final(self).collateral_address == old(self).collateral_address,
            final(self).vendor_id == old(self).vendor_id,
            final(self).chunk_size == old(self).chunk_size,
    {
        self.market_assets = assets;
    }
}

} // verus!
