use conveyor::account::Account;
use conveyor::calls::RemoteCall;
use conveyor::errors::CoreError;
use conveyor::labels::Labels;
use conveyor::rand_value::fresh_rng;
use conveyor::vector::Vector;
use conveyor::vendor::{Vendor, MARGIN_HIGH, MARGIN_LOW};

fn acct(n: u128) -> Account {
    Account { lo: n, hi: 0 }
}

fn vendor(chunk_size: usize) -> Vendor {
    Vendor::new(acct(11), acct(12), acct(13), 1, chunk_size)
}

#[test]
fn market_universe_is_sequential_from_one() {
    let assets = Vendor::market_universe(1200);
    assert_eq!(assets.len(), 1200);
    assert_eq!(assets.data[0], 1);
    assert_eq!(assets.data[1199], 1200);
}

#[test]
fn setup_submits_three_aligned_chunks() {
    let v = vendor(500);
    let mut rng = fresh_rng();
    let (assets, calls) = v.setup_calls(1200, &mut rng);
    assert_eq!(assets.len(), 1200);
    // Two calls per chunk for the submissions, one per chunk for market data.
    assert_eq!(calls.len(), 9);
    let expected_lens = [500usize, 500, 200];
    for i in 0..3 {
        match (&calls[2 * i], &calls[2 * i + 1]) {
            (
                RemoteCall::SubmitAssets { vendor_id: v1, assets: a1 },
                RemoteCall::SubmitMargin { vendor_id: v2, assets: a2, margins },
            ) => {
                assert_eq!(*v1, 1);
                assert_eq!(*v2, 1);
                assert_eq!(a1.data.len(), expected_lens[i]);
                assert_eq!(a1.data, a2.data);
                assert_eq!(margins.data.len(), expected_lens[i]);
                assert_eq!(a1.data[0], (500 * i + 1) as u128);
                for m in &margins.data {
                    assert!(MARGIN_LOW <= *m && *m <= MARGIN_HIGH);
                }
            }
            other => panic!("unexpected chunk calls: {:?}", other),
        }
    }
    for i in 0..3 {
        match &calls[6 + i] {
            RemoteCall::SubmitMarketData { vendor_id, assets, liquidity, prices, slopes } => {
                assert_eq!(*vendor_id, 1);
                assert_eq!(assets.data.len(), expected_lens[i]);
                assert_eq!(liquidity.data.len(), expected_lens[i]);
                assert_eq!(prices.data.len(), expected_lens[i]);
                assert_eq!(slopes.data.len(), expected_lens[i]);
            }
            other => panic!("unexpected market call: {:?}", other),
        }
    }
}

#[test]
fn update_market_chunks_and_aligns() {
    let v = vendor(2);
    let mut rng = fresh_rng();
    let assets = Labels::from_vec_u128(vec![5, 6, 7]);
    let calls = v.update_market_calls(&assets, &mut rng);
    assert_eq!(calls.len(), 2);
    match &calls[1] {
        RemoteCall::SubmitMarketData { assets, liquidity, prices, slopes, .. } => {
            assert_eq!(assets.data, vec![7u128]);
            assert_eq!(liquidity.data.len(), 1);
            assert_eq!(prices.data.len(), 1);
            assert_eq!(slopes.data.len(), 1);
        }
        other => panic!("unexpected call: {:?}", other),
    }
}

#[test]
fn mismatched_demand_is_rejected() {
    let mut v = vendor(2);
    v.setup_commit(Labels::from_vec_u128(vec![1, 2, 3]));
    let long = Vector::from_vec(vec![10, 20]);
    let short = Vector::from_vec(vec![1, 2, 3]);
    assert_eq!(v.update_supply_calls(&long, &short), Err(CoreError::DemandMismatch));
    let long = Vector::from_vec(vec![10, 20, 30]);
    let short = Vector::from_vec(vec![1, 2]);
    assert_eq!(v.update_supply_calls(&long, &short), Err(CoreError::DemandMismatch));
}

#[test]
fn supply_chunks_stay_aligned_short_before_long() {
    let mut v = vendor(2);
    v.setup_commit(Labels::from_vec_u128(vec![1, 2, 3, 4, 5]));
    let long = Vector::from_vec(vec![10, 20, 30, 40, 50]);
    let short = Vector::from_vec(vec![101, 102, 103, 104, 105]);
    let calls = v.update_supply_calls(&long, &short).unwrap();
    assert_eq!(calls.len(), 3);
    let expected = [
        (vec![1u128, 2], vec![101u128, 102], vec![10u128, 20]),
        (vec![3, 4], vec![103, 104], vec![30, 40]),
        (vec![5], vec![105], vec![50]),
    ];
    for (call, (ea, es, el)) in calls.iter().zip(expected.iter()) {
        match call {
            RemoteCall::SubmitSupply { vendor_id, assets, supply_short, supply_long } => {
                assert_eq!(*vendor_id, 1);
                assert_eq!(&assets.data, ea);
                assert_eq!(&supply_short.data, es);
                assert_eq!(&supply_long.data, el);
            }
            other => panic!("unexpected call: {:?}", other),
        }
    }
}

#[test]
fn demand_query_names_the_vendor() {
    let v = vendor(3);
    assert_eq!(v.demand_query(), RemoteCall::GetVendorDemand { vendor_id: 1 });
}

#[test]
fn setup_commit_caches_the_universe() {
    let mut v = vendor(3);
    assert_eq!(v.get_assets().len(), 0);
    v.setup_commit(Labels::from_vec_u128(vec![1, 2]));
    assert_eq!(v.get_assets().data, vec![1u128, 2]);
    assert_eq!(v.get_vendor_id(), 1);
}
