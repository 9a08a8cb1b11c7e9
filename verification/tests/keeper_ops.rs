use conveyor::account::Account;
use conveyor::calls::RemoteCall;
use conveyor::errors::CoreError;
use conveyor::keeper::{Keeper, MAX_ORDER_SIZE_RAW, WEIGHT_HIGH, WEIGHT_LOW};
use conveyor::labels::Labels;
use conveyor::rand_pick_assets::rand_pick_assets;
use conveyor::rand_value::fresh_rng;
use conveyor::record::OrderRecord;
use conveyor::vector::Vector;

fn acct(n: u128) -> Account {
    Account { lo: n, hi: 0 }
}

fn keeper() -> Keeper {
    Keeper::new(acct(11), acct(12), acct(13), 1001, 1)
}

#[test]
fn new_keeper_has_zero_vault_and_empty_assets() {
    let k = keeper();
    assert!(k.get_vault_address().is_zero());
    assert_eq!(k.get_assets().len(), 0);
    assert_eq!(k.get_index_id(), 1001);
    assert_eq!(k.get_vendor_id(), 1);
    assert_eq!(k.get_custody_address(), acct(12));
    assert_eq!(k.get_collateral_address(), acct(13));
}

#[test]
fn setup_calls_come_in_the_provisioning_order() {
    let k = keeper();
    let mut rng = fresh_rng();
    let market = Labels::from_vec_u128(vec![9, 3, 7, 1, 5]);
    let (chosen, calls) = k.setup_calls(acct(99), &market, 3, &mut rng);
    assert_eq!(chosen.len(), 3);
    assert_eq!(calls.len(), 4);
    assert_eq!(
        calls[0],
        RemoteCall::SubmitIndex {
            vendor_id: 1,
            index_id: 1001,
            index_size: 3,
            keeper: acct(99),
            custody: acct(12),
            collateral: acct(13),
            max_order_size: MAX_ORDER_SIZE_RAW,
        }
    );
    assert_eq!(calls[1], RemoteCall::SubmitVote { index_id: 1001 });
    match &calls[2] {
        RemoteCall::SubmitAssetWeights { index_id, assets, weights } => {
            assert_eq!(*index_id, 1001);
            assert_eq!(assets.data, chosen.data);
            assert_eq!(weights.data.len(), 3);
            for w in &weights.data {
                assert!(WEIGHT_LOW <= *w && *w <= WEIGHT_HIGH);
            }
        }
        other => panic!("unexpected call: {:?}", other),
    }
    assert_eq!(calls[3], RemoteCall::UpdateIndexQuote { vendor_id: 1, index_id: 1001 });
}

#[test]
fn picked_assets_are_sorted_distinct_members() {
    let market = Labels::from_vec_u128(vec![9, 3, 7, 1, 5, 8, 2]);
    let picked = rand_pick_assets(&market, 4);
    assert_eq!(picked.len(), 4);
    for w in picked.data.windows(2) {
        assert!(w[0] < w[1]);
    }
    for a in &picked.data {
        assert!(market.data.contains(a));
    }
}

#[test]
fn picking_more_than_available_takes_everything() {
    let market = Labels::from_vec_u128(vec![6, 4, 2]);
    let picked = rand_pick_assets(&market, 10);
    assert_eq!(picked.data, vec![2u128, 4, 6]);
}

#[test]
fn setup_commit_records_vault_and_assets() {
    let mut k = keeper();
    k.setup_commit(acct(77), Labels::from_vec_u128(vec![1, 2, 3]));
    assert_eq!(k.get_vault_address(), acct(77));
    assert_eq!(k.get_assets().data, vec![1u128, 2, 3]);
    assert_eq!(k.get_index_id(), 1001);
}

#[test]
fn per_event_call_descriptors() {
    let mut k = keeper();
    k.setup_commit(acct(77), Labels::from_vec_u128(vec![1]));
    assert_eq!(k.update_quote_call(), RemoteCall::UpdateIndexQuote { vendor_id: 1, index_id: 1001 });
    assert_eq!(
        k.buy_order_call(acct(99)),
        RemoteCall::ProcessPendingBuyOrder { vault: acct(77), keeper: acct(99) }
    );
    assert_eq!(
        k.sell_order_call(acct(99)),
        RemoteCall::ProcessPendingSellOrder { vault: acct(77), keeper: acct(99) }
    );
    assert_eq!(
        k.trader_order_query(acct(5)),
        RemoteCall::GetTraderOrder { index_id: 1001, trader: acct(5) }
    );
    assert_eq!(
        k.pending_order_query(acct(99)),
        RemoteCall::GetTraderOrder { index_id: 1001, trader: acct(99) }
    );
}

#[test]
fn order_record_decodes_named_fields() {
    let wire = Vector::from_vec(vec![10, 20, 30, 40, 50, 60]).encode();
    let rec = Keeper::parse_order(&wire).unwrap();
    assert_eq!(
        rec,
        OrderRecord { collateral: 10, spent: 20, minted: 30, locked: 40, burned: 50, withdraw: 60 }
    );
}

#[test]
fn order_record_shape_is_validated() {
    let five = Vector::from_vec(vec![1, 2, 3, 4, 5]).encode();
    assert_eq!(Keeper::parse_order(&five), Err(CoreError::OrderRecordShape));
    let seven = Vector::from_vec(vec![1, 2, 3, 4, 5, 6, 7]).encode();
    assert_eq!(Keeper::parse_order(&seven), Err(CoreError::OrderRecordShape));
    let ragged: Vec<u8> = vec![0; 95];
    assert_eq!(Keeper::parse_order(&ragged), Err(CoreError::WireLength));
}

#[test]
fn order_record_from_vector_checks_length() {
    let v = Vector::from_vec(vec![1, 2, 3, 4, 5, 6]);
    assert!(OrderRecord::from_vector(&v).is_ok());
    let v = Vector::from_vec(vec![1, 2, 3]);
    assert_eq!(OrderRecord::from_vector(&v), Err(CoreError::OrderRecordShape));
}
