use conveyor::account::Account;
use conveyor::app::App;
use conveyor::calls::Step;
use conveyor::keeper::Keeper;
use conveyor::message::ChainMessage;
use conveyor::vendor::Vendor;

fn acct(n: u128) -> Account {
    Account { lo: n, hi: 0 }
}

fn local_app() -> App {
    let keeper = Keeper::new(acct(11), acct(12), acct(13), 1001, 1);
    let vendor = Vendor::new(acct(11), acct(12), acct(13), 1, 500);
    App::new(keeper, vendor)
}

#[test]
fn foreign_buy_order_is_noop() {
    let app = local_app();
    let msg = ChainMessage::BuyOrder {
        keeper: acct(1),
        trader: acct(2),
        index_id: 1001,
        vendor_id: 2,
        collateral: 5000,
    };
    assert_eq!(app.process_chain_message(&msg), Vec::<Step>::new());
}

#[test]
fn foreign_index_buy_order_is_noop() {
    let app = local_app();
    let msg = ChainMessage::BuyOrder {
        keeper: acct(1),
        trader: acct(2),
        index_id: 9,
        vendor_id: 1,
        collateral: 5000,
    };
    assert_eq!(app.process_chain_message(&msg), Vec::<Step>::new());
}

#[test]
fn local_buy_order_full_sequence() {
    let app = local_app();
    let trader = acct(2);
    let msg = ChainMessage::BuyOrder {
        keeper: acct(1),
        trader,
        index_id: 1001,
        vendor_id: 1,
        collateral: 5000,
    };
    let steps = app.process_chain_message(&msg);
    assert_eq!(
        steps,
        vec![
            Step::LogTraderOrder { trader },
            Step::LogPendingOrder,
            Step::UpdateMarket,
            Step::UpdateQuote,
            Step::ExecuteBuy,
            Step::LogPendingOrder,
        ]
    );
}

#[test]
fn local_sell_order_full_sequence() {
    let app = local_app();
    let trader = acct(3);
    let msg = ChainMessage::SellOrder {
        keeper: acct(1),
        trader,
        index_id: 1001,
        vendor_id: 1,
        itp_amount: 77,
    };
    let steps = app.process_chain_message(&msg);
    assert_eq!(
        steps,
        vec![
            Step::LogTraderOrder { trader },
            Step::LogPendingOrder,
            Step::UpdateMarket,
            Step::UpdateQuote,
            Step::ExecuteSell,
            Step::LogPendingOrder,
        ]
    );
}

#[test]
fn acquisition_triggers_supply_update_only() {
    let app = local_app();
    let msg = ChainMessage::Acquisition {
        controller: acct(4),
        index_id: 1001,
        vendor_id: 1,
        remain: 10,
        spent: 20,
        minted: 30,
    };
    assert_eq!(app.process_chain_message(&msg), vec![Step::UpdateSupply]);
}

#[test]
fn foreign_acquisition_is_noop() {
    let app = local_app();
    let msg = ChainMessage::Acquisition {
        controller: acct(4),
        index_id: 1001,
        vendor_id: 7,
        remain: 10,
        spent: 20,
        minted: 30,
    };
    assert_eq!(app.process_chain_message(&msg), Vec::<Step>::new());
}

#[test]
fn disposal_triggers_supply_update_only() {
    let app = local_app();
    let msg = ChainMessage::Disposal {
        controller: acct(4),
        index_id: 1001,
        vendor_id: 1,
        remain: 10,
        burned: 20,
        gains: 30,
    };
    assert_eq!(app.process_chain_message(&msg), vec![Step::UpdateSupply]);
}

fn acquisition_claim(remain: u128) -> ChainMessage {
    ChainMessage::AcquisitionClaim {
        keeper: acct(1),
        trader: acct(2),
        index_id: 1001,
        vendor_id: 1,
        remain,
        spent: 40,
    }
}

#[test]
fn acquisition_claim_at_cutoff_is_skipped() {
    let app = local_app();
    assert_eq!(app.process_chain_message(&acquisition_claim(100)), Vec::<Step>::new());
}

#[test]
fn acquisition_claim_over_cutoff_runs_full_sequence() {
    let app = local_app();
    let steps = app.process_chain_message(&acquisition_claim(101));
    assert_eq!(
        steps,
        vec![
            Step::UpdateMarket,
            Step::UpdateQuote,
            Step::ExecuteBuy,
            Step::LogPendingOrder,
            Step::LogTraderOrder { trader: acct(2) },
        ]
    );
}

#[test]
fn small_acquisition_claim_issues_no_calls() {
    let app = local_app();
    assert_eq!(app.process_chain_message(&acquisition_claim(50)), Vec::<Step>::new());
    assert_eq!(app.process_chain_message(&acquisition_claim(150)).len(), 5);
}

fn disposal_claim(itp_remain: u128) -> ChainMessage {
    ChainMessage::DisposalClaim {
        keeper: acct(1),
        trader: acct(5),
        index_id: 1001,
        vendor_id: 1,
        itp_remain,
        itp_burned: 9,
    }
}

#[test]
fn disposal_claim_at_cutoff_is_skipped() {
    let app = local_app();
    assert_eq!(app.process_chain_message(&disposal_claim(100)), Vec::<Step>::new());
}

#[test]
fn disposal_claim_over_cutoff_runs_sell_sequence() {
    let app = local_app();
    let steps = app.process_chain_message(&disposal_claim(101));
    assert_eq!(
        steps,
        vec![
            Step::UpdateMarket,
            Step::UpdateQuote,
            Step::ExecuteSell,
            Step::LogPendingOrder,
            Step::LogTraderOrder { trader: acct(5) },
        ]
    );
}

#[test]
fn foreign_claims_are_noops() {
    let app = local_app();
    let msg = ChainMessage::AcquisitionClaim {
        keeper: acct(1),
        trader: acct(2),
        index_id: 1001,
        vendor_id: 9,
        remain: 500,
        spent: 40,
    };
    assert_eq!(app.process_chain_message(&msg), Vec::<Step>::new());
    let msg = ChainMessage::DisposalClaim {
        keeper: acct(1),
        trader: acct(2),
        index_id: 8,
        vendor_id: 1,
        itp_remain: 500,
        itp_burned: 9,
    };
    assert_eq!(app.process_chain_message(&msg), Vec::<Step>::new());
}
