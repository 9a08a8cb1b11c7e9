use conveyor::account::Account;
use conveyor::message::ChainMessage;
use conveyor::pulley::{EventTopics, Pulley, RawLog};

fn acct(n: u128) -> Account {
    Account { lo: n, hi: 7 }
}

fn topics() -> EventTopics {
    EventTopics {
        buy_order: vec![1u8; 32],
        sell_order: vec![2u8; 32],
        acquisition: vec![3u8; 32],
        disposal: vec![4u8; 32],
        acquisition_claim: vec![5u8; 32],
        disposal_claim: vec![6u8; 32],
    }
}

fn round_trip(msg: ChainMessage) {
    let t = topics();
    let log = Pulley::encode_message(&msg, &t);
    assert_eq!(Pulley::decode_log(&log, &t), Some(msg));
}

#[test]
fn buy_order_round_trips() {
    round_trip(ChainMessage::BuyOrder {
        keeper: acct(1),
        trader: acct(2),
        index_id: 1001,
        vendor_id: 1,
        collateral: u128::MAX,
    });
}

#[test]
fn sell_order_round_trips() {
    round_trip(ChainMessage::SellOrder {
        keeper: acct(1),
        trader: acct(2),
        index_id: 1001,
        vendor_id: 1,
        itp_amount: 0,
    });
}

#[test]
fn acquisition_round_trips() {
    round_trip(ChainMessage::Acquisition {
        controller: acct(9),
        index_id: 3,
        vendor_id: 4,
        remain: 5,
        spent: 6,
        minted: 7,
    });
}

#[test]
fn disposal_round_trips() {
    round_trip(ChainMessage::Disposal {
        controller: acct(9),
        index_id: 3,
        vendor_id: 4,
        remain: 5,
        burned: 6,
        gains: 7,
    });
}

#[test]
fn acquisition_claim_round_trips() {
    round_trip(ChainMessage::AcquisitionClaim {
        keeper: acct(1),
        trader: acct(2),
        index_id: 3,
        vendor_id: 4,
        remain: 101,
        spent: 6,
    });
}

#[test]
fn disposal_claim_round_trips() {
    round_trip(ChainMessage::DisposalClaim {
        keeper: acct(1),
        trader: acct(2),
        index_id: 3,
        vendor_id: 4,
        itp_remain: 101,
        itp_burned: 6,
    });
}

#[test]
fn unknown_topic_decodes_to_nothing() {
    let t = topics();
    let log = RawLog { topic: vec![9u8; 32], data: vec![0u8; 160] };
    assert_eq!(Pulley::decode_log(&log, &t), None);
}

#[test]
fn wrong_signature_fails_cleanly() {
    let t = topics();
    let msg = ChainMessage::BuyOrder {
        keeper: acct(1),
        trader: acct(2),
        index_id: 1001,
        vendor_id: 1,
        collateral: 10,
    };
    let mut log = Pulley::encode_message(&msg, &t);
    // A 160-byte buy-order payload under the acquisition signature is a
    // shape mismatch: skipped, not an error.
    log.topic = vec![3u8; 32];
    assert_eq!(Pulley::decode_log(&log, &t), None);
}

#[test]
fn truncated_payload_decodes_to_nothing() {
    let t = topics();
    let log = RawLog { topic: vec![1u8; 32], data: vec![0u8; 159] };
    assert_eq!(Pulley::decode_log(&log, &t), None);
}

#[test]
fn account_halves_survive_the_wire() {
    let t = topics();
    let keeper = Account { lo: u128::MAX, hi: u32::MAX };
    let msg = ChainMessage::BuyOrder {
        keeper,
        trader: Account { lo: 0, hi: 0 },
        index_id: 1,
        vendor_id: 1,
        collateral: 2,
    };
    let log = Pulley::encode_message(&msg, &t);
    match Pulley::decode_log(&log, &t) {
        Some(ChainMessage::BuyOrder { keeper: k, trader, .. }) => {
            assert_eq!(k, keeper);
            assert!(trader.is_zero());
        }
        other => panic!("unexpected decode: {:?}", other),
    }
}

#[test]
fn payload_words_are_big_endian() {
    let t = topics();
    let mut data = vec![0u8; 160];
    // Keeper account, low half 5: last byte of word 0.
    data[31] = 5;
    // Trader account, high half 1: last byte of the four-byte high half.
    data[32 + 15] = 1;
    // index_id 1001 = 0x03E9: last two bytes of word 2.
    data[64 + 30] = 0x03;
    data[64 + 31] = 0xE9;
    // vendor_id 1.
    data[96 + 31] = 1;
    // collateral 256.
    data[128 + 30] = 1;
    let log = RawLog { topic: vec![1u8; 32], data };
    assert_eq!(
        Pulley::decode_log(&log, &t),
        Some(ChainMessage::BuyOrder {
            keeper: Account { lo: 5, hi: 0 },
            trader: Account { lo: 0, hi: 1 },
            index_id: 1001,
            vendor_id: 1,
            collateral: 256,
        })
    );
}
