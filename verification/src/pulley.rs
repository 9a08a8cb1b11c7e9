use vstd::prelude::*;
use vstd::bytes::{
    lemma_auto_spec_u128_to_from_le_bytes, lemma_auto_spec_u32_to_from_le_bytes,
    spec_u128_from_le_bytes, spec_u128_to_le_bytes, spec_u32_from_le_bytes, spec_u32_to_le_bytes,
    u128_from_le_bytes, u128_to_le_bytes, u32_from_le_bytes, u32_to_le_bytes,
};
use vstd::slice::{slice_index_get, slice_subrange, slice_to_vec};
use crate::account::Account;
use crate::message::ChainMessage;

verus! {

/// A raw ledger log as the watcher hands it over: the event-signature topic
/// and the payload bytes, exactly as they came off the wire.
pub struct RawLog {
    pub topic: Vec<u8>,
    pub data: Vec<u8>,
}

/// The six event-signature topics the log filter is keyed by, each a
/// 32-byte value fixed by the vault contract's interface.
pub struct EventTopics {
    pub buy_order: Vec<u8>,
    pub sell_order: Vec<u8>,
    pub acquisition: Vec<u8>,
    pub disposal: Vec<u8>,
    pub acquisition_claim: Vec<u8>,
    pub disposal_claim: Vec<u8>,
}

impl EventTopics {
    /// Topics are 32 bytes each and pairwise distinct, so a log matches at
    /// most one signature.
    pub open spec fn wf(&self) -> bool {
        &&& self.buy_order@.len() == 32
        &&& self.sell_order@.len() == 32
        &&& self.acquisition@.len() == 32
        &&& self.disposal@.len() == 32
        &&& self.acquisition_claim@.len() == 32
        &&& self.disposal_claim@.len() == 32
        &&& self.buy_order@ != self.sell_order@
        &&& self.buy_order@ != self.acquisition@
        &&& self.buy_order@ != self.disposal@
        &&& self.buy_order@ != self.acquisition_claim@
        &&& self.buy_order@ != self.disposal_claim@
        &&& self.sell_order@ != self.acquisition@
        &&& self.sell_order@ != self.disposal@
        &&& self.sell_order@ != self.acquisition_claim@
        &&& self.sell_order@ != self.disposal_claim@
        &&& self.acquisition@ != self.disposal@
        &&& self.acquisition@ != self.acquisition_claim@
        &&& self.acquisition@ != self.disposal_claim@
        &&& self.disposal@ != self.acquisition_claim@
        &&& self.disposal@ != self.disposal_claim@
        &&& self.acquisition_claim@ != self.disposal_claim@
    }
}

/// A numeric value word on the wire: 32 bytes, the value right-aligned and
/// big-endian, the padding zero.
pub open spec fn spec_word_bytes(x: u128) -> Seq<u8> {
    Seq::new(16, |i: int| 0u8) + spec_u128_to_le_bytes(x).reverse()
}

/// An account word: 12 zero bytes of padding, then the high 32 bits, then
/// the low 128, both big-endian.
pub open spec fn spec_account_word(a: Account) -> Seq<u8> {
    Seq::new(12, |i: int| 0u8) + spec_u32_to_le_bytes(a.hi).reverse() + spec_u128_to_le_bytes(
        a.lo,
    ).reverse()
}

/// The numeric value that word `w` of a payload carries; the padding bytes
/// are not examined.
pub open spec fn spec_word_at(d: Seq<u8>, w: int) -> u128 {
    spec_u128_from_le_bytes(d.subrange(32 * w + 16, 32 * w + 32).reverse())
}

/// The account that word `w` of a payload carries.
pub open spec fn spec_account_at(d: Seq<u8>, w: int) -> Account {
    Account {
        lo: spec_u128_from_le_bytes(d.subrange(32 * w + 16, 32 * w + 32).reverse()),
        hi: spec_u32_from_le_bytes(d.subrange(32 * w + 12, 32 * w + 16).reverse()),
    }
}

/// The payload layout of each event: one 32-byte word per field, accounts
/// first, then the numeric fields, in declaration order.
pub open spec fn spec_message_data(m: ChainMessage) -> Seq<u8> {
    match m {
        ChainMessage::BuyOrder { keeper, trader, index_id, vendor_id, collateral } => {
            spec_account_word(keeper) + spec_account_word(trader) + spec_word_bytes(index_id)
                + spec_word_bytes(vendor_id) + spec_word_bytes(collateral)
        },
        ChainMessage::SellOrder { keeper, trader, index_id, vendor_id, itp_amount } => {
            spec_account_word(keeper) + spec_account_word(trader) + spec_word_bytes(index_id)
                + spec_word_bytes(vendor_id) + spec_word_bytes(itp_amount)
        },
        ChainMessage::Acquisition { controller, index_id, vendor_id, remain, spent, minted } => {
            spec_account_word(controller) + spec_word_bytes(index_id) + spec_word_bytes(vendor_id)
                + spec_word_bytes(remain) + spec_word_bytes(spent) + spec_word_bytes(minted)
        },
        ChainMessage::Disposal { controller, index_id, vendor_id, remain, burned, gains } => {
            spec_account_word(controller) + spec_word_bytes(index_id) + spec_word_bytes(vendor_id)
                + spec_word_bytes(remain) + spec_word_bytes(burned) + spec_word_bytes(gains)
        },
        ChainMessage::AcquisitionClaim { keeper, trader, index_id, vendor_id, remain, spent } => {
            spec_account_word(keeper) + spec_account_word(trader) + spec_word_bytes(index_id)
                + spec_word_bytes(vendor_id) + spec_word_bytes(remain) + spec_word_bytes(spent)
        },
        ChainMessage::DisposalClaim { keeper, trader, index_id, vendor_id, itp_remain, itp_burned } => {
            spec_account_word(keeper) + spec_account_word(trader) + spec_word_bytes(index_id)
                + spec_word_bytes(vendor_id) + spec_word_bytes(itp_remain) + spec_word_bytes(
                itp_burned,
            )
        },
    }
}

/// The topic a message is emitted under.
pub open spec fn spec_topic_of(m: ChainMessage, topics: EventTopics) -> Seq<u8> {
    match m {
        ChainMessage::BuyOrder { .. } => topics.buy_order@,
        ChainMessage::SellOrder { .. } => topics.sell_order@,
        ChainMessage::Acquisition { .. } => topics.acquisition@,
        ChainMessage::Disposal { .. } => topics.disposal@,
        ChainMessage::AcquisitionClaim { .. } => topics.acquisition_claim@,
        ChainMessage::DisposalClaim { .. } => topics.disposal_claim@,
    }
}

pub open spec fn spec_decode_buy_order(d: Seq<u8>) -> Option<ChainMessage> {
    if d.len() == 160 {
        Some(
            ChainMessage::BuyOrder {
                keeper: spec_account_at(d, 0),
                trader: spec_account_at(d, 1),
                index_id: spec_word_at(d, 2),
                vendor_id: spec_word_at(d, 3),
                collateral: spec_word_at(d, 4),
            },
        )
    } else {
        None
    }
}

pub open spec fn spec_decode_sell_order(d: Seq<u8>) -> Option<ChainMessage> {
    if d.len() == 160 {
        Some(
            ChainMessage::SellOrder {
                keeper: spec_account_at(d, 0),
                trader: spec_account_at(d, 1),
                index_id: spec_word_at(d, 2),
                vendor_id: spec_word_at(d, 3),
                itp_amount: spec_word_at(d, 4),
            },
        )
    } else {
        None
    }
}

pub open spec fn spec_decode_acquisition(d: Seq<u8>) -> Option<ChainMessage> {
    if d.len() == 192 {
        Some(
            ChainMessage::Acquisition {
                controller: spec_account_at(d, 0),
                index_id: spec_word_at(d, 1),
                vendor_id: spec_word_at(d, 2),
                remain: spec_word_at(d, 3),
                spent: spec_word_at(d, 4),
                minted: spec_word_at(d, 5),
            },
        )
    } else {
        None
    }
}

pub open spec fn spec_decode_disposal(d: Seq<u8>) -> Option<ChainMessage> {
    if d.len() == 192 {
        Some(
            ChainMessage::Disposal {
                controller: spec_account_at(d, 0),
                index_id: spec_word_at(d, 1),
                vendor_id: spec_word_at(d, 2),
                remain: spec_word_at(d, 3),
                burned: spec_word_at(d, 4),
                gains: spec_word_at(d, 5),
            },
        )
    } else {
        None
    }
}

pub open spec fn spec_decode_acquisition_claim(d: Seq<u8>) -> Option<ChainMessage> {
    if d.len() == 192 {
        Some(
            ChainMessage::AcquisitionClaim {
                keeper: spec_account_at(d, 0),
                trader: spec_account_at(d, 1),
                index_id: spec_word_at(d, 2),
                vendor_id: spec_word_at(d, 3),
                remain: spec_word_at(d, 4),
                spent: spec_word_at(d, 5),
            },
        )
    } else {
        None
    }
}

pub open spec fn spec_decode_disposal_claim(d: Seq<u8>) -> Option<ChainMessage> {
    if d.len() == 192 {
        Some(
            ChainMessage::DisposalClaim {
                keeper: spec_account_at(d, 0),
                trader: spec_account_at(d, 1),
                index_id: spec_word_at(d, 2),
                vendor_id: spec_word_at(d, 3),
                itp_remain: spec_word_at(d, 4),
                itp_burned: spec_word_at(d, 5),
            },
        )
    } else {
        None
    }
}

/// Decoding one raw log against every known signature, in a fixed order: a
/// topic that matches no signature, or a payload of the wrong shape, yields
/// nothing — an expected skip, never an error.
pub open spec fn spec_decode_log(
    topic: Seq<u8>,
    data: Seq<u8>,
    topics: EventTopics,
) -> Option<ChainMessage> {
    if topic == topics.buy_order@ {
        spec_decode_buy_order(data)
    } else if topic == topics.sell_order@ {
        spec_decode_sell_order(data)
    } else if topic == topics.acquisition@ {
        spec_decode_acquisition(data)
    } else if topic == topics.disposal@ {
        spec_decode_disposal(data)
    } else if topic == topics.acquisition_claim@ {
        spec_decode_acquisition_claim(data)
    } else if topic == topics.disposal_claim@ {
        spec_decode_disposal_claim(data)
    } else {
        None
    }
}

fn bytes_eq(a: &Vec<u8>, b: &Vec<u8>) -> (r: bool)
    ensures
        r == (a@ == b@),
{
    if a.len() != b.len() {
        return false;
    }
    let mut i: usize = 0;
    while i < a.len()
        invariant
            i <= a@.len(),
            a@.len() == b@.len(),
            forall|k: int| 0 <= k < i ==> a@[k] == b@[k],
        decreases a@.len() - i,
    {
        if a[i] != b[i] {
            return false;
        }
        i += 1;
    }
    proof {
        assert(a@ =~= b@);
    }
    true
}

fn reverse_bytes(b: &[u8]) -> (r: Vec<u8>)
    ensures
        r@ =~= b@.reverse(),
{
    let n = b.len();
    let mut out: Vec<u8> = Vec::new();
    let mut i: usize = 0;
    while i < n
        invariant
            i <= n,
            n == b@.len(),
            out@.len() == i,
            forall|k: int| 0 <= k < i ==> out@[k] == b@[n - 1 - k],
        decreases n - i,
    {
        out.push(*slice_index_get(b, n - 1 - i));
        i += 1;
    }
    proof {
        assert(out@ =~= b@.reverse());
    }
    out
}

fn read_word(d: &Vec<u8>, w: usize) -> (r: u128)
    requires
        32 * w + 32 <= d@.len(),
    ensures
        r == spec_word_at(d@, w as int),
{
    let n = d.len();
    let be = slice_subrange(d.as_slice(), 32 * w + 16, 32 * w + 32);
    let le = reverse_bytes(be);
    u128_from_le_bytes(le.as_slice())
}

fn read_account(d: &Vec<u8>, w: usize) -> (r: Account)
    requires
        32 * w + 32 <= d@.len(),
    ensures
        r == spec_account_at(d@, w as int),
{
    let n = d.len();
    let lo_be = slice_subrange(d.as_slice(), 32 * w + 16, 32 * w + 32);
    let lo_le = reverse_bytes(lo_be);
    let lo = u128_from_le_bytes(lo_le.as_slice());
    let hi_be = slice_subrange(d.as_slice(), 32 * w + 12, 32 * w + 16);
    let hi_le = reverse_bytes(hi_be);
    let hi = u32_from_le_bytes(hi_le.as_slice());
    Account { lo, hi }
}

fn push_zeros(out: &mut Vec<u8>, n: usize)
    ensures
        final(out)@ =~= old(out)@ + Seq::new(n as nat, |i: int| 0u8),
{
    let mut i: usize = 0;
    while i < n
        invariant
            i <= n,
            out@.len() == old(out)@.len() + i,
            out@ =~= old(out)@ + Seq::new(i as nat, |k: int| 0u8),
        decreases n - i,
    {
        out.push(0u8);
        i += 1;
        proof {
            assert(out@ =~= old(out)@ + Seq::new(i as nat, |k: int| 0u8));
        }
    }
}

fn push_word(out: &mut Vec<u8>, x: u128)
    ensures
        final(out)@ =~= old(out)@ + spec_word_bytes(x),
{
    push_zeros(out, 16);
    let le = u128_to_le_bytes(x);
    let mut be = reverse_bytes(le.as_slice());
    out.append(&mut be);
}

fn push_account(out: &mut Vec<u8>, a: Account)
    ensures
        final(out)@ =~= old(out)@ + spec_account_word(a),
{
    push_zeros(out, 12);
    let hi_le = u32_to_le_bytes(a.hi);
    let mut hi_be = reverse_bytes(hi_le.as_slice());
    out.append(&mut hi_be);
    let lo_le = u128_to_le_bytes(a.lo);
    let mut lo_be = reverse_bytes(lo_le.as_slice());
    out.append(&mut lo_be);
}

/// The log-watching component's pure half: which message, if any, one raw
/// log denotes, and the wire form a message is emitted in.
pub struct Pulley;

impl Pulley {
    /// Decode one raw log. The result is exactly what the fixed-order
    /// signature match prescribes: at most one typed message.
    pub fn decode_log(log: &RawLog, topics: &EventTopics) -> (r: Option<ChainMessage>)
        ensures
            r == spec_decode_log(log.topic@, log.data@, *topics),
    {
        if bytes_eq(&log.topic, &topics.buy_order) {
            if log.data.len() == 160 {
                Some(ChainMessage::BuyOrder {
                    keeper: read_account(&log.data, 0),
                    trader: read_account(&log.data, 1),
                    index_id: read_word(&log.data, 2),
                    vendor_id: read_word(&log.data, 3),
                    collateral: read_word(&log.data, 4),
                })
            } else {
                None
            }
        } else if bytes_eq(&log.topic, &topics.sell_order) {
            if log.data.len() == 160 {
                Some(ChainMessage::SellOrder {
                    keeper: read_account(&log.data, 0),
                    trader: read_account(&log.data, 1),
                    index_id: read_word(&log.data, 2),
                    vendor_id: read_word(&log.data, 3),
                    itp_amount: read_word(&log.data, 4),
                })
            } else {
                None
            }
        } else if bytes_eq(&log.topic, &topics.acquisition) {
            if log.data.len() == 192 {
                Some(ChainMessage::Acquisition {
                    controller: read_account(&log.data, 0),
                    index_id: read_word(&log.data, 1),
                    vendor_id: read_word(&log.data, 2),
                    remain: read_word(&log.data, 3),
                    spent: read_word(&log.data, 4),
                    minted: read_word(&log.data, 5),
                })
            } else {
                None
            }
        } else if bytes_eq(&log.topic, &topics.disposal) {
            if log.data.len() == 192 {
                Some(ChainMessage::Disposal {
                    controller: read_account(&log.data, 0),
                    index_id: read_word(&log.data, 1),
                    vendor_id: read_word(&log.data, 2),
                    remain: read_word(&log.data, 3),
                    burned: read_word(&log.data, 4),
                    gains: read_word(&log.data, 5),
                })
            } else {
                None
            }
        } else if bytes_eq(&log.topic, &topics.acquisition_claim) {
            if log.data.len() == 192 {
                Some(ChainMessage::AcquisitionClaim {
                    keeper: read_account(&log.data, 0),
                    trader: read_account(&log.data, 1),
                    index_id: read_word(&log.data, 2),
                    vendor_id: read_word(&log.data, 3),
                    remain: read_word(&log.data, 4),
                    spent: read_word(&log.data, 5),
                })
            } else {
                None
            }
        } else if bytes_eq(&log.topic, &topics.disposal_claim) {
            if log.data.len() == 192 {
                Some(ChainMessage::DisposalClaim {
                    keeper: read_account(&log.data, 0),
                    trader: read_account(&log.data, 1),
                    index_id: read_word(&log.data, 2),
                    vendor_id: read_word(&log.data, 3),
                    itp_remain: read_word(&log.data, 4),
                    itp_burned: read_word(&log.data, 5),
                })
            } else {
                None
            }
        } else {
            None
        }
    }

    /// The wire form a message is emitted in: its topic and its payload.
    pub fn encode_message(m: &ChainMessage, topics: &EventTopics) -> (r: RawLog)
        ensures
            r.topic@ == spec_topic_of(*m, *topics),
            r.data@ =~= spec_message_data(*m),
    {
        let mut data: Vec<u8> = Vec::new();
        let topic: Vec<u8>;
        match m {
            ChainMessage::BuyOrder { keeper, trader, index_id, vendor_id, collateral } => {
                topic = slice_to_vec(topics.buy_order.as_slice());
                push_account(&mut data, *keeper);
                push_account(&mut data, *trader);
                push_word(&mut data, *index_id);
                push_word(&mut data, *vendor_id);
                push_word(&mut data, *collateral);
            },
            ChainMessage::SellOrder { keeper, trader, index_id, vendor_id, itp_amount } => {
                topic = slice_to_vec(topics.sell_order.as_slice());
                push_account(&mut data, *keeper);
                push_account(&mut data, *trader);
                push_word(&mut data, *index_id);
                push_word(&mut data, *vendor_id);
                push_word(&mut data, *itp_amount);
            },
            ChainMessage::Acquisition { controller, index_id, vendor_id, remain, spent, minted } => {
                topic = slice_to_vec(topics.acquisition.as_slice());
                push_account(&mut data, *controller);
                push_word(&mut data, *index_id);
                push_word(&mut data, *vendor_id);
                push_word(&mut data, *remain);
                push_word(&mut data, *spent);
                push_word(&mut data, *minted);
            },
            ChainMessage::Disposal { controller, index_id, vendor_id, remain, burned, gains } => {
                topic = slice_to_vec(topics.disposal.as_slice());
                push_account(&mut data, *controller);
                push_word(&mut data, *index_id);
                push_word(&mut data, *vendor_id);
                push_word(&mut data, *remain);
                push_word(&mut data, *burned);
                push_word(&mut data, *gains);
            },
            ChainMessage::AcquisitionClaim { keeper, trader, index_id, vendor_id, remain, spent } => {
                topic = slice_to_vec(topics.acquisition_claim.as_slice());
                push_account(&mut data, *keeper);
                push_account(&mut data, *trader);
                push_word(&mut data, *index_id);
                push_word(&mut data, *vendor_id);
                push_word(&mut data, *remain);
                push_word(&mut data, *spent);
            },
            ChainMessage::DisposalClaim { keeper, trader, index_id, vendor_id, itp_remain, itp_burned } => {
                topic = slice_to_vec(topics.disposal_claim.as_slice());
                push_account(&mut data, *keeper);
                push_account(&mut data, *trader);
                push_word(&mut data, *index_id);
                push_word(&mut data, *vendor_id);
                push_word(&mut data, *itp_remain);
                push_word(&mut data, *itp_burned);
            },
        }
        RawLog { topic, data }
    }
}

/// A word subrange that spells an account word reads back as that account.
proof fn lemma_account_at_word(d: Seq<u8>, w: int, a: Account)
    requires
        0 <= w,
        32 * w + 32 <= d.len(),
        d.subrange(32 * w, 32 * w + 32) =~= spec_account_word(a),
    ensures
        spec_account_at(d, w) == a,
{
    lemma_auto_spec_u128_to_from_le_bytes();
    lemma_auto_spec_u32_to_from_le_bytes();
    let word = d.subrange(32 * w, 32 * w + 32);
    let hi_rev = spec_u32_to_le_bytes(a.hi).reverse();
    let lo_rev = spec_u128_to_le_bytes(a.lo).reverse();
    assert(spec_u32_to_le_bytes(a.hi).len() == 4);
    assert(hi_rev.len() == 4);
    assert(lo_rev.len() == 16);
    assert forall|j: int| 0 <= j < 4 implies d.subrange(32 * w + 12, 32 * w + 16)[j]
        == hi_rev[j] by {
        assert(word[12 + j] == d[32 * w + 12 + j]);
        assert(word[12 + j] == hi_rev[j]);
    }
    assert(d.subrange(32 * w + 12, 32 * w + 16) =~= hi_rev);
    assert(d.subrange(32 * w + 12, 32 * w + 16).reverse() =~= spec_u32_to_le_bytes(a.hi));
    assert forall|j: int| 0 <= j < 16 implies d.subrange(32 * w + 16, 32 * w + 32)[j]
        == lo_rev[j] by {
        assert(word[16 + j] == d[32 * w + 16 + j]);
        assert(word[16 + j] == lo_rev[j]);
    }
    assert(d.subrange(32 * w + 16, 32 * w + 32) =~= lo_rev);
    assert(d.subrange(32 * w + 16, 32 * w + 32).reverse() =~= spec_u128_to_le_bytes(a.lo));
}

/// A word subrange that spells a value word reads back as that value.
proof fn lemma_word_at_word(d: Seq<u8>, w: int, x: u128)
    requires
        0 <= w,
        32 * w + 32 <= d.len(),
        d.subrange(32 * w, 32 * w + 32) =~= spec_word_bytes(x),
    ensures
        spec_word_at(d, w) == x,
{
    lemma_auto_spec_u128_to_from_le_bytes();
    let word = d.subrange(32 * w, 32 * w + 32);
    let be = spec_u128_to_le_bytes(x).reverse();
    assert(spec_u128_to_le_bytes(x).len() == 16);
    assert(be.len() == 16);
    assert forall|j: int| 0 <= j < 16 implies d.subrange(32 * w + 16, 32 * w + 32)[j]
        == be[j] by {
        assert(word[16 + j] == d[32 * w + 16 + j]);
        assert(word[16 + j] == be[j]);
    }
    assert(d.subrange(32 * w + 16, 32 * w + 32) =~= be);
    assert(d.subrange(32 * w + 16, 32 * w + 32).reverse() =~= spec_u128_to_le_bytes(x));
}

/// Round trip at the log level: a message emitted in wire form decodes back
/// to exactly itself, for every message, under well-formed topics.
pub proof fn lemma_log_round_trip(m: ChainMessage, topics: EventTopics)
    requires
        topics.wf(),
    ensures
        spec_decode_log(spec_topic_of(m, topics), spec_message_data(m), topics) == Some(m),
{
    lemma_auto_spec_u128_to_from_le_bytes();
    lemma_auto_spec_u32_to_from_le_bytes();
    let d = spec_message_data(m);
    match m {
        ChainMessage::BuyOrder { keeper, trader, index_id, vendor_id, collateral } => {
            assert(d.subrange(0, 32) =~= spec_account_word(keeper));
            lemma_account_at_word(d, 0, keeper);
            assert(d.subrange(32, 64) =~= spec_account_word(trader));
            lemma_account_at_word(d, 1, trader);
            assert(d.subrange(64, 96) =~= spec_word_bytes(index_id));
            lemma_word_at_word(d, 2, index_id);
            assert(d.subrange(96, 128) =~= spec_word_bytes(vendor_id));
            lemma_word_at_word(d, 3, vendor_id);
            assert(d.subrange(128, 160) =~= spec_word_bytes(collateral));
            lemma_word_at_word(d, 4, collateral);
        },
        ChainMessage::SellOrder { keeper, trader, index_id, vendor_id, itp_amount } => {
            assert(d.subrange(0, 32) =~= spec_account_word(keeper));
            lemma_account_at_word(d, 0, keeper);
            assert(d.subrange(32, 64) =~= spec_account_word(trader));
            lemma_account_at_word(d, 1, trader);
            assert(d.subrange(64, 96) =~= spec_word_bytes(index_id));
            lemma_word_at_word(d, 2, index_id);
            assert(d.subrange(96, 128) =~= spec_word_bytes(vendor_id));
            lemma_word_at_word(d, 3, vendor_id);
            assert(d.subrange(128, 160) =~= spec_word_bytes(itp_amount));
            lemma_word_at_word(d, 4, itp_amount);
        },
        ChainMessage::Acquisition { controller, index_id, vendor_id, remain, spent, minted } => {
            assert(d.subrange(0, 32) =~= spec_account_word(controller));
            lemma_account_at_word(d, 0, controller);
            assert(d.subrange(32, 64) =~= spec_word_bytes(index_id));
            lemma_word_at_word(d, 1, index_id);
            assert(d.subrange(64, 96) =~= spec_word_bytes(vendor_id));
            lemma_word_at_word(d, 2, vendor_id);
            assert(d.subrange(96, 128) =~= spec_word_bytes(remain));
            lemma_word_at_word(d, 3, remain);
            assert(d.subrange(128, 160) =~= spec_word_bytes(spent));
            lemma_word_at_word(d, 4, spent);
            assert(d.subrange(160, 192) =~= spec_word_bytes(minted));
            lemma_word_at_word(d, 5, minted);
        },
        ChainMessage::Disposal { controller, index_id, vendor_id, remain, burned, gains } => {
            assert(d.subrange(0, 32) =~= spec_account_word(controller));
            lemma_account_at_word(d, 0, controller);
            assert(d.subrange(32, 64) =~= spec_word_bytes(index_id));
            lemma_word_at_word(d, 1, index_id);
            assert(d.subrange(64, 96) =~= spec_word_bytes(vendor_id));
            lemma_word_at_word(d, 2, vendor_id);
            assert(d.subrange(96, 128) =~= spec_word_bytes(remain));
            lemma_word_at_word(d, 3, remain);
            assert(d.subrange(128, 160) =~= spec_word_bytes(burned));
            lemma_word_at_word(d, 4, burned);
            assert(d.subrange(160, 192) =~= spec_word_bytes(gains));
            lemma_word_at_word(d, 5, gains);
        },
        ChainMessage::AcquisitionClaim { keeper, trader, index_id, vendor_id, remain, spent } => {
            assert(d.subrange(0, 32) =~= spec_account_word(keeper));
            lemma_account_at_word(d, 0, keeper);
            assert(d.subrange(32, 64) =~= spec_account_word(trader));
            lemma_account_at_word(d, 1, trader);
            assert(d.subrange(64, 96) =~= spec_word_bytes(index_id));
            lemma_word_at_word(d, 2, index_id);
            assert(d.subrange(96, 128) =~= spec_word_bytes(vendor_id));
            lemma_word_at_word(d, 3, vendor_id);
            assert(d.subrange(128, 160) =~= spec_word_bytes(remain));
            lemma_word_at_word(d, 4, remain);
            assert(d.subrange(160, 192) =~= spec_word_bytes(spent));
            lemma_word_at_word(d, 5, spent);
        },
        ChainMessage::DisposalClaim { keeper, trader, index_id, vendor_id, itp_remain, itp_burned } => {
            assert(d.subrange(0, 32) =~= spec_account_word(keeper));
            lemma_account_at_word(d, 0, keeper);
            assert(d.subrange(32, 64) =~= spec_account_word(trader));
            lemma_account_at_word(d, 1, trader);
            assert(d.subrange(64, 96) =~= spec_word_bytes(index_id));
            lemma_word_at_word(d, 2, index_id);
            assert(d.subrange(96, 128) =~= spec_word_bytes(vendor_id));
            lemma_word_at_word(d, 3, vendor_id);
            assert(d.subrange(128, 160) =~= spec_word_bytes(itp_remain));
            lemma_word_at_word(d, 4, itp_remain);
            assert(d.subrange(160, 192) =~= spec_word_bytes(itp_burned));
            lemma_word_at_word(d, 5, itp_burned);
        },
    }
}

} // verus!
