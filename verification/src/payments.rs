//! Payments that were made or are awaited, and how they are listed.
use vstd::prelude::*;

use crate::hex_utils::{hex, hex_str};
use crate::number::{decimal, decimal_text};
use crate::request::list_payments_step;
use crate::step::Step;
use crate::text::{stands_in, Chars};
use crate::types::same_bytes32;

verus! {

/// How far a payment has come.
#[derive(Clone, Copy, Debug, PartialEq, Eq, Structural)]
pub enum HTLCStatus {
    Pending,
    Succeeded,
    Failed,
}

/// An amount in millisatoshis, where it is known.
#[derive(Clone, Copy, Debug, PartialEq, Eq)]
pub struct MillisatAmount(pub Option<u64>);

/// What is known of a payment.
#[derive(Clone, Copy, Debug, PartialEq, Eq)]
pub struct PaymentInfo {
    pub preimage: Option<[u8; 32]>,
    pub secret: Option<[u8; 32]>,
    pub status: HTLCStatus,
    pub amt_msat: MillisatAmount,
}

/// A payment with its hash.
#[derive(Clone, Copy, Debug, PartialEq, Eq)]
pub struct PaymentEntry {
    pub hash: [u8; 32],
    pub info: PaymentInfo,
}

/// The payments of one direction, at most one for each hash, in the order in
/// which their hashes first came.
pub struct PaymentInfoStorage {
    entries: Vec<PaymentEntry>,
}

/// What is known of the payment with a hash.
pub open spec fn lookup(entries: Seq<PaymentEntry>, hash: [u8; 32]) -> Option<PaymentInfo>
    decreases entries.len(),
{
    if entries.len() == 0 {
        None
    } else if entries[0].hash == hash {
        Some(entries[0].info)
    } else {
        lookup(entries.skip(1), hash)
    }
}

/// The payments once one is recorded: in place of the one with the same hash,
/// or behind all others.
pub open spec fn recorded(entries: Seq<PaymentEntry>, hash: [u8; 32], info: PaymentInfo) -> Seq<
    PaymentEntry,
>
    decreases entries.len(),
{
    if entries.len() == 0 {
        seq![PaymentEntry { hash, info }]
    } else if entries[0].hash == hash {
        entries.update(0, PaymentEntry { hash, info })
    } else {
        seq![entries[0]] + recorded(entries.skip(1), hash, info)
    }
}

/// No hash occurs twice.
pub open spec fn one_each(entries: Seq<PaymentEntry>) -> bool {
    forall|i: int, j: int|
        0 <= i < j < entries.len() ==> (#[trigger] entries[i]).hash != (#[trigger] entries[j]).hash
}

impl View for PaymentInfoStorage {
    type V = Seq<PaymentEntry>;

    closed spec fn view(&self) -> Seq<PaymentEntry> {
        self.entries@
    }
}

impl PaymentInfoStorage {
    #[verifier::type_invariant]
    spec fn one_for_each_hash(self) -> bool {
        one_each(self.entries@)
    }

    /// No payments.
    pub fn new() -> (r: Self)
        ensures
            r@ == Seq::<PaymentEntry>::empty(),
    {
        PaymentInfoStorage { entries: Vec::new() }
    }

    /// How many payments there are.
    pub fn len(&self) -> (r: usize)
        ensures
            r == self@.len(),
    {
        self.entries.len()
    }

    /// What is known of the payment with a hash.
    pub fn get(&self, hash: &[u8; 32]) -> (r: Option<PaymentInfo>)
        ensures
            r == lookup(self@, *hash),
            one_each(self@),
    {
        proof {
            use_type_invariant(self);
        }
        let mut i: usize = 0;
        assert(self.entries@.skip(0) == self.entries@);
        while i < self.entries.len()
            invariant
                i <= self.entries.len(),
                one_each(self.entries@),
                lookup(self.entries@, *hash) == lookup(self.entries@.skip(i as int), *hash),
            decreases self.entries.len() - i,
        {
            assert(self.entries@.skip(i as int)[0] == self.entries@[i as int]);
            assert(self.entries@.skip(i as int).skip(1) == self.entries@.skip(i + 1));
            if same_bytes32(&self.entries[i].hash, hash) {
                return Some(self.entries[i].info);
            }
            i += 1;
        }
        None
    }

    /// Records a payment.
    pub fn insert(&mut self, hash: [u8; 32], info: PaymentInfo)
        ensures
            final(self)@ == recorded(old(self)@, hash, info),
            one_each(final(self)@),
    {
        proof {
            use_type_invariant(&*self);
        }
        let mut entries: Vec<PaymentEntry> = Vec::new();
        std::mem::swap(&mut entries, &mut self.entries);
        let ghost all = entries@;
        proof {
            lemma_recorded(all, hash, info);
        }
        let mut i: usize = 0;
        assert(all.skip(0) == all);
        assert(all.take(0) + recorded(all, hash, info) == recorded(all, hash, info));
        let n: usize = entries.len();
        while i < n && !same_bytes32(&entries[i].hash, &hash)
            invariant
                i <= n,
                n == entries.len(),
                entries@ == all,
                all.take(i as int) + recorded(all.skip(i as int), hash, info) == recorded(
                    all,
                    hash,
                    info,
                ),
            decreases n - i,
        {
            proof {
                let rest = all.skip(i as int);
                let later = recorded(all.skip(i + 1), hash, info);
                assert(rest[0] == all[i as int]);
                assert(rest.skip(1) == all.skip(i + 1));
                assert(all.take(i as int) + (seq![rest[0]] + later) == all.take(i + 1) + later);
            }
            i += 1;
        }
        let entry = PaymentEntry { hash, info };
        if i < n {
            assert(all.skip(i as int)[0] == all[i as int]);
            entries.set(i, entry);
            assert(entries@ == all.take(i as int) + all.skip(i as int).update(0, entry));
        } else {
            entries.push(entry);
            assert(entries@ == all.take(i as int) + seq![entry]);
        }
        self.entries = entries;
    }

    /// The payment at a position.
    pub fn entry(&self, i: usize) -> (r: PaymentEntry)
        requires
            i < self@.len(),
        ensures
            r == self@[i as int],
    {
        self.entries[i]
    }
}

/// Recording keeps hashes apart, changes one payment and no other, and is what
/// is read back.
proof fn lemma_recorded(entries: Seq<PaymentEntry>, hash: [u8; 32], info: PaymentInfo)
    ensures
        one_each(entries) ==> one_each(recorded(entries, hash, info)),
        lookup(recorded(entries, hash, info), hash) == Some(info),
        forall|other: [u8; 32]|
            other != hash ==> lookup(recorded(entries, hash, info), other) == #[trigger] lookup(
                entries,
                other,
            ),
        forall|i: int|
            0 <= i < recorded(entries, hash, info).len() ==> (#[trigger] recorded(
                entries,
                hash,
                info,
            )[i]).hash == hash || (i < entries.len() && entries[i].hash == recorded(
                entries,
                hash,
                info,
            )[i].hash),
    decreases entries.len(),
{
    let after = recorded(entries, hash, info);
    if entries.len() == 0 {
        assert(after[0].hash == hash);
        assert(lookup(after, hash) == Some(info));
        assert forall|other: [u8; 32]| other != hash implies lookup(after, other)
            == #[trigger] lookup(entries, other) by {
            assert(after.skip(1).len() == 0);
            assert(lookup(after.skip(1), other) is None);
        }
    } else if entries[0].hash == hash {
        assert(lookup(after, hash) == Some(info));
        assert forall|other: [u8; 32]| other != hash implies lookup(after, other)
            == #[trigger] lookup(entries, other) by {
            assert(after.skip(1) == entries.skip(1));
        }
        if one_each(entries) {
            assert(one_each(after)) by {
                assert forall|i: int, j: int| 0 <= i < j < after.len() implies (
                #[trigger] after[i]).hash != (#[trigger] after[j]).hash by {
                    assert(entries[i].hash == after[i].hash);
                    assert(entries[j].hash == after[j].hash);
                }
            }
        }
    } else {
        let rest = entries.skip(1);
        lemma_recorded(rest, hash, info);
        let later = recorded(rest, hash, info);
        assert(after.skip(1) == later);
        assert(after[0] == entries[0]);
        assert forall|i: int| 0 < i < after.len() implies #[trigger] after[i] == later[i - 1] by {}
        assert forall|i: int| 0 < i < entries.len() implies #[trigger] entries[i] == rest[i
            - 1] by {}
        assert forall|other: [u8; 32]| other != hash implies lookup(after, other)
            == #[trigger] lookup(entries, other) by {
            assert(lookup(later, other) == lookup(rest, other));
        }
        assert forall|i: int| 0 <= i < after.len() implies (#[trigger] after[i]).hash == hash || (i
            < entries.len() && entries[i].hash == after[i].hash) by {
            if i > 0 {
                assert(later[i - 1].hash == hash || (i - 1 < rest.len() && rest[i - 1].hash
                    == later[i - 1].hash));
            }
        }
        if one_each(entries) {
            assert(one_each(rest)) by {
                assert forall|i: int, j: int| 0 <= i < j < rest.len() implies (
                #[trigger] rest[i]).hash != (#[trigger] rest[j]).hash by {
                    assert(rest[i] == entries[i + 1]);
                    assert(rest[j] == entries[j + 1]);
                }
            }
            assert forall|i: int, j: int| 0 <= i < j < after.len() implies (
            #[trigger] after[i]).hash != (#[trigger] after[j]).hash by {
                if i == 0 {
                    assert(after[j].hash == hash || (j < entries.len() && entries[j].hash
                        == after[j].hash));
                } else {
                    assert(later[i - 1].hash != later[j - 1].hash);
                }
            }
        }
    }
}

/// What was recorded of a payment is what is read back, and nothing else
/// changes.
pub proof fn law_recorded_is_read_back(
    entries: Seq<PaymentEntry>,
    hash: [u8; 32],
    info: PaymentInfo,
    other: [u8; 32],
)
    ensures
        lookup(recorded(entries, hash, info), hash) == Some(info),
        other != hash ==> lookup(recorded(entries, hash, info), other) == lookup(entries, other),
        one_each(entries) ==> one_each(recorded(entries, hash, info)),
{
    lemma_recorded(entries, hash, info);
}

/// How a status is written.
pub open spec fn status_chars(status: HTLCStatus) -> Chars {
    match status {
        HTLCStatus::Pending => "pending"@,
        HTLCStatus::Succeeded => "succeeded"@,
        HTLCStatus::Failed => "failed"@,
    }
}

/// How an amount is written.
pub open spec fn amount_chars(amount: MillisatAmount) -> Chars {
    match amount.0 {
        Some(n) => decimal(n as nat),
        None => "unknown"@,
    }
}

/// How a payment is listed.
pub open spec fn payment_chars(direction: Chars, entry: PaymentEntry) -> Chars {
    "\n"@ + "\t{{\n"@ + "\t\tamount_millisatoshis: "@ + amount_chars(entry.info.amt_msat) + ",\n"@
        + "\t\tpayment_hash: "@ + hex(entry.hash@) + ",\n"@ + "\t\thtlc_direction: "@ + direction
        + ",\n"@ + "\t\thtlc_status: "@ + status_chars(entry.info.status) + ",\n"@ + "\t}},\n"@
}

/// How payments are listed, one behind the other.
pub open spec fn payments_chars(direction: Chars, entries: Seq<PaymentEntry>) -> Chars
    decreases entries.len(),
{
    if entries.len() == 0 {
        seq![]
    } else {
        payments_chars(direction, entries.drop_last()) + payment_chars(direction, entries.last())
    }
}

/// The list of all payments.
pub open spec fn list_chars(inbound: Seq<PaymentEntry>, outbound: Seq<PaymentEntry>) -> Chars {
    "[\n"@ + payments_chars("inbound"@, inbound) + payments_chars("outbound"@, outbound) + "]\n"@
}

/// How a status is written.
pub fn status_text(status: HTLCStatus) -> (r: String)
    ensures
        r@ == status_chars(status),
{
    match status {
        HTLCStatus::Pending => "pending".to_string(),
        HTLCStatus::Succeeded => "succeeded".to_string(),
        HTLCStatus::Failed => "failed".to_string(),
    }
}

/// How an amount is written.
pub fn amount_text(amount: MillisatAmount) -> (r: String)
    ensures
        r@ == amount_chars(amount),
{
    match amount.0 {
        Some(n) => decimal_text(n),
        None => "unknown".to_string(),
    }
}

fn payment_text(direction: &str, entry: &PaymentEntry) -> (r: String)
    ensures
        r@ == payment_chars(direction@, *entry),
{
    let mut s = "\n".to_string();
    s.append("\t{{\n");
    s.append("\t\tamount_millisatoshis: ");
    s.append(&amount_text(entry.info.amt_msat));
    s.append(",\n");
    s.append("\t\tpayment_hash: ");
    s.append(&hex_str(entry.hash.as_slice()));
    s.append(",\n");
    s.append("\t\thtlc_direction: ");
    s.append(direction);
    s.append(",\n");
    s.append("\t\thtlc_status: ");
    s.append(&status_text(entry.info.status));
    s.append(",\n");
    s.append("\t}},\n");
    s
}

fn payments_text(direction: &str, payments: &PaymentInfoStorage) -> (r: String)
    ensures
        r@ == payments_chars(direction@, payments@),
{
    let mut s: String = String::new();
    let mut i: usize = 0;
    assert(payments@.take(0).len() == 0);
    while i < payments.len()
        invariant
            i <= payments@.len(),
            s@ == payments_chars(direction@, payments@.take(i as int)),
        decreases payments@.len() - i,
    {
        s.append(&payment_text(direction, &payments.entry(i)));
        assert(payments@.take(i + 1).drop_last() == payments@.take(i as int));
        i += 1;
    }
    assert(payments@.take(payments@.len() as int) == payments@);
    s
}

/// Lists all payments.
pub fn list_payments(inbound: &PaymentInfoStorage, outbound: &PaymentInfoStorage) -> (r: String)
    ensures
        r@ == list_chars(inbound@, outbound@),
{
    let mut s = "[\n".to_string();
    s.append(&payments_text("inbound", inbound));
    s.append(&payments_text("outbound", outbound));
    s.append("]\n");
    s
}

/// What is said of an invoice: how far its payment has come, where a payment
/// that has not come is expired once the invoice is.
pub open spec fn invoice_status_chars(
    inbound: Seq<PaymentEntry>,
    payment_hash: [u8; 32],
    expired: bool,
) -> Chars {
    match lookup(inbound, payment_hash) {
        Some(info) => "status: "@ + if info.status == HTLCStatus::Pending && expired {
            "expired"@
        } else {
            status_chars(info.status)
        },
        None => "ERROR: unknown invoice"@,
    }
}

/// Says how far the payment of an invoice has come.
pub fn invoice_status(
    inbound: &PaymentInfoStorage,
    payment_hash: &[u8; 32],
    expired: bool,
) -> (r: String)
    ensures
        r@ == invoice_status_chars(inbound@, *payment_hash, expired),
{
    match inbound.get(payment_hash) {
        Some(info) => {
            let mut s = "status: ".to_string();
            if info.status == HTLCStatus::Pending && expired {
                s.append("expired");
            } else {
                s.append(&status_text(info.status));
            }
            s
        },
        None => "ERROR: unknown invoice".to_string(),
    }
}

/// Payments are listed one behind the other: the blocks of two groups of payments are the
/// blocks of the first and behind them those of the second, and one payment has one
/// block.
pub proof fn law_payments_are_listed_in_turn(
    direction: Chars,
    a: Seq<PaymentEntry>,
    b: Seq<PaymentEntry>,
    one: PaymentEntry,
)
    ensures
        payments_chars(direction, a + b) == payments_chars(direction, a) + payments_chars(
            direction,
            b,
        ),
        payments_chars(direction, seq![one]) == payment_chars(direction, one),
    decreases b.len(),
{
    if b.len() == 0 {
        assert(a + b == a);
        assert(payments_chars(direction, a) + payments_chars(direction, b) == payments_chars(
            direction,
            a,
        ));
    } else {
        law_payments_are_listed_in_turn(direction, a, b.drop_last(), one);
        assert((a + b).drop_last() == a + b.drop_last());
        assert((a + b).last() == b.last());
        let block = payment_chars(direction, b.last());
        assert(payments_chars(direction, a) + (payments_chars(direction, b.drop_last()) + block)
            == payments_chars(direction, a) + payments_chars(direction, b.drop_last()) + block);
    }
    let block = payment_chars(direction, one);
    assert(seq![one].drop_last().len() == 0);
    assert(payments_chars(direction, seq![one].drop_last()) + block == block);
}

/// The block of a payment tells its hash, its amount where it is known, which way it
/// goes, and how far it has come.
pub proof fn law_payments_are_told(direction: Chars, entry: PaymentEntry)
    ensures
        ({
            let block = payment_chars(direction, entry);
            &&& stands_in("\t\tpayment_hash: "@ + hex(entry.hash@) + ",\n"@, block)
            &&& stands_in(
                "\t\tamount_millisatoshis: "@ + match entry.info.amt_msat.0 {
                    Some(n) => decimal(n as nat),
                    None => "unknown"@,
                } + ",\n"@,
                block,
            )
            &&& stands_in("\t\thtlc_direction: "@ + direction + ",\n"@, block)
            &&& stands_in(
                "\t\thtlc_status: "@ + match entry.info.status {
                    HTLCStatus::Pending => "pending"@,
                    HTLCStatus::Succeeded => "succeeded"@,
                    HTLCStatus::Failed => "failed"@,
                } + ",\n"@,
                block,
            )
        }),
{
    let block = payment_chars(direction, entry);
    let a = "\n"@ + "\t{{\n"@;
    let b = "\t\tamount_millisatoshis: "@ + amount_chars(entry.info.amt_msat) + ",\n"@;
    let c = "\t\tpayment_hash: "@ + hex(entry.hash@) + ",\n"@;
    let d = "\t\thtlc_direction: "@ + direction + ",\n"@;
    let e = "\t\thtlc_status: "@ + status_chars(entry.info.status) + ",\n"@;
    let f = "\t}},\n"@;
    assert(block == a + b + c + d + e + f);
    assert(block == a + b + (c + d + e + f));
    assert(block == (a + b) + c + (d + e + f));
    assert(block == (a + b + c) + d + (e + f));
    assert(block == (a + b + c + d) + e + f);
}

/// Every payment is listed: those that were awaited or came first, then those that were
/// made, each between the ones before it and the ones behind it.
pub proof fn law_every_payment_is_listed(
    inbound: Seq<PaymentEntry>,
    outbound: Seq<PaymentEntry>,
    i: int,
    step: Step,
)
    requires
        list_payments_step(inbound, outbound, step),
    ensures
        step is Reply,
        (step->Reply_0).response@ == "[\n"@ + payments_chars("inbound"@, inbound) + payments_chars(
            "outbound"@,
            outbound,
        ) + "]\n"@,
        0 <= i < inbound.len() ==> payments_chars("inbound"@, inbound) == payments_chars(
            "inbound"@,
            inbound.take(i),
        ) + payment_chars("inbound"@, inbound[i]) + payments_chars(
            "inbound"@,
            inbound.skip(i + 1),
        ),
        0 <= i < outbound.len() ==> payments_chars("outbound"@, outbound) == payments_chars(
            "outbound"@,
            outbound.take(i),
        ) + payment_chars("outbound"@, outbound[i]) + payments_chars(
            "outbound"@,
            outbound.skip(i + 1),
        ),
{
    if 0 <= i < inbound.len() {
        lemma_payments_split("inbound"@, inbound, i);
    }
    if 0 <= i < outbound.len() {
        lemma_payments_split("outbound"@, outbound, i);
    }
}

proof fn lemma_payments_split(direction: Chars, entries: Seq<PaymentEntry>, i: int)
    requires
        0 <= i < entries.len(),
    ensures
        payments_chars(direction, entries) == payments_chars(direction, entries.take(i))
            + payment_chars(direction, entries[i]) + payments_chars(direction, entries.skip(i + 1)),
{
    let one = seq![entries[i]];
    let before = entries.take(i);
    let behind = entries.skip(i + 1);
    assert(entries == before + one + behind);
    law_payments_are_listed_in_turn(direction, before, one, entries[i]);
    law_payments_are_listed_in_turn(direction, before + one, behind, entries[i]);
}

/// Recording a payment adds at most one, and none where there is one with its hash.
pub proof fn law_recording_adds_at_most_one(
    entries: Seq<PaymentEntry>,
    hash: [u8; 32],
    info: PaymentInfo,
)
    ensures
        recorded(entries, hash, info).len() == entries.len() + if lookup(entries, hash) is Some {
            0nat
        } else {
            1nat
        },
    decreases entries.len(),
{
    if entries.len() > 0 && entries[0].hash != hash {
        law_recording_adds_at_most_one(entries.skip(1), hash, info);
    }
}

/// What is looked up is what is known of the payment with the hash: as long as no hash
/// occurs twice every payment is found by its own, and nothing is found by a hash that no
/// payment has.
pub proof fn law_payments_are_found_by_their_hash(
    entries: Seq<PaymentEntry>,
    i: int,
    hash: [u8; 32],
)
    ensures
        one_each(entries) && 0 <= i < entries.len() ==> lookup(entries, entries[i].hash) == Some(
            entries[i].info,
        ),
        lookup(entries, hash) is None <==> forall|j: int|
            0 <= j < entries.len() ==> (#[trigger] entries[j]).hash != hash,
    decreases entries.len(),
{
    if entries.len() > 0 {
        let rest = entries.skip(1);
        law_payments_are_found_by_their_hash(rest, i - 1, hash);
        assert forall|j: int| 0 <= j < rest.len() implies #[trigger] rest[j] == entries[j + 1] by {}
        if one_each(entries) && 0 < i < entries.len() {
            assert(one_each(rest));
            assert(entries[0].hash != entries[i].hash);
            assert(rest[i - 1] == entries[i]);
        }
        if entries[0].hash != hash {
            if lookup(entries, hash) is None {
                assert forall|j: int| 0 <= j < entries.len() implies (
                #[trigger] entries[j]).hash != hash by {
                    if j > 0 {
                        assert(rest[j - 1] == entries[j]);
                    }
                }
            } else {
                let j = choose|j: int| 0 <= j < rest.len() && (#[trigger] rest[j]).hash == hash;
                assert(entries[j + 1].hash == hash);
            }
        } else {
            assert(entries[0].hash == hash);
        }
    }
}

} // verus!
