//! Requests that pay: invoices, and nodes without an invoice.
use vstd::prelude::*;

use crate::hex_utils::{compressed_pubkey, hex, hex_str, to_compressed_pubkey};
use crate::invoices::{read_if_readable, reads};
use crate::number::{decimal, decimal_text, fault_text, number, parse_number};
use crate::payments::{
    law_recorded_is_read_back, lookup, recorded, HTLCStatus, MillisatAmount, PaymentEntry,
    PaymentInfo, PaymentInfoStorage,
};
use crate::request::{law_words_stand_for_commands, request_step};
use crate::step::{abort, answer, Reply, Settings, Step};
use crate::text::{join2, join3, join4, with_chars, words, Chars};
use crate::trusted::{
    contract_id, invoice, invoice_can_be_read, parse_contract_id, sha256, sha256_digest,
};
use crate::types::{maybe32, maybe33, InvoiceData};

verus! {

/// The least amount that a channel carries at once.
pub const HTLC_MIN_MSAT: u64 = 3000000;

/// The least amount of an invoice.
pub const INVOICE_MIN_MSAT: u64 = HTLC_MIN_MSAT;

/// How many seconds a payment is tried again.
pub const RETRY_SECS: u64 = 10;

/// How many blocks the last hop of a payment without an invoice has.
pub const KEYSEND_FINAL_DELTA: u32 = 40;

/// An invoice to be paid, before it is known which asset it is over.
#[derive(Debug, PartialEq, Eq)]
pub struct InvoiceAsset {
    pub invoice: InvoiceData,
    pub amt_msat: u64,
}

/// An invoice to be paid, and the asset to be written down before.
#[derive(Debug, PartialEq, Eq)]
pub struct PayInvoice {
    pub invoice: InvoiceData,
    pub amt_msat: u64,
    pub contract_id: [u8; 32],
    pub amt_rgb: u64,
    pub retry_secs: u64,
}

/// A payment without an invoice, before its secret is drawn.
#[derive(Debug, PartialEq, Eq)]
pub struct Keysend {
    pub payee: [u8; 33],
    pub amt_msat: u64,
    pub contract_id: [u8; 32],
    pub amt_rgb: u64,
}

/// A payment without an invoice to be sent; its id is its hash.
#[derive(Debug, PartialEq, Eq)]
pub struct KeysendPay {
    pub payment: Keysend,
    pub preimage: [u8; 32],
    pub payment_hash: [u8; 32],
    pub final_delta: u32,
    pub retry_secs: u64,
}

/// What becomes of an invoice that is to be paid, by what it says.
pub open spec fn pay_step(said: Result<InvoiceData, Chars>, step: Step) -> bool {
    match said {
        Ok(invoice) => match invoice.amount_msat {
            Some(amt_msat) => if amt_msat < INVOICE_MIN_MSAT {
                step.answers(
                    "ERROR: msat amount in invoice cannot be less than "@ + decimal(
                        INVOICE_MIN_MSAT as nat,
                    ),
                )
            } else {
                step == Step::InvoiceAsset(InvoiceAsset { invoice, amt_msat })
            },
            None => step.answers("ERROR: msat amount missing in invoice"@),
        },
        Err(reason) => step.answers("ERROR: invalid invoice: "@ + reason),
    }
}

/// `sendpayment <invoice>`
pub open spec fn send_payment_step(w: Seq<Chars>, step: Step) -> bool {
    if w.len() < 2 {
        step.answers("ERROR: sendpayment requires an invoice: `sendpayment <invoice>`"@)
    } else if !invoice_can_be_read(w[1]) {
        step.aborts("attempt to multiply with overflow"@)
    } else {
        exists|said: Result<InvoiceData, Chars>| reads(w[1], said) && #[trigger] pay_step(said, step)
    }
}

/// Begins to pay an invoice.
pub fn send_payment(words: &Vec<String>) -> (step: Step)
    ensures
        send_payment_step(words.deep_view(), step),
{
    if words.len() < 2 {
        return answer("ERROR: sendpayment requires an invoice: `sendpayment <invoice>`");
    }
    match read_if_readable(&words[1]) {
        Some(read) => {
            let step = pay(read);
            assert(reads(words.deep_view()[1], with_chars(read)) && pay_step(with_chars(read), step));
            step
        },
        None => abort("attempt to multiply with overflow"),
    }
}

/// Goes on to pay an invoice once it is read, or it is known why it is none.
pub fn pay(read: Result<InvoiceData, String>) -> (step: Step)
    ensures
        pay_step(with_chars(read), step),
{
    let invoice = match read {
        Ok(i) => i,
        Err(e) => {
            return answer(&join2("ERROR: invalid invoice: ", &e));
        },
    };
    match invoice.amount_msat {
        Some(amt_msat) => if amt_msat < INVOICE_MIN_MSAT {
            answer(
                &join2(
                    "ERROR: msat amount in invoice cannot be less than ",
                    &decimal_text(INVOICE_MIN_MSAT),
                ),
            )
        } else {
            Step::InvoiceAsset(InvoiceAsset { invoice, amt_msat })
        },
        None => answer("ERROR: msat amount missing in invoice"),
    }
}

/// What becomes of an invoice that is to be paid, by the contract id and the amount
/// of the asset that it names. It is not paid where it lacks either.
pub open spec fn asset_step(
    p: InvoiceAsset,
    contract_id: Option<[u8; 32]>,
    amt_rgb: Option<u64>,
    step: Step,
) -> bool {
    match (contract_id, amt_rgb) {
        (Some(contract_id), Some(amt_rgb)) => step == Step::PayInvoice(
            PayInvoice {
                invoice: p.invoice,
                amt_msat: p.amt_msat,
                contract_id,
                amt_rgb,
                retry_secs: RETRY_SECS,
            },
        ),
        _ => step.aborts("called `Option::unwrap()` on a `None` value"@),
    }
}

impl InvoiceAsset {
    /// Goes on once it is known which asset the invoice is over, and how much of
    /// it.
    pub fn asset_read(self, contract_id: Option<[u8; 32]>, amt_rgb: Option<u64>) -> (step: Step)
        ensures
            asset_step(self, contract_id, amt_rgb, step),
    {
        match (contract_id, amt_rgb) {
            (Some(contract_id), Some(amt_rgb)) => Step::PayInvoice(
                PayInvoice {
                    invoice: self.invoice,
                    amt_msat: self.amt_msat,
                    contract_id,
                    amt_rgb,
                    retry_secs: RETRY_SECS,
                },
            ),
            _ => abort("called `Option::unwrap()` on a `None` value"),
        }
    }
}

/// The status of a payment that was just made, or could not be.
pub open spec fn first_status(sent: bool) -> HTLCStatus {
    if sent {
        HTLCStatus::Pending
    } else {
        HTLCStatus::Failed
    }
}

/// The payments once an invoice is being paid, or could not be.
pub open spec fn paid_payments(
    outbound: Seq<PaymentEntry>,
    p: PayInvoice,
    sent: bool,
) -> Seq<PaymentEntry> {
    recorded(
        outbound,
        p.invoice.payment_hash,
        PaymentInfo {
            preimage: None,
            secret: Some(p.invoice.payment_secret),
            status: first_status(sent),
            amt_msat: MillisatAmount(p.invoice.amount_msat),
        },
    )
}

/// What is replied once an invoice is being paid, or could not be.
pub open spec fn paid_step(p: PayInvoice, sent: Result<(), Chars>, step: Step) -> bool {
    step.replies(
        "> "@,
        match sent {
            Ok(_) => "EVENT: initiated sending "@ + decimal(p.amt_msat as nat) + " msats to "@
                + hex(p.invoice.payee@) + "\n"@,
            Err(e) => "ERROR: failed to send payment: "@ + e + "\n"@,
        },
    )
}

impl PayInvoice {
    /// Goes on once the payment is under way, or could not be made. Either way it
    /// is recorded.
    pub fn paid(self, sent: Result<(), String>, payments: &mut PaymentInfoStorage) -> (step: Step)
        ensures
            paid_step(self, with_chars(sent), step),
            final(payments)@ == paid_payments(old(payments)@, self, sent is Ok),
    {
        let (response, status): (String, HTLCStatus) = match sent {
            Ok(_) => {
                let mut s = join4(
                    "EVENT: initiated sending ",
                    &decimal_text(self.amt_msat),
                    " msats to ",
                    &hex_str(self.invoice.payee.as_slice()),
                );
                s.append("\n");
                (s, HTLCStatus::Pending)
            },
            Err(e) => (join3("ERROR: failed to send payment: ", &e, "\n"), HTLCStatus::Failed),
        };
        payments.insert(
            self.invoice.payment_hash,
            PaymentInfo {
                preimage: None,
                secret: Some(self.invoice.payment_secret),
                status,
                amt_msat: MillisatAmount(self.invoice.amount_msat),
            },
        );
        Step::Reply(Reply { printed: "> ".to_string(), response })
    }
}

/// How `keysend` is used.
pub open spec fn keysend_usage() -> Chars {
    "`keysend <dest_pubkey> <amt_msat> <contract_id> <amt_rgb>`"@
}

/// `keysend <dest_pubkey> <amt_msat> <contract_id> <amt_rgb>`: the words are
/// read one after the other, and a missing word is noticed only where those
/// before it are in order. `key` and `id` are what key and contract id denote.
pub open spec fn keysend_step(
    w: Seq<Chars>,
    key: Option<Seq<u8>>,
    id: Option<Seq<u8>>,
    step: Step,
) -> bool {
    if w.len() < 2 {
        step.answers("ERROR: keysend requires a destination pubkey: "@ + keysend_usage())
    } else if key is None {
        step.answers("ERROR: couldn't parse destination pubkey"@)
    } else if w.len() < 3 {
        step.answers("ERROR: keysend requires an amount in millisatoshis: "@ + keysend_usage())
    } else {
        match number(w[2], u64::MAX as nat) {
            Err(f) => step.answers("ERROR: couldn't parse amount_msat: "@ + fault_text(f)),
            Ok(amt_msat) => if amt_msat < HTLC_MIN_MSAT {
                step.answers(
                    "ERROR: amount_msat cannot be less than "@ + decimal(HTLC_MIN_MSAT as nat),
                )
            } else if w.len() < 4 {
                step.answers("ERROR: keysend requires a contract ID: "@ + keysend_usage())
            } else if id is None {
                step.answers("ERROR: invalid contract ID: "@ + w[3])
            } else if w.len() < 5 {
                step.answers("ERROR: keysend requires an RGB amount: "@ + keysend_usage())
            } else {
                match number(w[4], u64::MAX as nat) {
                    Err(f) => step.answers("ERROR: couldn't parse amt_rgb: "@ + fault_text(f)),
                    Ok(amt_rgb) => step matches Step::KeysendEntropy(k) && {
                        &&& key == Some(k.payee@)
                        &&& k.amt_msat == amt_msat
                        &&& id == Some(k.contract_id@)
                        &&& k.amt_rgb == amt_rgb
                    },
                }
            },
        }
    }
}

/// Begins a payment without an invoice.
pub fn keysend(words: &Vec<String>) -> (step: Step)
    ensures
        keysend_step(
            words.deep_view(),
            compressed_pubkey(words.deep_view()[1]),
            contract_id(words.deep_view()[3]),
            step,
        ),
{
    let key: Option<[u8; 33]> = if words.len() > 1 {
        to_compressed_pubkey(&words[1])
    } else {
        None
    };
    let id: Option<[u8; 32]> = if words.len() > 3 {
        parse_contract_id(&words[3])
    } else {
        None
    };
    keysend_to(words, key, id)
}

/// Begins a payment without an invoice to the node, and of the asset, that the
/// words denote.
pub fn keysend_to(words: &Vec<String>, key: Option<[u8; 33]>, id: Option<[u8; 32]>) -> (step: Step)
    ensures
        keysend_step(words.deep_view(), maybe33(key), maybe32(id), step),
{
    let usage = "`keysend <dest_pubkey> <amt_msat> <contract_id> <amt_rgb>`";
    if words.len() < 2 {
        return answer(&join2("ERROR: keysend requires a destination pubkey: ", usage));
    }
    let payee = match key {
        Some(key) => key,
        None => {
            return answer("ERROR: couldn't parse destination pubkey");
        },
    };
    if words.len() < 3 {
        return answer(&join2("ERROR: keysend requires an amount in millisatoshis: ", usage));
    }
    let amt_msat: u64 = match parse_number(&words[2], u64::MAX) {
        Ok(n) => n,
        Err(f) => {
            return answer(&join2("ERROR: couldn't parse amount_msat: ", &f.text()));
        },
    };
    if amt_msat < HTLC_MIN_MSAT {
        return answer(
            &join2("ERROR: amount_msat cannot be less than ", &decimal_text(HTLC_MIN_MSAT)),
        );
    }
    if words.len() < 4 {
        return answer(&join2("ERROR: keysend requires a contract ID: ", usage));
    }
    let contract_id = match id {
        Some(id) => id,
        None => {
            return answer(&join2("ERROR: invalid contract ID: ", &words[3]));
        },
    };
    if words.len() < 5 {
        return answer(&join2("ERROR: keysend requires an RGB amount: ", usage));
    }
    match parse_number(&words[4], u64::MAX) {
        Ok(amt_rgb) => Step::KeysendEntropy(Keysend { payee, amt_msat, contract_id, amt_rgb }),
        Err(f) => answer(&join2("ERROR: couldn't parse amt_rgb: ", &f.text())),
    }
}

/// What becomes of a payment without an invoice once its secret is drawn.
pub open spec fn drawn_step(payment: Keysend, preimage: [u8; 32], step: Step) -> bool {
    step matches Step::KeysendPay(k) && {
        &&& k.payment == payment
        &&& k.preimage == preimage
        &&& k.payment_hash@ == sha256(preimage@)
        &&& k.final_delta == KEYSEND_FINAL_DELTA
        &&& k.retry_secs == RETRY_SECS
    }
}

/// What is shown once a payment without an invoice is under way, or could not be
/// made; nothing is replied.
pub open spec fn keysend_sent_step(k: KeysendPay, sent: Result<(), Chars>, step: Step) -> bool {
    step.replies(
        match sent {
            Ok(_) => "EVENT: initiated sending "@ + decimal(k.payment.amt_msat as nat)
                + " msats to "@ + hex(k.payment.payee@) + "\n> "@,
            Err(e) => "ERROR: failed to send payment: "@ + e + "\n> "@,
        },
        seq![],
    )
}

/// The payments once one without an invoice is under way, or could not be made.
pub open spec fn keysend_payments(
    outbound: Seq<PaymentEntry>,
    k: KeysendPay,
    sent: bool,
) -> Seq<PaymentEntry> {
    recorded(
        outbound,
        k.payment_hash,
        PaymentInfo {
            preimage: None,
            secret: None,
            status: first_status(sent),
            amt_msat: MillisatAmount(Some(k.payment.amt_msat)),
        },
    )
}

impl Keysend {
    /// Goes on once the secret is drawn.
    pub fn drawn(self, preimage: [u8; 32]) -> (step: Step)
        ensures
            drawn_step(self, preimage, step),
    {
        let payment_hash = sha256_digest(preimage.as_slice());
        Step::KeysendPay(
            KeysendPay {
                payment: self,
                preimage,
                payment_hash,
                final_delta: KEYSEND_FINAL_DELTA,
                retry_secs: RETRY_SECS,
            },
        )
    }
}

impl KeysendPay {
    /// Goes on once the payment is under way, or could not be made. Either way it
    /// is recorded, and what happened is shown only.
    pub fn sent(self, sent: Result<(), String>, payments: &mut PaymentInfoStorage) -> (step: Step)
        ensures
            keysend_sent_step(self, with_chars(sent), step),
            final(payments)@ == keysend_payments(old(payments)@, self, sent is Ok),
    {
        let (printed, status): (String, HTLCStatus) = match sent {
            Ok(_) => {
                let mut s = join4(
                    "EVENT: initiated sending ",
                    &decimal_text(self.payment.amt_msat),
                    " msats to ",
                    &hex_str(self.payment.payee.as_slice()),
                );
                s.append("\n> ");
                (s, HTLCStatus::Pending)
            },
            Err(e) => (join3("ERROR: failed to send payment: ", &e, "\n> "), HTLCStatus::Failed),
        };
        payments.insert(
            self.payment_hash,
            PaymentInfo {
                preimage: None,
                secret: None,
                status,
                amt_msat: MillisatAmount(Some(self.payment.amt_msat)),
            },
        );
        Step::Reply(Reply { printed, response: String::new() })
    }
}

/// No payment below the least amount is made, and no invoice is paid that names no
/// asset.
pub proof fn law_payments_reach_the_minimum(
    said: Result<InvoiceData, Chars>,
    p: InvoiceAsset,
    contract_id: Option<[u8; 32]>,
    amt_rgb: Option<u64>,
    step: Step,
)
    requires
        pay_step(said, Step::InvoiceAsset(p)),
        asset_step(p, contract_id, amt_rgb, step),
    ensures
        step matches Step::PayInvoice(pay) ==> {
            &&& pay.amt_msat >= INVOICE_MIN_MSAT
            &&& pay.invoice.amount_msat == Some(pay.amt_msat)
            &&& contract_id == Some(pay.contract_id)
            &&& amt_rgb == Some(pay.amt_rgb)
        },
        contract_id is None || amt_rgb is None ==> step is Abort,
{
}

/// No payment without an invoice is below the least amount.
pub proof fn law_keysends_reach_the_minimum(
    w: Seq<Chars>,
    key: Option<Seq<u8>>,
    id: Option<Seq<u8>>,
    k: Keysend,
)
    requires
        keysend_step(w, key, id, Step::KeysendEntropy(k)),
    ensures
        k.amt_msat >= HTLC_MIN_MSAT,
{
}

/// A line with `sendpayment` has an invoice paid if and only if it names one over an
/// amount that is large enough, and the asset and how much of it are known. What is paid
/// is what the invoice says, and of the asset what is known.
pub proof fn law_invoices_are_paid_as_they_say(
    line: Chars,
    w: Seq<Chars>,
    settings: Settings,
    id: [u8; 32],
    amt_rgb: u64,
    asked: Step,
    paying: Step,
)
    requires
        words(line) == w,
        w.len() > 0,
        w[0] == "sendpayment"@,
        request_step(line, settings, asked),
        asked matches Step::InvoiceAsset(p) ==> asset_step(p, Some(id), Some(amt_rgb), paying),
        asked !is InvoiceAsset ==> paying == asked,
    ensures
        paying is PayInvoice <==> {
            &&& w.len() >= 2
            &&& invoice_can_be_read(w[1])
            &&& invoice(w[1]) is Ok
            &&& (invoice(w[1])->Ok_0).0 is Some
            &&& (invoice(w[1])->Ok_0).0->0 >= 3000000
        },
        paying !is PayInvoice ==> paying is Reply || paying is Abort,
        paying is Abort ==> w.len() >= 2 && !invoice_can_be_read(w[1]),
        paying matches Step::PayInvoice(p) ==> {
            &&& (invoice(w[1])->Ok_0).0 == Some(p.amt_msat)
            &&& p.invoice.amount_msat == Some(p.amt_msat)
            &&& p.invoice.text@ == w[1]
            &&& p.invoice.payment_hash@ == (invoice(w[1])->Ok_0).1
            &&& p.invoice.payment_secret@ == (invoice(w[1])->Ok_0).2
            &&& p.invoice.payee@ == (invoice(w[1])->Ok_0).3
            &&& p.contract_id == id
            &&& p.amt_rgb == amt_rgb
            &&& p.retry_secs == 10
        },
{
    law_words_stand_for_commands(w[0]);
    if w.len() >= 2 && invoice_can_be_read(w[1]) {
        let said = choose|said: Result<InvoiceData, Chars>|
            reads(w[1], said) && #[trigger] pay_step(said, asked);
        assert(reads(w[1], said) && pay_step(said, asked));
    }
}

/// An invoice that is paid is found among the payments by its hash, with its secret and
/// the amount that it says: pending if it is being paid, failed if it could not be. No
/// other payment changes, and the amount and the payee are shown.
pub proof fn law_paid_invoices_are_recorded(
    p: PayInvoice,
    outbound: Seq<PaymentEntry>,
    sent: Result<(), Chars>,
    shown: Step,
    other: [u8; 32],
)
    requires
        p.invoice.amount_msat == Some(p.amt_msat),
        paid_step(p, sent, shown),
    ensures
        ({
            let after = paid_payments(outbound, p, sent is Ok);
            &&& lookup(after, p.invoice.payment_hash) matches Some(info) && {
                &&& info.amt_msat.0 == Some(p.amt_msat)
                &&& info.secret == Some(p.invoice.payment_secret)
                &&& info.preimage is None
                &&& info.status == HTLCStatus::Pending <==> sent is Ok
                &&& info.status == HTLCStatus::Failed <==> sent is Err
            }
            &&& other != p.invoice.payment_hash ==> lookup(after, other) == lookup(
                outbound,
                other,
            )
        }),
        shown is Reply,
        (shown->Reply_0).printed@ == "> "@,
        sent is Ok ==> (shown->Reply_0).response@ == "EVENT: initiated sending "@ + decimal(
            p.amt_msat as nat,
        ) + " msats to "@ + hex(p.invoice.payee@) + "\n"@,
        sent matches Err(e) ==> (shown->Reply_0).response@ == "ERROR: failed to send payment: "@ + e
            + "\n"@,
{
    law_recorded_is_read_back(
        outbound,
        p.invoice.payment_hash,
        PaymentInfo {
            preimage: None,
            secret: Some(p.invoice.payment_secret),
            status: first_status(sent is Ok),
            amt_msat: MillisatAmount(p.invoice.amount_msat),
        },
        other,
    );
}

/// A line with `keysend` has a payment made if and only if it names a node, an amount
/// that is large enough, an asset and an amount of it. The payment is to that node, of
/// that amount and that much of that asset, and its hash is that of its secret.
pub proof fn law_keysends_are_paid_as_named(
    line: Chars,
    w: Seq<Chars>,
    settings: Settings,
    preimage: [u8; 32],
    asked: Step,
    paying: Step,
)
    requires
        words(line) == w,
        w.len() > 0,
        w[0] == "keysend"@,
        request_step(line, settings, asked),
        asked matches Step::KeysendEntropy(k) ==> drawn_step(k, preimage, paying),
        asked !is KeysendEntropy ==> paying == asked,
    ensures
        paying is KeysendPay <==> {
            &&& w.len() >= 5
            &&& compressed_pubkey(w[1]) is Some
            &&& number(w[2], u64::MAX as nat) matches Ok(n) && n >= 3000000
            &&& contract_id(w[3]) is Some
            &&& number(w[4], u64::MAX as nat) is Ok
        },
        paying !is KeysendPay ==> paying is Reply,
        paying matches Step::KeysendPay(k) ==> {
            &&& compressed_pubkey(w[1]) == Some(k.payment.payee@)
            &&& number(w[2], u64::MAX as nat)->Ok_0 == k.payment.amt_msat
            &&& contract_id(w[3]) == Some(k.payment.contract_id@)
            &&& number(w[4], u64::MAX as nat)->Ok_0 == k.payment.amt_rgb
            &&& k.preimage == preimage
            &&& k.payment_hash@ == sha256(preimage@)
            &&& k.final_delta == 40
            &&& k.retry_secs == 10
        },
{
    law_words_stand_for_commands(w[0]);
}

/// Whatever amounts are written in a line with `keysend`, these are the amounts that are
/// paid, as long as the first is large enough.
pub proof fn law_keysend_amounts_are_kept(
    line: Chars,
    w: Seq<Chars>,
    settings: Settings,
    amt_msat: u64,
    amt_rgb: u64,
    preimage: [u8; 32],
    asked: Step,
    paying: Step,
)
    requires
        words(line) == w,
        w.len() >= 5,
        w[0] == "keysend"@,
        compressed_pubkey(w[1]) is Some,
        w[2] == decimal(amt_msat as nat),
        amt_msat >= 3000000,
        contract_id(w[3]) is Some,
        w[4] == decimal(amt_rgb as nat),
        request_step(line, settings, asked),
        asked matches Step::KeysendEntropy(k) ==> drawn_step(k, preimage, paying),
        asked !is KeysendEntropy ==> paying == asked,
    ensures
        paying matches Step::KeysendPay(k) && k.payment.amt_msat == amt_msat && k.payment.amt_rgb
            == amt_rgb,
{
    law_keysends_are_paid_as_named(line, w, settings, preimage, asked, paying);
    crate::number::law_decimal_reads_back(amt_msat as nat, u64::MAX as nat);
    crate::number::law_decimal_reads_back(amt_rgb as nat, u64::MAX as nat);
}

/// A payment without an invoice is found among the payments by the hash of its secret,
/// with the amount that is paid: pending if it is under way, failed if it could not be
/// made. No other payment changes, and the amount and the payee are shown.
pub proof fn law_keysends_are_recorded(
    k: KeysendPay,
    outbound: Seq<PaymentEntry>,
    sent: Result<(), Chars>,
    shown: Step,
    other: [u8; 32],
)
    requires
        keysend_sent_step(k, sent, shown),
    ensures
        ({
            let after = keysend_payments(outbound, k, sent is Ok);
            &&& lookup(after, k.payment_hash) matches Some(info) && {
                &&& info.amt_msat.0 == Some(k.payment.amt_msat)
                &&& info.secret is None
                &&& info.preimage is None
                &&& info.status == HTLCStatus::Pending <==> sent is Ok
                &&& info.status == HTLCStatus::Failed <==> sent is Err
            }
            &&& other != k.payment_hash ==> lookup(after, other) == lookup(outbound, other)
        }),
        shown is Reply,
        (shown->Reply_0).response@.len() == 0,
        sent is Ok ==> (shown->Reply_0).printed@ == "EVENT: initiated sending "@ + decimal(
            k.payment.amt_msat as nat,
        ) + " msats to "@ + hex(k.payment.payee@) + "\n> "@,
        sent matches Err(e) ==> (shown->Reply_0).printed@ == "ERROR: failed to send payment: "@ + e
            + "\n> "@,
{
    law_recorded_is_read_back(
        outbound,
        k.payment_hash,
        PaymentInfo {
            preimage: None,
            secret: None,
            status: first_status(sent is Ok),
            amt_msat: MillisatAmount(Some(k.payment.amt_msat)),
        },
        other,
    );
}

/// A payment that is refused is refused with its reason: of a line with `sendpayment` why
/// its word is no invoice, of one with `keysend` which word is no number and why, or
/// which is no asset.
pub proof fn law_refused_payments_are_explained(
    line: Chars,
    w: Seq<Chars>,
    settings: Settings,
    step: Step,
)
    requires
        words(line) == w,
        request_step(line, settings, step),
    ensures
        w.len() >= 2 && w[0] == "sendpayment"@ && invoice_can_be_read(w[1]) ==> match invoice(
            w[1],
        ) {
            Err(reason) => step.answers("ERROR: invalid invoice: "@ + reason),
            Ok(said) => match said.0 {
                None => step.answers("ERROR: msat amount missing in invoice"@),
                Some(n) => n < 3000000 ==> step.answers(
                    "ERROR: msat amount in invoice cannot be less than "@ + decimal(3000000),
                ),
            },
        },
        w.len() >= 5 && w[0] == "keysend"@ && compressed_pubkey(w[1]) is Some ==> match number(
            w[2],
            u64::MAX as nat,
        ) {
            Err(f) => step.answers("ERROR: couldn't parse amount_msat: "@ + fault_text(f)),
            Ok(n) => if n < 3000000 {
                step.answers("ERROR: amount_msat cannot be less than "@ + decimal(3000000))
            } else if contract_id(w[3]) is None {
                step.answers("ERROR: invalid contract ID: "@ + w[3])
            } else {
                number(w[4], u64::MAX as nat) matches Err(f) ==> step.answers(
                    "ERROR: couldn't parse amt_rgb: "@ + fault_text(f),
                )
            },
        },
{
    if w.len() >= 2 {
        law_words_stand_for_commands(w[0]);
        if w[0] == "sendpayment"@ && invoice_can_be_read(w[1]) {
            let said = choose|said: Result<InvoiceData, Chars>|
                reads(w[1], said) && #[trigger] pay_step(said, step);
            assert(reads(w[1], said) && pay_step(said, step));
        }
    }
}

} // verus!
