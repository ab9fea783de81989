//! Requests about invoices: creating them, asking how far their payment has
//! come, and settling those whose payment is held.
use vstd::prelude::*;

use crate::hex_utils::{hex, strict_unhex};
use crate::json::{json_string, read_json_string};
use crate::number::{decimal, decimal_text, fault_text, number, parse_number};
use crate::paying::INVOICE_MIN_MSAT;
use crate::payments::{
    invoice_status, invoice_status_chars, lookup, recorded, HTLCStatus, MillisatAmount,
    PaymentEntry, PaymentInfo, PaymentInfoStorage,
};
use crate::request::{law_words_stand_for_commands, request_step};
use crate::step::{abort, announce, answer, Settings, Step};
use crate::text::{join2, join3, stands_in, with_chars, words, Chars};
use crate::trusted::{
    amount_fits, can_be_read, check_invoice_fields, check_invoice_signature, contract_id,
    hex_decode, hex_encode, invoice, invoice_can_be_read, invoice_is_expired, json_text,
    parse_contract_id, random_bytes, raw_invoice_amount, read_invoice, sha256, sha256_digest,
    PICO,
};
use crate::types::{bytes32, maybe32, Currency, InvoiceData, Network};

verus! {

/// What every invoice of this node is for.
pub const INVOICE_DESCRIPTION: &'static str = "ldk-tutorial-node";

/// An invoice to be created.
#[derive(Debug, PartialEq, Eq)]
pub struct NewInvoice {
    pub amt_msat: u64,
    pub currency: Currency,
    pub description: String,
    pub expiry_secs: u32,
    pub contract_id: [u8; 32],
    pub amt_rgb: u64,
}

/// An invoice to be created for a payment hash that is given.
#[derive(Debug, PartialEq, Eq)]
pub struct NewHodlInvoice {
    pub invoice: NewInvoice,
    pub payment_hash: [u8; 32],
}

/// An invoice that was created.
#[derive(Debug, PartialEq, Eq)]
pub struct CreatedInvoice {
    pub text: String,
    pub payment_hash: [u8; 32],
    pub payment_secret: [u8; 32],
}

/// A payment to be claimed with its secret.
#[derive(Clone, Copy, Debug, PartialEq, Eq)]
pub struct ClaimFunds {
    pub preimage: [u8; 32],
}

/// An invoice whose payment is asked for.
#[derive(Debug, PartialEq, Eq)]
pub struct InvoiceQuery {
    pub invoice: InvoiceData,
}

/// Whether data is what an invoice says.
pub open spec fn describes(data: InvoiceData, text: Chars) -> bool {
    &&& data.text@ == text
    &&& invoice(text) matches Ok(said) && {
        &&& data.amount_msat == said.0
        &&& data.payment_hash@ == said.1
        &&& data.payment_secret@ == said.2
        &&& data.payee@ == said.3
    }
}

/// Whether a text reads as the given data, or is no invoice for the given reason.
pub open spec fn reads(text: Chars, said: Result<InvoiceData, Chars>) -> bool {
    match said {
        Ok(data) => describes(data, text),
        Err(reason) => invoice(text) == Err::<
            (Option<u64>, Seq<u8>, Seq<u8>, Seq<u8>),
            Chars,
        >(reason),
    }
}

/// Whether the invoice that a text denotes can be read.
pub fn is_readable(text: &str) -> (r: bool)
    ensures
        r == invoice_can_be_read(text@),
{
    readable(
        raw_invoice_amount(text),
        check_invoice_fields(text),
        check_invoice_signature(text),
    )
}

/// Whether an invoice can be read, by its amount and by what fails of it.
pub fn readable(
    raw: Option<(Option<u64>, Option<u64>)>,
    fields_fail: bool,
    signature_fails: bool,
) -> (r: bool)
    ensures
        r == can_be_read(raw, fields_fail, signature_fails),
{
    fields_fail || signature_fails || counts(raw)
}

/// Whether an amount with its unit can be counted.
pub fn counts(raw: Option<(Option<u64>, Option<u64>)>) -> (r: bool)
    ensures
        r == amount_fits(raw),
{
    match raw {
        Some((Some(amount), unit)) => {
            let unit: u64 = match unit {
                Some(u) => u,
                None => PICO,
            };
            assert(amount * unit <= u64::MAX * u64::MAX) by (nonlinear_arith);
            let product: u128 = amount as u128 * unit as u128;
            product <= u64::MAX as u128
        },
        _ => true,
    }
}

/// Reads an invoice, unless all is well with it but that its amount cannot be
/// counted.
pub fn read_if_readable(text: &str) -> (r: Option<Result<InvoiceData, String>>)
    ensures
        r is Some <==> invoice_can_be_read(text@),
        r matches Some(read) ==> reads(text@, with_chars(read)),
{
    if is_readable(text) {
        Some(read_invoice(text))
    } else {
        None
    }
}

/// The currency of a network.
pub open spec fn currency(network: Network) -> Currency {
    match network {
        Network::Bitcoin => Currency::Bitcoin,
        Network::Testnet => Currency::BitcoinTestnet,
        Network::Regtest => Currency::Regtest,
        Network::Signet => Currency::Signet,
    }
}

/// The currency of a network.
pub fn currency_of(network: Network) -> (r: Currency)
    ensures
        r == currency(network),
{
    match network {
        Network::Bitcoin => Currency::Bitcoin,
        Network::Testnet => Currency::BitcoinTestnet,
        Network::Regtest => Currency::Regtest,
        Network::Signet => Currency::Signet,
    }
}

/// What is wrong with the words that an invoice is asked for with, if anything
/// is; the first fault counts. `id` is what the contract id denotes.
pub open spec fn invoice_fault(
    amt: Chars,
    expiry: Chars,
    contract: Chars,
    id: Option<Seq<u8>>,
    amt_rgb: Chars,
) -> Option<Chars> {
    let msat = number(amt, u64::MAX as nat);
    if msat is Err {
        Some("ERROR: getinvoice provided payment amount was not a number"@)
    } else if msat->Ok_0 < INVOICE_MIN_MSAT {
        Some("ERROR: amt_msat cannot be less than "@ + decimal(INVOICE_MIN_MSAT as nat))
    } else if number(expiry, u32::MAX as nat) is Err {
        Some("ERROR: getinvoice provided expiry was not a number"@)
    } else if id is None {
        Some("ERROR: invalid contract ID: "@ + contract)
    } else {
        match number(amt_rgb, u64::MAX as nat) {
            Ok(_) => None,
            Err(f) => Some("ERROR: couldn't parse amt_rgb: "@ + fault_text(f)),
        }
    }
}

/// Whether an invoice is the one that some words ask for.
pub open spec fn asked_for(
    i: NewInvoice,
    amt: Chars,
    expiry: Chars,
    id: Option<Seq<u8>>,
    amt_rgb: Chars,
    network: Network,
) -> bool {
    &&& i.amt_msat == number(amt, u64::MAX as nat)->Ok_0
    &&& i.currency == currency(network)
    &&& i.description@ == INVOICE_DESCRIPTION@
    &&& i.expiry_secs == number(expiry, u32::MAX as nat)->Ok_0
    &&& id == Some(i.contract_id@)
    &&& i.amt_rgb == number(amt_rgb, u64::MAX as nat)->Ok_0
}

/// Reads the words that an invoice is asked for with.
pub fn read_new_invoice(
    amt: &str,
    expiry: &str,
    contract: &str,
    id: Option<[u8; 32]>,
    amt_rgb: &str,
    network: Network,
) -> (r: Result<NewInvoice, String>)
    ensures
        match (r, invoice_fault(amt@, expiry@, contract@, maybe32(id), amt_rgb@)) {
            (Ok(i), None) => asked_for(i, amt@, expiry@, maybe32(id), amt_rgb@, network),
            (Err(e), Some(fault)) => e@ == fault,
            _ => false,
        },
{
    let amt_msat: u64 = match parse_number(amt, u64::MAX) {
        Ok(n) => n,
        Err(_) => {
            return Err("ERROR: getinvoice provided payment amount was not a number".to_string());
        },
    };
    if amt_msat < INVOICE_MIN_MSAT {
        return Err(
            join2("ERROR: amt_msat cannot be less than ", &decimal_text(INVOICE_MIN_MSAT)),
        );
    }
    let expiry_secs: u32 = match parse_number(expiry, u32::MAX as u64) {
        Ok(n) => n as u32,
        Err(_) => {
            return Err("ERROR: getinvoice provided expiry was not a number".to_string());
        },
    };
    let contract_id = match id {
        Some(id) => id,
        None => {
            return Err(join2("ERROR: invalid contract ID: ", contract));
        },
    };
    match parse_number(amt_rgb, u64::MAX) {
        Ok(amt_rgb) => Ok(
            NewInvoice {
                amt_msat,
                currency: currency_of(network),
                description: INVOICE_DESCRIPTION.to_string(),
                expiry_secs,
                contract_id,
                amt_rgb,
            },
        ),
        Err(f) => Err(join2("ERROR: couldn't parse amt_rgb: ", &f.text())),
    }
}

/// `getinvoice <amt_msats> <expiry_secs> <rgb_contract_id> <amt_rgb>`, where `id`
/// is what the contract id denotes.
pub open spec fn get_invoice_step(
    w: Seq<Chars>,
    id: Option<Seq<u8>>,
    network: Network,
    step: Step,
) -> bool {
    if w.len() < 5 {
        step.answers(
            "ERROR: getinvoice has 4 required arguments: `getinvoice <amt_msats> <expiry_secs> <rgb_contract_id> <amt_rgb>`"@,
        )
    } else {
        match invoice_fault(w[1], w[2], w[3], id, w[4]) {
            Some(fault) => step.answers(fault),
            None => step matches Step::CreateInvoice(i) && asked_for(
                i,
                w[1],
                w[2],
                id,
                w[4],
                network,
            ),
        }
    }
}

/// Begins to create an invoice.
pub fn get_invoice(words: &Vec<String>, network: Network) -> (step: Step)
    ensures
        get_invoice_step(words.deep_view(), contract_id(words.deep_view()[3]), network, step),
{
    let id: Option<[u8; 32]> = if words.len() > 3 {
        parse_contract_id(&words[3])
    } else {
        None
    };
    get_invoice_for(words, id, network)
}

/// Begins to create an invoice for the asset that the words denote.
pub fn get_invoice_for(
    words: &Vec<String>,
    id: Option<[u8; 32]>,
    network: Network,
) -> (step: Step)
    ensures
        get_invoice_step(words.deep_view(), maybe32(id), network, step),
{
    if words.len() < 5 {
        return answer(
            "ERROR: getinvoice has 4 required arguments: `getinvoice <amt_msats> <expiry_secs> <rgb_contract_id> <amt_rgb>`",
        );
    }
    match read_new_invoice(&words[1], &words[2], &words[3], id, &words[4], network) {
        Ok(i) => Step::CreateInvoice(i),
        Err(fault) => answer(&fault),
    }
}

/// The array that a hexadecimal text denotes, where it has the right length.
pub open spec fn hash_text(text: Chars) -> Option<Seq<u8>> {
    match strict_unhex(text) {
        Some(bytes) => if bytes.len() == 32 {
            Some(bytes)
        } else {
            None
        },
        None => None,
    }
}

/// `gethodlinvoice <amt_msats> <expiry_secs> <rgb_contract_id> <amt_rgb>
/// <payment_hash>`, where `id` is what the contract id denotes.
pub open spec fn get_hodl_invoice_step(
    w: Seq<Chars>,
    id: Option<Seq<u8>>,
    network: Network,
    step: Step,
) -> bool {
    if w.len() < 6 {
        step.answers(
            "ERROR: getinvoice has 5 required arguments: `gethodlinvoice <amt_msats> <expiry_secs> <rgb_contract_id> <amt_rgb> <payment_hash>`"@,
        )
    } else {
        match invoice_fault(w[1], w[2], w[3], id, w[4]) {
            Some(fault) => step.answers(fault),
            None => match hash_text(w[5]) {
                Some(hash) => step matches Step::CreateHodlInvoice(i) && asked_for(
                    i.invoice,
                    w[1],
                    w[2],
                    id,
                    w[4],
                    network,
                ) && i.payment_hash@ == hash,
                None => step.aborts("payment hash string slice has incorrect length"@),
            },
        }
    }
}

/// Begins to create an invoice for a payment hash that is given.
pub fn get_hodl_invoice(words: &Vec<String>, network: Network) -> (step: Step)
    ensures
        get_hodl_invoice_step(words.deep_view(), contract_id(words.deep_view()[3]), network, step),
{
    let id: Option<[u8; 32]> = if words.len() > 3 {
        parse_contract_id(&words[3])
    } else {
        None
    };
    get_hodl_invoice_for(words, id, network)
}

/// Begins to create an invoice for the asset that the words denote and a payment
/// hash that is given.
pub fn get_hodl_invoice_for(
    words: &Vec<String>,
    id: Option<[u8; 32]>,
    network: Network,
) -> (step: Step)
    ensures
        get_hodl_invoice_step(words.deep_view(), maybe32(id), network, step),
{
    if words.len() < 6 {
        return answer(
            "ERROR: getinvoice has 5 required arguments: `gethodlinvoice <amt_msats> <expiry_secs> <rgb_contract_id> <amt_rgb> <payment_hash>`",
        );
    }
    let invoice = match read_new_invoice(&words[1], &words[2], &words[3], id, &words[4], network) {
        Ok(i) => i,
        Err(fault) => {
            return answer(&fault);
        },
    };
    match read_hash(&words[5]) {
        Some(payment_hash) => Step::CreateHodlInvoice(NewHodlInvoice { invoice, payment_hash }),
        None => abort("payment hash string slice has incorrect length"),
    }
}

fn read_hash(text: &str) -> (r: Option<[u8; 32]>)
    ensures
        match r {
            Some(hash) => hash_text(text@) == Some(hash@),
            None => hash_text(text@) is None,
        },
{
    match hex_decode(text) {
        Some(bytes) => bytes32(&bytes),
        None => None,
    }
}

/// How an invoice is handed out.
pub open spec fn invoice_json(text: Chars) -> Chars {
    "{\"invoice_string\":"@ + json_string(text) + "}"@
}

/// The invoice that is handed out in a text, if one is.
pub open spec fn invoice_in_json(json: Chars) -> Option<Chars> {
    let before = "{\"invoice_string\":"@;
    let after = "}"@;
    let end = json.len() - after.len();
    if before.len() <= end && json.take(before.len() as int) == before && json.skip(end) == after {
        read_json_string(json.subrange(before.len() as int, end))
    } else {
        None
    }
}

/// What is known of the payment of a new invoice.
pub open spec fn awaited(invoice: CreatedInvoice, amt_msat: u64) -> PaymentInfo {
    PaymentInfo {
        preimage: None,
        secret: Some(invoice.payment_secret),
        status: HTLCStatus::Pending,
        amt_msat: MillisatAmount(Some(amt_msat)),
    }
}

/// What is replied once an invoice is created, or could not be.
pub open spec fn invoice_created_step(invoice: Result<CreatedInvoice, Chars>, step: Step) -> bool {
    match invoice {
        Ok(i) => step.replies(invoice_json(i.text@) + "\n"@, invoice_json(i.text@)),
        Err(e) => step.replies(
            "ERROR: failed to create invoice: "@ + e + "\n"@,
            "ERROR: failed to create invoice: "@ + e,
        ),
    }
}

/// The payments that are awaited once an invoice is created, or could not be.
pub open spec fn awaiting(
    inbound: Seq<PaymentEntry>,
    invoice: Result<CreatedInvoice, Chars>,
    amt_msat: u64,
) -> Seq<PaymentEntry> {
    match invoice {
        Ok(i) => recorded(inbound, i.payment_hash, awaited(i, amt_msat)),
        Err(_) => inbound,
    }
}

/// The payments that are awaited once the invoice that was asked for is created, or
/// could not be.
pub open spec fn awaiting_payment(
    inbound: Seq<PaymentEntry>,
    invoice: Result<CreatedInvoice, Chars>,
    new: NewInvoice,
) -> Seq<PaymentEntry> {
    awaiting(inbound, invoice, new.amt_msat)
}

impl NewInvoice {
    /// Goes on once the invoice is created, or could not be. Its payment is
    /// awaited from then on.
    pub fn created(
        self,
        invoice: Result<CreatedInvoice, String>,
        payments: &mut PaymentInfoStorage,
    ) -> (step: Step)
        ensures
            invoice_created_step(with_chars(invoice), step),
            final(payments)@ == awaiting_payment(old(payments)@, with_chars(invoice), self),
    {
        match invoice {
            Ok(i) => {
                payments.insert(
                    i.payment_hash,
                    PaymentInfo {
                        preimage: None,
                        secret: Some(i.payment_secret),
                        status: HTLCStatus::Pending,
                        amt_msat: MillisatAmount(Some(self.amt_msat)),
                    },
                );
                announce(&join3("{\"invoice_string\":", &json_text(&i.text), "}"))
            },
            Err(e) => announce(&join2("ERROR: failed to create invoice: ", &e)),
        }
    }
}

impl NewHodlInvoice {
    /// Goes on once the invoice is created, or could not be.
    pub fn created(
        self,
        invoice: Result<CreatedInvoice, String>,
        payments: &mut PaymentInfoStorage,
    ) -> (step: Step)
        ensures
            invoice_created_step(with_chars(invoice), step),
            final(payments)@ == awaiting_payment(old(payments)@, with_chars(invoice), self.invoice),
    {
        self.invoice.created(invoice, payments)
    }
}

/// `settlehodlinvoice <preimage>`
pub open spec fn settle_hodl_invoice_step(w: Seq<Chars>, step: Step) -> bool {
    if w.len() < 2 {
        step.answers(
            "ERROR: getinvoice has 1 required arguments: `settlehodlinvoice <preimage>`"@,
        )
    } else {
        match hash_text(w[1]) {
            Some(preimage) => step matches Step::ClaimFunds(c) && c.preimage@ == preimage,
            None => step.aborts("preimage string slice has incorrect length"@),
        }
    }
}

/// Begins to settle an invoice whose payment is held.
pub fn settle_hodl_invoice(words: &Vec<String>) -> (step: Step)
    ensures
        settle_hodl_invoice_step(words.deep_view(), step),
{
    if words.len() < 2 {
        return answer(
            "ERROR: getinvoice has 1 required arguments: `settlehodlinvoice <preimage>`",
        );
    }
    match read_hash(&words[1]) {
        Some(preimage) => Step::ClaimFunds(ClaimFunds { preimage }),
        None => abort("preimage string slice has incorrect length"),
    }
}

/// What is replied once a payment is claimed.
pub open spec fn claimed_step(step: Step) -> bool {
    step.answers("Payment claim seems to have succeeded! The invoice should be settled"@)
}

impl ClaimFunds {
    /// Goes on once the payment is claimed.
    pub fn claimed(self) -> (step: Step)
        ensures
            claimed_step(step),
    {
        answer("Payment claim seems to have succeeded! The invoice should be settled")
    }
}

/// Numbers behind one another, with commas between.
pub open spec fn number_list(bytes: Seq<u8>) -> Chars
    decreases bytes.len(),
{
    if bytes.len() == 0 {
        seq![]
    } else if bytes.len() == 1 {
        decimal(bytes[0] as nat)
    } else {
        number_list(bytes.drop_last()) + ", "@ + decimal(bytes.last() as nat)
    }
}

/// A secret and its hash, three times over: as arrays, and each in hexadecimal.
pub open spec fn test_preimage_chars(preimage: Seq<u8>, hash: Seq<u8>) -> Chars {
    "This is a preimage / payment hash pair for testing: \n"@
        + "TestPreimageData { payment_preimage: PaymentPreimage(["@ + number_list(preimage)
        + "]), payment_hash: PaymentHash(["@ + number_list(hash) + "]) }"@ + " \nPreimage: "@ + hex(
        preimage,
    ) + " \nPayment hash: "@ + hex(hash)
}

fn number_list_text(bytes: &[u8; 32]) -> (r: String)
    ensures
        r@ == number_list(bytes@),
{
    let mut s = decimal_text(bytes[0] as u64);
    let mut i: usize = 1;
    assert(bytes@.take(1)[0] == bytes@[0]);
    while i < 32
        invariant
            1 <= i <= 32,
            s@ == number_list(bytes@.take(i as int)),
        decreases 32 - i,
    {
        s.append(", ");
        s.append(&decimal_text(bytes[i] as u64));
        assert(bytes@.take(i + 1).drop_last() == bytes@.take(i as int));
        i += 1;
    }
    assert(bytes@.take(32) == bytes@);
    s
}

/// Shows a secret and its hash.
pub fn test_preimage(preimage: &[u8; 32]) -> (step: Step)
    ensures
        step.answers(test_preimage_chars(preimage@, sha256(preimage@))),
{
    show_preimage(preimage, &sha256_digest(preimage.as_slice()))
}

/// Shows a secret and a hash.
pub fn show_preimage(preimage: &[u8; 32], hash: &[u8; 32]) -> (step: Step)
    ensures
        step.answers(test_preimage_chars(preimage@, hash@)),
{
    let mut s = "This is a preimage / payment hash pair for testing: \n".to_string();
    s.append("TestPreimageData { payment_preimage: PaymentPreimage([");
    s.append(&number_list_text(preimage));
    s.append("]), payment_hash: PaymentHash([");
    s.append(&number_list_text(hash));
    s.append("]) }");
    s.append(" \nPreimage: ");
    s.append(&hex_encode(preimage.as_slice()));
    s.append(" \nPayment hash: ");
    s.append(&hex_encode(hash.as_slice()));
    answer(&s)
}

/// Whether a secret of the right length and its hash are shown.
pub open spec fn shows_test_preimage(step: Step) -> bool {
    exists|preimage: Seq<u8>|
        preimage.len() == 32 && #[trigger] step.answers(
            test_preimage_chars(preimage, sha256(preimage)),
        )
}

/// Draws a secret and shows it with its hash.
pub fn generate_test_preimage() -> (step: Step)
    ensures
        shows_test_preimage(step),
{
    let preimage = random_bytes();
    let step = test_preimage(&preimage);
    assert(preimage@.len() == 32 && step.answers(
        test_preimage_chars(preimage@, sha256(preimage@)),
    ));
    step
}

/// What becomes of an invoice whose payment is asked for, by what it says.
pub open spec fn query_step(said: Result<InvoiceData, Chars>, step: Step) -> bool {
    match said {
        Ok(invoice) => step == Step::InvoiceStatus(InvoiceQuery { invoice }),
        Err(reason) => step.answers("ERROR: invalid invoice: "@ + reason),
    }
}

/// `invoicestatus <invoice>`
pub open spec fn invoice_status_step(w: Seq<Chars>, step: Step) -> bool {
    if w.len() < 2 {
        step.answers("ERROR: invoicestatus requires an invoice: `invoicestatus <invoice>`"@)
    } else if !invoice_can_be_read(w[1]) {
        step.aborts("attempt to multiply with overflow"@)
    } else {
        exists|said: Result<InvoiceData, Chars>|
            reads(w[1], said) && #[trigger] query_step(said, step)
    }
}

/// Begins to ask for the payment of an invoice.
pub fn ask_invoice_status(words: &Vec<String>) -> (step: Step)
    ensures
        invoice_status_step(words.deep_view(), step),
{
    if words.len() < 2 {
        return answer("ERROR: invoicestatus requires an invoice: `invoicestatus <invoice>`");
    }
    match read_if_readable(&words[1]) {
        Some(read) => {
            let step = query(read);
            assert(reads(words.deep_view()[1], with_chars(read)) && query_step(
                with_chars(read),
                step,
            ));
            step
        },
        None => abort("attempt to multiply with overflow"),
    }
}

/// Goes on to ask for the payment of an invoice once it is read, or it is known
/// why it is none.
pub fn query(read: Result<InvoiceData, String>) -> (step: Step)
    ensures
        query_step(with_chars(read), step),
{
    match read {
        Ok(invoice) => Step::InvoiceStatus(InvoiceQuery { invoice }),
        Err(e) => answer(&join2("ERROR: invalid invoice: ", &e)),
    }
}

/// What is replied on the payment of an invoice. Whether the invoice is expired is a
/// matter of the time of the call.
pub open spec fn looked_up_step(
    q: InvoiceQuery,
    inbound: Seq<PaymentEntry>,
    step: Step,
) -> bool {
    if invoice_can_be_read(q.invoice.text@) {
        exists|expired: bool| #[trigger]
            step.answers(invoice_status_chars(inbound, q.invoice.payment_hash, expired))
    } else {
        step.aborts("attempt to multiply with overflow"@)
    }
}

impl InvoiceQuery {
    /// Goes on with the payments that are awaited or came.
    pub fn looked_up(self, inbound: &PaymentInfoStorage) -> (step: Step)
        ensures
            looked_up_step(self, inbound@, step),
    {
        if !is_readable(&self.invoice.text) {
            return abort("attempt to multiply with overflow");
        }
        let expired: bool = invoice_is_expired(&self.invoice.text);
        let step = answer(&invoice_status(inbound, &self.invoice.payment_hash, expired));
        assert(step.answers(invoice_status_chars(inbound@, self.invoice.payment_hash, expired)));
        step
    }
}

/// A secret shown for testing settles the invoices that its hash was given for:
/// both are taken as they are shown.
pub proof fn law_test_preimage_is_taken(preimage: Seq<u8>, hash: Seq<u8>)
    requires
        preimage.len() == 32,
        hash.len() == 32,
    ensures
        hash_text(hex(preimage)) == Some(preimage),
        hash_text(hex(hash)) == Some(hash),
{
    crate::hex_utils::law_hex_reads_back(preimage);
    crate::hex_utils::law_hex_reads_back(hash);
}

/// No invoice below the least amount is created.
pub proof fn law_invoices_reach_the_minimum(
    w: Seq<Chars>,
    id: Option<Seq<u8>>,
    network: Network,
    step: Step,
)
    requires
        get_invoice_step(w, id, network, step) || get_hodl_invoice_step(w, id, network, step),
    ensures
        step matches Step::CreateInvoice(i) ==> i.amt_msat >= INVOICE_MIN_MSAT,
        step matches Step::CreateHodlInvoice(i) ==> i.invoice.amt_msat >= INVOICE_MIN_MSAT,
{
}

/// The payment of a new invoice is pending until it comes or the invoice is
/// expired.
pub proof fn law_new_invoice_is_pending(
    inbound: Seq<PaymentEntry>,
    invoice: CreatedInvoice,
    amt_msat: u64,
    expired: bool,
)
    ensures
        invoice_status_chars(
            recorded(inbound, invoice.payment_hash, awaited(invoice, amt_msat)),
            invoice.payment_hash,
            expired,
        ) == "status: "@ + if expired {
            "expired"@
        } else {
            "pending"@
        },
{
    crate::payments::law_recorded_is_read_back(
        inbound,
        invoice.payment_hash,
        awaited(invoice, amt_msat),
        invoice.payment_hash,
    );
}

/// An invoice that is handed out is read back as it is.
pub proof fn law_invoice_is_handed_out(text: Chars)
    ensures
        invoice_in_json(invoice_json(text)) == Some(text),
{
    let before = "{\"invoice_string\":"@;
    let after = "}"@;
    let json = invoice_json(text);
    let end = json.len() - after.len();
    assert(json.take(before.len() as int) == before);
    assert(json.skip(end) == after);
    assert(json.subrange(before.len() as int, end) == json_string(text));
    crate::json::law_json_reads_back(text);
}

/// Whoever reads an invoice out of what was handed out finds a payment hash under
/// which a payment is awaited.
pub proof fn law_handed_out_invoice_is_awaited(
    inbound: Seq<PaymentEntry>,
    created: CreatedInvoice,
    amt_msat: u64,
    data: InvoiceData,
)
    requires
        describes(data, created.text@),
        data.payment_hash == created.payment_hash,
    ensures
        invoice_in_json(invoice_json(created.text@)) matches Some(text) && describes(data, text),
        ({
            let after = recorded(inbound, created.payment_hash, awaited(created, amt_msat));
            lookup(after, data.payment_hash) matches Some(info) && info.status
                == HTLCStatus::Pending
        }),
{
    law_invoice_is_handed_out(created.text@);
    crate::payments::law_recorded_is_read_back(
        inbound,
        created.payment_hash,
        awaited(created, amt_msat),
        created.payment_hash,
    );
}

/// Whether some words name an invoice: an amount that is large enough, an expiry, an
/// asset and an amount of it.
pub open spec fn names_an_invoice(w: Seq<Chars>) -> bool {
    &&& w.len() >= 5
    &&& number(w[1], u64::MAX as nat) matches Ok(n) && n >= 3000000
    &&& number(w[2], u32::MAX as nat) is Ok
    &&& contract_id(w[3]) is Some
    &&& number(w[4], u64::MAX as nat) is Ok
}

/// Whether an invoice to be created is the one that some words name, in the currency of
/// the network.
pub open spec fn is_named(i: NewInvoice, w: Seq<Chars>, network: Network) -> bool {
    &&& number(w[1], u64::MAX as nat) matches Ok(n) && n == i.amt_msat
    &&& number(w[2], u32::MAX as nat) matches Ok(n) && n == i.expiry_secs
    &&& contract_id(w[3]) == Some(i.contract_id@)
    &&& number(w[4], u64::MAX as nat) matches Ok(n) && n == i.amt_rgb
    &&& i.description@ == "ldk-tutorial-node"@
    &&& network == Network::Bitcoin <==> i.currency == Currency::Bitcoin
    &&& network == Network::Testnet <==> i.currency == Currency::BitcoinTestnet
    &&& network == Network::Regtest <==> i.currency == Currency::Regtest
    &&& network == Network::Signet <==> i.currency == Currency::Signet
}

/// A line with `getinvoice` has an invoice created if and only if it names one, and then
/// the one that it names.
pub proof fn law_invoices_are_created_as_named(
    line: Chars,
    w: Seq<Chars>,
    settings: Settings,
    asked: Step,
)
    requires
        words(line) == w,
        w.len() > 0,
        w[0] == "getinvoice"@,
        request_step(line, settings, asked),
    ensures
        asked is CreateInvoice <==> names_an_invoice(w),
        asked !is CreateInvoice ==> asked is Reply,
        asked matches Step::CreateInvoice(i) ==> is_named(i, w, settings.network),
{
    law_words_stand_for_commands(w[0]);
}

/// A line with `gethodlinvoice` has an invoice created if and only if it names one and a
/// payment hash, and then the one that it names for that hash.
pub proof fn law_hodl_invoices_are_created_as_named(
    line: Chars,
    w: Seq<Chars>,
    settings: Settings,
    asked: Step,
)
    requires
        words(line) == w,
        w.len() > 0,
        w[0] == "gethodlinvoice"@,
        request_step(line, settings, asked),
    ensures
        asked is CreateHodlInvoice <==> names_an_invoice(w) && w.len() >= 6 && strict_unhex(
            w[5],
        ) is Some && (strict_unhex(w[5])->0).len() == 32,
        asked !is CreateHodlInvoice ==> asked is Reply || asked is Abort,
        asked is Abort ==> names_an_invoice(w) && w.len() >= 6,
        asked matches Step::CreateHodlInvoice(i) ==> is_named(i.invoice, w, settings.network)
            && strict_unhex(w[5]) == Some(i.payment_hash@),
{
    law_words_stand_for_commands(w[0]);
}

/// Whatever amounts and expiry are written in a line with `getinvoice` or
/// `gethodlinvoice`, these are the amounts and the expiry of the invoice, as long as the
/// first amount is large enough; and the hash of the second is the one that is written.
pub proof fn law_invoice_amounts_are_kept(
    line: Chars,
    w: Seq<Chars>,
    settings: Settings,
    amt_msat: u64,
    expiry_secs: u32,
    amt_rgb: u64,
    hash: Seq<u8>,
    asked: Step,
)
    requires
        words(line) == w,
        w.len() >= 6,
        w[0] == "getinvoice"@ || w[0] == "gethodlinvoice"@,
        w[1] == decimal(amt_msat as nat),
        amt_msat >= 3000000,
        w[2] == decimal(expiry_secs as nat),
        contract_id(w[3]) is Some,
        w[4] == decimal(amt_rgb as nat),
        hash.len() == 32,
        w[5] == hex(hash),
        request_step(line, settings, asked),
    ensures
        w[0] == "getinvoice"@ ==> (asked matches Step::CreateInvoice(i) && i.amt_msat == amt_msat
            && i.expiry_secs == expiry_secs && i.amt_rgb == amt_rgb),
        w[0] == "gethodlinvoice"@ ==> (asked matches Step::CreateHodlInvoice(i)
            && i.invoice.amt_msat == amt_msat && i.invoice.expiry_secs == expiry_secs
            && i.invoice.amt_rgb == amt_rgb && i.payment_hash@ == hash),
{
    crate::number::law_decimal_reads_back(amt_msat as nat, u64::MAX as nat);
    crate::number::law_decimal_reads_back(expiry_secs as nat, u32::MAX as nat);
    crate::number::law_decimal_reads_back(amt_rgb as nat, u64::MAX as nat);
    crate::hex_utils::law_hex_reads_back(hash);
    law_words_stand_for_commands(w[0]);
    if w[0] == "getinvoice"@ {
        law_invoices_are_created_as_named(line, w, settings, asked);
    }
    if w[0] == "gethodlinvoice"@ {
        law_hodl_invoices_are_created_as_named(line, w, settings, asked);
    }
}

/// The payment of an invoice that was created is awaited under the hash of the invoice,
/// with its secret and over the amount that was asked for, and no other payment changes.
/// Of an invoice that could not be created none is awaited.
pub proof fn law_created_invoices_are_awaited(
    new: NewInvoice,
    inbound: Seq<PaymentEntry>,
    invoice: Result<CreatedInvoice, Chars>,
    shown: Step,
    other: [u8; 32],
)
    requires
        invoice_created_step(invoice, shown),
    ensures
        ({
            let after = awaiting_payment(inbound, invoice, new);
            match invoice {
                Ok(i) => {
                    &&& lookup(after, i.payment_hash) matches Some(info) && {
                        &&& info.amt_msat.0 == Some(new.amt_msat)
                        &&& info.secret == Some(i.payment_secret)
                        &&& info.preimage is None
                        &&& info.status == HTLCStatus::Pending
                    }
                    &&& other != i.payment_hash ==> lookup(after, other) == lookup(inbound, other)
                },
                Err(_) => after == inbound,
            }
        }),
        shown is Reply,
        match invoice {
            Ok(i) => invoice_in_json((shown->Reply_0).response@) == Some(i.text@),
            Err(e) => (shown->Reply_0).response@ == "ERROR: failed to create invoice: "@ + e,
        },
        (shown->Reply_0).printed@ == (shown->Reply_0).response@ + "\n"@,
{
    if let Ok(i) = invoice {
        law_invoice_is_handed_out(i.text@);
        crate::payments::law_recorded_is_read_back(
            inbound,
            i.payment_hash,
            awaited(i, new.amt_msat),
            other,
        );
    }
}

/// A line with `settlehodlinvoice` has a payment claimed if and only if it names a secret
/// in hexadecimal, and then with that secret.
pub proof fn law_held_payments_are_claimed(
    line: Chars,
    w: Seq<Chars>,
    settings: Settings,
    asked: Step,
)
    requires
        words(line) == w,
        w.len() > 0,
        w[0] == "settlehodlinvoice"@,
        request_step(line, settings, asked),
    ensures
        asked is ClaimFunds <==> w.len() >= 2 && strict_unhex(w[1]) is Some && (strict_unhex(
            w[1],
        )->0).len() == 32,
        asked !is ClaimFunds ==> if w.len() < 2 {
            asked is Reply
        } else {
            asked is Abort
        },
        asked matches Step::ClaimFunds(c) ==> strict_unhex(w[1]) == Some(c.preimage@),
{
    law_words_stand_for_commands(w[0]);
}

/// A secret that is shown for testing is shown with its hash, both in hexadecimal: the
/// first settles what is paid to an invoice for the second.
pub proof fn law_a_test_preimage_is_shown(
    line: Chars,
    w: Seq<Chars>,
    settings: Settings,
    shown: Step,
)
    requires
        words(line) == w,
        w.len() > 0,
        w[0] == "generatetestpreimage"@,
        request_step(line, settings, shown),
    ensures
        shown is Reply,
        exists|preimage: Seq<u8>|
            preimage.len() == 32 && stands_in(
                "\nPreimage: "@ + #[trigger] hex(preimage) + " \n"@,
                (shown->Reply_0).response@,
            ) && stands_in("\nPayment hash: "@ + hex(sha256(preimage)), (shown->Reply_0).response@),
{
    law_words_stand_for_commands(w[0]);
    let preimage = choose|preimage: Seq<u8>|
        preimage.len() == 32 && #[trigger] shown.answers(
            test_preimage_chars(preimage, sha256(preimage)),
        );
    let hash = sha256(preimage);
    let text = test_preimage_chars(preimage, hash);
    let before = "This is a preimage / payment hash pair for testing: \n"@
        + "TestPreimageData { payment_preimage: PaymentPreimage(["@ + number_list(preimage)
        + "]), payment_hash: PaymentHash(["@ + number_list(hash) + "]) }"@;
    reveal_strlit(" \nPreimage: ");
    reveal_strlit("\nPreimage: ");
    reveal_strlit(" \nPayment hash: ");
    reveal_strlit("\nPayment hash: ");
    reveal_strlit(" \n");
    assert(" \nPreimage: "@ == seq![' '] + "\nPreimage: "@);
    assert(" \nPayment hash: "@ == " \n"@ + "\nPayment hash: "@.skip(1));
    assert(" \nPayment hash: "@ == seq![' '] + "\nPayment hash: "@);
    let first = "\nPreimage: "@ + hex(preimage) + " \n"@;
    let second = "\nPayment hash: "@ + hex(hash);
    assert(text == (before + seq![' ']) + first + ("\nPayment hash: "@.skip(1) + hex(hash)));
    assert(text == (before + " \nPreimage: "@ + hex(preimage) + seq![' ']) + second
        + Seq::<char>::empty());
}

/// A line with `invoicestatus` tells of the invoice that it names how far its payment has
/// come: a payment that came or failed is told whatever the time, one that is pending is
/// told as expired once the invoice is, and one that is not awaited is not known.
pub proof fn law_status_is_that_of_the_payment(
    line: Chars,
    w: Seq<Chars>,
    settings: Settings,
    inbound: Seq<PaymentEntry>,
    hash: [u8; 32],
    asked: Step,
    shown: Step,
)
    requires
        words(line) == w,
        w.len() >= 2,
        w[0] == "invoicestatus"@,
        invoice_can_be_read(w[1]),
        invoice(w[1]) is Ok,
        (invoice(w[1])->Ok_0).1 == hash@,
        request_step(line, settings, asked),
        asked matches Step::InvoiceStatus(q) ==> looked_up_step(q, inbound, shown),
        asked !is InvoiceStatus ==> shown == asked,
    ensures
        asked is InvoiceStatus,
        match lookup(inbound, hash) {
            Some(info) => match info.status {
                HTLCStatus::Succeeded => shown.answers("status: succeeded"@),
                HTLCStatus::Failed => shown.answers("status: failed"@),
                HTLCStatus::Pending => shown.answers("status: pending"@) || shown.answers(
                    "status: expired"@,
                ),
            },
            None => shown.answers("ERROR: unknown invoice"@),
        },
{
    law_words_stand_for_commands(w[0]);
    let said = choose|said: Result<InvoiceData, Chars>|
        reads(w[1], said) && #[trigger] query_step(said, asked);
    assert(reads(w[1], said) && query_step(said, asked));
    assert((asked->InvoiceStatus_0).invoice.payment_hash =~= hash);
    reveal_strlit("status: ");
    reveal_strlit("succeeded");
    reveal_strlit("failed");
    reveal_strlit("pending");
    reveal_strlit("expired");
    reveal_strlit("status: succeeded");
    reveal_strlit("status: failed");
    reveal_strlit("status: pending");
    reveal_strlit("status: expired");
    assert("status: "@ + "succeeded"@ == "status: succeeded"@);
    assert("status: "@ + "failed"@ == "status: failed"@);
    assert("status: "@ + "pending"@ == "status: pending"@);
    assert("status: "@ + "expired"@ == "status: expired"@);
}

/// Of a pending payment it is told that it is expired if and only if its invoice is, and
/// of no other.
pub proof fn law_only_pending_payments_expire(
    inbound: Seq<PaymentEntry>,
    hash: [u8; 32],
    expired: bool,
)
    ensures
        invoice_status_chars(inbound, hash, expired) == "status: expired"@ <==> expired && (lookup(
            inbound,
            hash,
        ) matches Some(info) && info.status == HTLCStatus::Pending),
{
    reveal_strlit("status: ");
    reveal_strlit("succeeded");
    reveal_strlit("failed");
    reveal_strlit("pending");
    reveal_strlit("expired");
    reveal_strlit("status: expired");
    reveal_strlit("ERROR: unknown invoice");
    assert("status: "@ + "expired"@ == "status: expired"@);
    assert(("status: "@ + "succeeded"@)[8] == 's');
    assert(("status: "@ + "failed"@)[8] == 'f');
    assert(("status: "@ + "pending"@)[8] == 'p');
    assert("status: expired"@[8] == 'e');
    assert("ERROR: unknown invoice"@[0] == 'E');
    assert("status: expired"@[0] == 's');
}

/// An invoice that is refused is refused with its reason: an amount that is too small, or
/// the word that is no asset, or what is wrong with the amount of the asset.
pub proof fn law_refused_invoices_are_explained(
    line: Chars,
    w: Seq<Chars>,
    settings: Settings,
    step: Step,
)
    requires
        words(line) == w,
        w.len() >= 6,
        w[0] == "getinvoice"@ || w[0] == "gethodlinvoice"@,
        number(w[1], u64::MAX as nat) is Ok,
        number(w[2], u32::MAX as nat) is Ok,
        request_step(line, settings, step),
    ensures
        number(w[1], u64::MAX as nat)->Ok_0 < 3000000 ==> step.answers(
            "ERROR: amt_msat cannot be less than "@ + decimal(3000000),
        ),
        number(w[1], u64::MAX as nat)->Ok_0 >= 3000000 ==> match (
            contract_id(w[3]),
            number(w[4], u64::MAX as nat),
        ) {
            (None, _) => step.answers("ERROR: invalid contract ID: "@ + w[3]),
            (Some(_), Err(f)) => step.answers("ERROR: couldn't parse amt_rgb: "@ + fault_text(f)),
            _ => true,
        },
{
    law_words_stand_for_commands(w[0]);
}

/// An invoice is not read exactly where nothing else is wrong with it and its amount, in
/// the smallest unit, does not fit 64 bits; without a prefix its amount counts whole
/// bitcoins.
pub proof fn law_only_countable_amounts_are_read(amount: u64, unit: Option<u64>)
    ensures
        can_be_read(Some((Some(amount), unit)), false, false) <==> amount * match unit {
            Some(u) => u as int,
            None => 1000000000000,
        } < 0x1_0000_0000_0000_0000,
        can_be_read(Some((None, unit)), false, false),
        can_be_read(None, false, false),
        can_be_read(Some((Some(amount), unit)), true, false),
        can_be_read(Some((Some(amount), unit)), false, true),
{
}

/// The bytes of a secret are shown one behind the other as numbers, with commas between.
pub proof fn law_bytes_are_shown_in_turn(bytes: Seq<u8>, one: u8)
    ensures
        number_list(seq![one]) == decimal(one as nat),
        bytes.len() > 0 ==> number_list(bytes.push(one)) == number_list(bytes) + ", "@ + decimal(
            one as nat,
        ),
{
    assert(bytes.push(one).drop_last() == bytes);
}

} // verus!
