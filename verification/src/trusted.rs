//! Calls into other crates.
//!
//! Every function here makes one call, or a short chain of calls of which each
//! takes what the one before it gave, and carries arguments and result over to
//! plain values. What its contract says of the other crate is not
//! proved. Where the result takes more than a few lines to state, a name
//! stands for it: a function of the arguments of which nothing more is known.
use std::str::FromStr;

use amplify::Wrapper;
use vstd::prelude::*;

use crate::hex_utils::{hex, strict_unhex};
use crate::json::json_string;
use crate::text::Chars;
use crate::types::{
    outpoint_chars, maybe32, CloseMethod, ExplicitSeal, InvoiceData, OutPoint, RevealedSeal,
};

verus! {

// ---- RGB contract ids ----

/// The bytes of the contract id that a text denotes, if it denotes one.
pub uninterp spec fn contract_id(text: Seq<char>) -> Option<Seq<u8>>;

/// How the contract id with these bytes is written.
pub uninterp spec fn contract_id_chars(id: Seq<u8>) -> Seq<char>;

/// Calls `rgb::ContractId::from_str`, which reads the Bech32m notation of a
/// contract id. Claimed: the answer depends on the text alone.
#[verifier::external_body]
pub(crate) fn parse_contract_id(text: &str) -> (r: Option<[u8; 32]>)
    ensures
        match r {
            Some(id) => contract_id(text@) == Some(id@),
            None => contract_id(text@) is None,
        },
{
    match rgb::ContractId::from_str(text) {
        Ok(id) => Some(bitcoin::hashes::Hash::into_inner(id.into_inner())),
        Err(_) => None,
    }
}

/// Calls the `Display` of `rgb::ContractId`, the Bech32m notation. Claimed: the
/// text depends on the bytes alone, and `ContractId::from_str` reads it back
/// to the same bytes.
#[verifier::external_body]
pub(crate) fn contract_id_text(id: &[u8; 32]) -> (r: String)
    ensures
        r@ == contract_id_chars(id@),
        contract_id(r@) == Some(id@),
{
    rgb::ContractId::from_inner(bitcoin::hashes::Hash::from_inner(*id)).to_string()
}

// ---- Names of assets ----

/// Calls `stens::AsciiString::from_str`. Claimed: it takes exactly the texts
/// all of whose characters are ASCII, and keeps them as they are.
#[verifier::external_body]
pub(crate) fn parse_ascii(text: &str) -> (r: Option<String>)
    ensures
        r is Some <==> text.is_ascii(),
        r matches Some(s) ==> s@ == text@,
{
    match stens::AsciiString::from_str(text) {
        Ok(s) => Some(s.to_string()),
        Err(_) => None,
    }
}

// ---- Single-use seals ----

/// The bytes of the concealed seal that a text denotes, if it denotes one.
pub uninterp spec fn concealed_seal(text: Seq<char>) -> Option<Seq<u8>>;

/// How the concealed form of a seal is written. The seal is closed over the
/// first `OP_RETURN` output where `opret` holds, else over the first Taproot
/// output.
pub uninterp spec fn concealed_chars(
    opret: bool,
    txid: Option<Seq<u8>>,
    vout: u32,
    blinding: u64,
) -> Seq<char>;

/// Calls `ConcealedSeal::from_str` of `bp::seals::txout::blind`, which reads
/// the Bech32m notation of a concealed seal. Claimed: the answer depends on
/// the text alone.
#[verifier::external_body]
pub(crate) fn parse_concealed_seal(text: &str) -> (r: Option<[u8; 32]>)
    ensures
        match r {
            Some(seal) => concealed_seal(text@) == Some(seal@),
            None => concealed_seal(text@) is None,
        },
{
    match bp::seals::txout::blind::ConcealedSeal::from_str(text) {
        Ok(seal) => Some(bitcoin::hashes::Hash::into_inner(seal.into_inner())),
        Err(_) => None,
    }
}

/// Calls `RevealedSeal::new` of `bp::seals::txout::blind`. Claimed: the seal is on
/// the given output and closed in the given way. Its blinding factor comes from a
/// random number generator: nothing is claimed of it.
#[verifier::external_body]
pub(crate) fn new_seal(method: CloseMethod, outpoint: &OutPoint) -> (r: RevealedSeal)
    ensures
        r.method == method,
        r.txid == Some(outpoint.txid),
        r.vout == outpoint.vout,
{
    let o = bitcoin::OutPoint { txid: bitcoin::hashes::Hash::from_inner(outpoint.txid), vout: outpoint.vout };
    let close = match method {
        CloseMethod::OpretFirst => bp::seals::txout::CloseMethod::OpretFirst,
        CloseMethod::TapretFirst => bp::seals::txout::CloseMethod::TapretFirst,
    };
    let seal = bp::seals::txout::blind::RevealedSeal::new(close, o);
    RevealedSeal {
        method: match seal.method {
            bp::seals::txout::CloseMethod::TapretFirst => CloseMethod::TapretFirst,
            _ => CloseMethod::OpretFirst,
        },
        txid: seal.txid.map(bitcoin::hashes::Hash::into_inner),
        vout: seal.vout,
        blinding: seal.blinding,
    }
}

/// Calls `RevealedSeal::to_concealed_seal` of `bp::seals::txout::blind` and the
/// `Display` of what it returns. Claimed: the text depends on the seal alone,
/// and `ConcealedSeal::from_str` takes it.
#[verifier::external_body]
pub(crate) fn concealed_text(seal: &RevealedSeal) -> (r: String)
    ensures
        r@ == concealed_chars(
            seal.method == CloseMethod::OpretFirst,
            maybe32(seal.txid),
            seal.vout,
            seal.blinding,
        ),
        concealed_seal(r@) is Some,
{
    let revealed = bp::seals::txout::blind::RevealedSeal {
        method: match seal.method {
            CloseMethod::OpretFirst => bp::seals::txout::CloseMethod::OpretFirst,
            CloseMethod::TapretFirst => bp::seals::txout::CloseMethod::TapretFirst,
        },
        txid: seal.txid.map(bitcoin::hashes::Hash::from_inner),
        vout: seal.vout,
        blinding: seal.blinding,
    };
    revealed.to_concealed_seal().to_string()
}

/// The seal without a blinding factor that a text denotes, if it denotes one:
/// whether it is closed over the first `OP_RETURN` output, else over the first
/// Taproot output, and the output that it is on.
pub uninterp spec fn explicit_seal(text: Seq<char>) -> Option<(bool, Option<Seq<u8>>, u32)>;

/// Calls `ExplicitSeal::from_str` of `bp::seals::txout`. Claimed: the answer
/// depends on the text alone, and the notation of an output behind `opret1st:`
/// is read as the seal on that output that is closed over the first `OP_RETURN`
/// output.
#[verifier::external_body]
pub(crate) fn parse_explicit_seal(text: &str) -> (r: Option<ExplicitSeal>)
    ensures
        match r {
            Some(seal) => explicit_seal(text@) == Some(
                (seal.method == CloseMethod::OpretFirst, maybe32(seal.txid), seal.vout),
            ),
            None => explicit_seal(text@) is None,
        },
        forall|o: OutPoint|
            text@ == "opret1st:"@ + #[trigger] outpoint_chars(o) ==> r == Some(
                ExplicitSeal {
                    method: CloseMethod::OpretFirst,
                    txid: Some(o.txid),
                    vout: o.vout,
                },
            ),
{
    let seal = bp::seals::txout::ExplicitSeal::from_str(text).ok()?;
    let method = match seal.method {
        bp::seals::txout::CloseMethod::OpretFirst => CloseMethod::OpretFirst,
        bp::seals::txout::CloseMethod::TapretFirst => CloseMethod::TapretFirst,
        _ => return None,
    };
    Some(ExplicitSeal { method, txid: seal.txid.map(bitcoin::hashes::Hash::into_inner), vout: seal.vout })
}

// ---- Where consignments are exchanged ----

/// Calls `invoice::ConsignmentEndpoint::from_str` and tells its two kinds of
/// endpoint apart. Claimed: exactly the texts that begin with
/// `rgbhttpjsonrpc:` denote an endpoint of the kind spoken of here, and what
/// follows is its address.
#[verifier::external_body]
pub(crate) fn parse_consignment_endpoint(text: &str) -> (r: Option<String>)
    ensures
        r is Some <==> "rgbhttpjsonrpc:"@.is_prefix_of(text@),
        r matches Some(address) ==> text@ == "rgbhttpjsonrpc:"@ + address@,
{
    match invoice::ConsignmentEndpoint::from_str(text) {
        Ok(invoice::ConsignmentEndpoint::RgbHttpJsonRpc(address)) => Some(address),
        Ok(_) => None,
        Err(_) => None,
    }
}

// ---- Public keys ----

/// The compressed form of the public key that some bytes denote, if they denote
/// one.
pub uninterp spec fn public_key(bytes: Seq<u8>) -> Option<Seq<u8>>;

/// The public key that a hexadecimal text denotes: that of its bytes, which
/// must be as many as the compressed or the uncompressed form has.
pub open spec fn public_key_of_text(text: Chars) -> Option<Seq<u8>> {
    match strict_unhex(text) {
        Some(bytes) => if bytes.len() == 33 || bytes.len() == 65 {
            public_key(bytes)
        } else {
            None
        },
        None => None,
    }
}

/// Calls `bitcoin::secp256k1::PublicKey::from_slice`, and `serialize` on the
/// key. Claimed: the answer depends on the bytes alone, and the compressed form
/// that `serialize` gives is itself read as the same key.
#[verifier::external_body]
pub(crate) fn parse_public_key(bytes: &[u8]) -> (r: Option<[u8; 33]>)
    ensures
        match r {
            Some(key) => public_key(bytes@) == Some(key@) && public_key(key@) == Some(key@),
            None => public_key(bytes@) is None,
        },
{
    match bitcoin::secp256k1::PublicKey::from_slice(bytes) {
        Ok(key) => Some(key.serialize()),
        Err(_) => None,
    }
}

/// Calls `bitcoin::secp256k1::PublicKey::from_str`. Claimed: it reads the text
/// as hexadecimal digits in pairs and the bytes as `from_slice` does, and says
/// `malformed public key` of every other text.
#[verifier::external_body]
pub(crate) fn parse_public_key_text(text: &str) -> (r: Result<[u8; 33], String>)
    ensures
        match r {
            Ok(key) => public_key_of_text(text@) == Some(key@),
            Err(e) => public_key_of_text(text@) is None && e@ == "malformed public key"@,
        },
{
    match bitcoin::secp256k1::PublicKey::from_str(text) {
        Ok(key) => Ok(key.serialize()),
        Err(e) => Err(e.to_string()),
    }
}

/// How the outcome of signing a message with a secret key is written, if the
/// bytes are a secret key.
pub uninterp spec fn signed_chars(message: Seq<u8>, secret: Seq<u8>) -> Option<Seq<char>>;

/// Whether a text is how a result is written: what it holds stands in brackets behind
/// `Ok` or `Err`.
pub open spec fn reads_as_result(text: Chars) -> bool {
    "Ok("@.is_prefix_of(text) || "Err("@.is_prefix_of(text)
}

/// Calls `lightning::util::message_signing::sign` with the secret key that
/// `secp256k1::SecretKey::from_slice` makes of the bytes, and the `Debug` of
/// the `Result` that it returns. Claimed: the text depends on the message and the
/// secret alone, for the signature is a deterministic one; and it begins as the
/// `Debug` of a `Result` does.
#[verifier::external_body]
pub(crate) fn sign_message(message: &[u8], secret: &[u8; 32]) -> (r: Option<String>)
    ensures
        match r {
            Some(text) => signed_chars(message@, secret@) == Some(text@) && reads_as_result(text@),
            None => signed_chars(message@, secret@) is None,
        },
{
    match bitcoin::secp256k1::SecretKey::from_slice(secret) {
        Ok(key) => Some(format!("{:?}", lightning::util::message_signing::sign(message, &key))),
        Err(_) => None,
    }
}

// ---- Names of nodes ----

/// How the name that a node gave itself is shown.
pub uninterp spec fn alias_chars(alias: Seq<u8>) -> Seq<char>;

/// Calls the `Display` of `lightning::routing::gossip::NodeAlias`. Claimed: the
/// text depends on the bytes alone.
#[verifier::external_body]
pub(crate) fn alias_text(alias: &[u8; 32]) -> (r: String)
    ensures
        r@ == alias_chars(alias@),
{
    lightning::routing::gossip::NodeAlias(*alias).to_string()
}

// ---- Hashes, random numbers, encodings ----

/// The SHA-256 digest of some bytes.
pub uninterp spec fn sha256(bytes: Seq<u8>) -> Seq<u8>;

/// Calls `bitcoin::hashes::sha256::Hash::hash`. Claimed: the digest depends on
/// the bytes alone.
#[verifier::external_body]
pub(crate) fn sha256_digest(bytes: &[u8]) -> (r: [u8; 32])
    ensures
        r@ == sha256(bytes@),
{
    let digest: bitcoin::hashes::sha256::Hash = bitcoin::hashes::Hash::hash(bytes);
    bitcoin::hashes::Hash::into_inner(digest)
}

/// Calls `gen` of `rand::Rng` on `rand::thread_rng()`. The bytes are random:
/// nothing is claimed of them.
#[verifier::external_body]
pub(crate) fn random_bytes() -> [u8; 32] {
    rand::Rng::gen(&mut rand::thread_rng())
}

/// Calls `hex::encode`. Claimed: two lower-case digits for each byte.
#[verifier::external_body]
pub(crate) fn hex_encode(bytes: &[u8]) -> (r: String)
    ensures
        r@ == hex(bytes@),
{
    hex::encode(bytes)
}

/// Calls `hex::decode`. Claimed: it takes exactly the texts of hexadecimal
/// digits in pairs, in either case, and returns the bytes that they denote.
#[verifier::external_body]
pub(crate) fn hex_decode(text: &str) -> (r: Option<Vec<u8>>)
    ensures
        match r {
            Some(bytes) => strict_unhex(text@) == Some(bytes@),
            None => strict_unhex(text@) is None,
        },
{
    match hex::decode(text) {
        Ok(bytes) => Some(bytes),
        Err(_) => None,
    }
}

/// The bytes that a Base64 text denotes, if it is one.
pub uninterp spec fn base64_bytes(text: Seq<char>) -> Option<Seq<u8>>;

/// Calls `base64::decode`. Claimed: the answer depends on the text alone.
#[verifier::external_body]
pub(crate) fn base64_decode(text: &str) -> (r: Option<Vec<u8>>)
    ensures
        match r {
            Some(bytes) => base64_bytes(text@) == Some(bytes@),
            None => base64_bytes(text@) is None,
        },
{
    match base64::decode(text) {
        Ok(bytes) => Some(bytes),
        Err(_) => None,
    }
}

/// Calls `serde_json::to_string` on a text, which never fails for a text.
/// Claimed: the text stands between quotation marks, with quotation marks,
/// backslashes and control characters escaped.
#[verifier::external_body]
pub(crate) fn json_text(text: &str) -> (r: String)
    ensures
        r@ == json_string(text@),
{
    serde_json::to_string(text).unwrap()
}

// ---- Consignments ----

/// The strict encoding of the state transfer that some bytes decode to, if they
/// decode to one.
pub uninterp spec fn transfer_encoding(bytes: Seq<u8>) -> Option<Seq<u8>>;

/// Whether some bytes are the strict encoding of a contract.
pub uninterp spec fn encodes_contract(bytes: Seq<u8>) -> bool;

/// Calls `strict_encoding::strict_deserialize` for an `rgb::StateTransfer`, and
/// `strict_encoding::strict_serialize` on it. Claimed: the answer depends on
/// the bytes alone; it is none where either call fails. Decoding sets memory
/// aside for as many items as a length in the bytes says, before it reads them.
#[verifier::external_body]
pub(crate) fn reencode_transfer(bytes: &Vec<u8>) -> (r: Option<Vec<u8>>)
    ensures
        match r {
            Some(encoded) => transfer_encoding(bytes@) == Some(encoded@),
            None => transfer_encoding(bytes@) is None,
        },
{
    let transfer: rgb::StateTransfer = strict_encoding::strict_deserialize(bytes).ok()?;
    strict_encoding::strict_serialize(&transfer).ok()
}

/// Calls `strict_encoding::strict_deserialize` for an `rgb::Contract`. Claimed:
/// whether it succeeds depends on the bytes alone.
#[verifier::external_body]
pub(crate) fn is_contract(bytes: &Vec<u8>) -> (r: bool)
    ensures
        r == encodes_contract(bytes@),
{
    let contract: Result<rgb::Contract, _> = strict_encoding::strict_deserialize(bytes);
    contract.is_ok()
}

// ---- Invoices ----

/// What the readable part of an invoice says of the amount, if the text has the
/// form of a signed invoice: a number, if there is one, and, if a prefix names
/// the unit that it counts, how many pico-bitcoins that is.
pub uninterp spec fn invoice_raw_amount(text: Seq<char>) -> Option<(Option<u64>, Option<u64>)>;

/// What an invoice says: the amount in millisatoshis, the payment hash, the
/// payment secret and the payee's key; or how the reason is written that a text
/// is no invoice.
pub uninterp spec fn invoice(text: Seq<char>) -> Result<
    (Option<u64>, Seq<u8>, Seq<u8>, Seq<u8>),
    Seq<char>,
>;

/// Pico-bitcoins in a bitcoin, the unit of an amount without a prefix.
pub const PICO: u64 = 1_000_000_000_000;

/// Whether an amount with its unit can be counted in pico-bitcoins.
pub open spec fn amount_fits(raw: Option<(Option<u64>, Option<u64>)>) -> bool {
    match raw {
        Some((Some(amount), Some(unit))) => amount * unit <= u64::MAX,
        Some((Some(amount), None)) => amount * PICO <= u64::MAX,
        _ => true,
    }
}

/// Whether a text has the form of a signed invoice without being one, for the
/// fields that it has or lacks, or for the features that it names.
pub uninterp spec fn invoice_fields_fail(text: Seq<char>) -> bool;

/// Whether a text has the form of a signed invoice whose signature does not hold.
pub uninterp spec fn invoice_signature_fails(text: Seq<char>) -> bool;

/// Whether an invoice can be read: its fields or its signature fail before its
/// amount is counted, or the amount can be counted.
pub open spec fn can_be_read(
    raw: Option<(Option<u64>, Option<u64>)>,
    fields_fail: bool,
    signature_fails: bool,
) -> bool {
    fields_fail || signature_fails || amount_fits(raw)
}

/// Whether the invoice that a text denotes can be read.
pub open spec fn invoice_can_be_read(text: Chars) -> bool {
    can_be_read(
        invoice_raw_amount(text),
        invoice_fields_fail(text),
        invoice_signature_fails(text),
    )
}

/// Calls `lightning_invoice::Invoice::from_signed` on what
/// `SignedRawInvoice::from_str` makes of a text, with the same signature and no
/// amount. Claimed: whether it finds a fault other than one of the signature
/// depends on the text alone. Such a fault is one of fields or features, which
/// are looked at first and without regard to the amount.
#[verifier::external_body]
pub(crate) fn check_invoice_fields(text: &str) -> (r: bool)
    ensures
        r == invoice_fields_fail(text@),
{
    let (mut raw, _, signature) = match lightning_invoice::SignedRawInvoice::from_str(text) {
        Ok(signed) => signed.into_parts(),
        Err(_) => return false,
    };
    raw.hrp.raw_amount = None;
    let unpriced = raw.sign(|_| Ok::<_, ()>(signature.0)).unwrap();
    match lightning_invoice::Invoice::from_signed(unpriced) {
        Ok(_) => false,
        Err(lightning_invoice::SemanticError::InvalidSignature) => false,
        Err(lightning_invoice::SemanticError::InvalidRecoveryId) => false,
        Err(_) => true,
    }
}

/// Calls `check_signature` on what `lightning_invoice::SignedRawInvoice::from_str`
/// makes of a text. Claimed: the answer depends on the text alone.
#[verifier::external_body]
pub(crate) fn check_invoice_signature(text: &str) -> (r: bool)
    ensures
        r == invoice_signature_fails(text@),
{
    match lightning_invoice::SignedRawInvoice::from_str(text) {
        Ok(signed) => !signed.check_signature(),
        Err(_) => false,
    }
}

/// Calls `lightning_invoice::SignedRawInvoice::from_str`, which checks neither
/// the signature nor the fields, and reads the amount of its readable part.
/// Claimed: the answer depends on the text alone.
#[verifier::external_body]
pub(crate) fn raw_invoice_amount(text: &str) -> (r: Option<(Option<u64>, Option<u64>)>)
    ensures
        r == invoice_raw_amount(text@),
{
    let signed = lightning_invoice::SignedRawInvoice::from_str(text).ok()?;
    let hrp = &signed.raw_invoice().hrp;
    let unit = match &hrp.si_prefix {
        Some(prefix) => Some(prefix.multiplier()),
        None => None,
    };
    Some((hrp.raw_amount, unit))
}

/// Calls `lightning_invoice::Invoice::from_str` and the getters of what it
/// returns. Claimed: the answer depends on the text alone, and a text whose
/// fields or signature fail is no invoice. The call multiplies the amount out
/// once it has found no other fault, so the product has to fit then.
#[verifier::external_body]
pub(crate) fn read_invoice(text: &str) -> (r: Result<InvoiceData, String>)
    requires
        invoice_can_be_read(text@),
    ensures
        invoice_fields_fail(text@) || invoice_signature_fails(text@) ==> r is Err,
        match (r, invoice(text@)) {
            (Ok(data), Ok(said)) => {
                &&& data.text@ == text@
                &&& data.amount_msat == said.0
                &&& data.payment_hash@ == said.1
                &&& data.payment_secret@ == said.2
                &&& data.payee@ == said.3
            },
            (Err(e), Err(reason)) => e@ == reason,
            _ => false,
        },
{
    match lightning_invoice::Invoice::from_str(text) {
        Ok(invoice) => Ok(InvoiceData {
            text: text.to_string(),
            amount_msat: invoice.amount_milli_satoshis(),
            payment_hash: bitcoin::hashes::Hash::into_inner(*invoice.payment_hash()),
            payment_secret: invoice.payment_secret().0,
            payee: invoice.recover_payee_pub_key().serialize(),
        }),
        Err(e) => Err(format!("{:?}", e)),
    }
}

/// Calls `is_expired` on the `lightning_invoice::Invoice` that a text denotes.
/// The answer depends on the time of the call: nothing is claimed of it.
#[verifier::external_body]
pub(crate) fn invoice_is_expired(text: &str) -> bool
    requires
        invoice_can_be_read(text@),
{
    match lightning_invoice::Invoice::from_str(text) {
        Ok(invoice) => invoice.is_expired(),
        Err(_) => false,
    }
}

} // verus!
