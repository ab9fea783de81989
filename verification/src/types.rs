//! The plain values that requests are made of.
use vstd::prelude::*;

use crate::hex_utils::hex;
use crate::number::decimal;
use crate::text::Chars;

verus! {

/// A bitcoin network.
#[derive(Clone, Copy, Debug, PartialEq, Eq, Structural)]
pub enum Network {
    Bitcoin,
    Testnet,
    Signet,
    Regtest,
}

/// The currency that an invoice is issued in.
#[derive(Clone, Copy, Debug, PartialEq, Eq, Structural)]
pub enum Currency {
    Bitcoin,
    BitcoinTestnet,
    Regtest,
    Signet,
}

/// A transaction output. The bytes of the transaction id stand in the order in
/// which they are hashed.
#[derive(Clone, Copy, Debug, PartialEq, Eq)]
pub struct OutPoint {
    pub txid: [u8; 32],
    pub vout: u32,
}

/// A transaction output set aside for assets; it is colored once an asset was
/// put on it.
#[derive(Clone, Copy, Debug, PartialEq, Eq)]
pub struct RgbUtxo {
    pub outpoint: OutPoint,
    pub colored: bool,
}

/// How a single-use seal is closed.
#[derive(Clone, Copy, Debug, PartialEq, Eq, Structural)]
pub enum CloseMethod {
    OpretFirst,
    TapretFirst,
}

/// A seal with its blinding factor.
#[derive(Clone, Copy, Debug, PartialEq, Eq)]
pub struct RevealedSeal {
    pub method: CloseMethod,
    pub txid: Option<[u8; 32]>,
    pub vout: u32,
    pub blinding: u64,
}

/// A seal without a blinding factor.
#[derive(Clone, Copy, Debug, PartialEq, Eq)]
pub struct ExplicitSeal {
    pub method: CloseMethod,
    pub txid: Option<[u8; 32]>,
    pub vout: u32,
}

/// What is kept of a blinded output until an asset arrives on it.
#[derive(Clone, Copy, Debug, PartialEq, Eq)]
pub struct BlindedInfo {
    pub contract_id: Option<[u8; 32]>,
    pub seal: RevealedSeal,
    pub consumed: bool,
}

/// What an invoice says.
#[derive(Debug, PartialEq, Eq)]
pub struct InvoiceData {
    /// The invoice itself.
    pub text: String,
    pub amount_msat: Option<u64>,
    pub payment_hash: [u8; 32],
    pub payment_secret: [u8; 32],
    pub payee: [u8; 33],
}

/// How a transaction id is written: its bytes backwards, in hexadecimal.
pub open spec fn txid_chars(txid: Seq<u8>) -> Chars {
    hex(txid.reverse())
}

/// How a transaction output is written.
pub open spec fn outpoint_chars(o: OutPoint) -> Chars {
    txid_chars(o.txid@) + ":"@ + decimal(o.vout as nat)
}

/// The bytes of an array, if there is one.
pub open spec fn maybe32(a: Option<[u8; 32]>) -> Option<Seq<u8>> {
    match a {
        Some(bytes) => Some(bytes@),
        None => None,
    }
}

/// The bytes of a public key, if there is one.
pub open spec fn maybe33(a: Option<[u8; 33]>) -> Option<Seq<u8>> {
    match a {
        Some(bytes) => Some(bytes@),
        None => None,
    }
}

/// Whether two outputs are the same.
pub fn same_outpoint(a: &OutPoint, b: &OutPoint) -> (r: bool)
    ensures
        r == (*a == *b),
{
    a.vout == b.vout && same_bytes32(&a.txid, &b.txid)
}

/// Whether two arrays hold the same bytes.
pub fn same_bytes32(a: &[u8; 32], b: &[u8; 32]) -> (r: bool)
    ensures
        r == (*a == *b),
        r == (a@ == b@),
{
    for i in 0..32
        invariant
            forall|j: int| 0 <= j < i ==> a@[j] == b@[j],
    {
        if a[i] != b[i] {
            return false;
        }
    }
    assert(*a =~= *b);
    true
}

/// Whether two public keys are the same.
pub fn same_key(a: &[u8; 33], b: &[u8; 33]) -> (r: bool)
    ensures
        r == (*a == *b),
        r == (a@ == b@),
{
    for i in 0..33
        invariant
            forall|j: int| 0 <= j < i ==> a@[j] == b@[j],
    {
        if a[i] != b[i] {
            return false;
        }
    }
    assert(*a =~= *b);
    true
}

/// The array with the given bytes, if there are exactly as many as it holds.
pub fn bytes32(bytes: &Vec<u8>) -> (r: Option<[u8; 32]>)
    ensures
        match r {
            Some(a) => a@ == bytes@,
            None => bytes.len() != 32,
        },
{
    if bytes.len() != 32 {
        return None;
    }
    let mut a: [u8; 32] = [0u8; 32];
    let mut i: usize = 0;
    while i < 32
        invariant
            bytes.len() == 32,
            i <= 32,
            forall|j: int| 0 <= j < i ==> a@[j] == bytes@[j],
        decreases 32 - i,
    {
        a[i] = bytes[i];
        i += 1;
    }
    assert(a@ == bytes@);
    Some(a)
}

/// The notation of a transaction id.
pub fn txid_text(txid: &[u8; 32]) -> (r: String)
    ensures
        r@ == txid_chars(txid@),
{
    let mut backwards: Vec<u8> = Vec::new();
    let mut i: usize = 0;
    while i < 32
        invariant
            i <= 32,
            backwards.len() == i,
            forall|j: int| 0 <= j < i ==> backwards@[j] == txid@[31 - j],
        decreases 32 - i,
    {
        backwards.push(txid[31 - i]);
        i += 1;
    }
    assert(backwards@ == txid@.reverse());
    crate::hex_utils::hex_str(backwards.as_slice())
}

/// A transaction id that is written and read back, byte by byte from its end, is the
/// same id.
pub proof fn law_txid_reads_back(txid: Seq<u8>)
    ensures
        crate::hex_utils::strict_unhex(txid_chars(txid)) matches Some(bytes) && bytes.reverse()
            == txid,
{
    crate::hex_utils::law_hex_reads_back(txid.reverse());
    assert(txid.reverse().reverse() == txid);
}

} // verus!
