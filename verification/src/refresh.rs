//! The request that takes in assets sent to blinded outputs.
use vstd::prelude::*;

use crate::request::{law_words_stand_for_commands, request_step};
use crate::step::{abort, answer, Settings, Step};
use crate::text::{words, Chars};
use crate::trusted::{
    base64_bytes, base64_decode, concealed_chars, concealed_text, encodes_contract, is_contract,
    reencode_transfer, transfer_encoding,
};
use crate::types::{maybe32, BlindedInfo, CloseMethod, OutPoint};

verus! {

/// A consignment to be asked for.
#[derive(Debug, PartialEq, Eq)]
pub struct FetchConsignment {
    pub info: BlindedInfo,
    pub blinded_utxo: String,
}

/// A consignment whose contract is to be registered.
#[derive(Debug, PartialEq, Eq)]
pub struct RegisterContract {
    pub info: BlindedInfo,
    /// The consignment, strictly encoded.
    pub consignment: Vec<u8>,
    /// The same consignment encoded anew, which is the encoding of a contract.
    pub contract: Vec<u8>,
}

/// What the owner of a blinded output reveals of it.
#[derive(Clone, Copy, Debug, PartialEq, Eq)]
pub struct Reveal {
    pub blinding_factor: u64,
    pub outpoint: OutPoint,
    pub close_method: CloseMethod,
    pub witness_vout: bool,
}

/// A consignment whose transfer is to be noted.
#[derive(Debug, PartialEq, Eq)]
pub struct ConsumeTransfer {
    pub consignment: Vec<u8>,
    pub reveal: Reveal,
}

/// What becomes of the next blinded output that was written down.
pub open spec fn next_step(info: Option<BlindedInfo>, step: Step) -> bool {
    match info {
        None => step.answers("Refresh complete"@),
        Some(i) => if i.consumed {
            step.answers(""@)
        } else {
            step matches Step::FetchConsignment(f) && {
                &&& f.info == i
                &&& f.blinded_utxo@ == concealed_chars(
                    i.seal.method == CloseMethod::OpretFirst,
                    maybe32(i.seal.txid),
                    i.seal.vout,
                    i.seal.blinding,
                )
            }
        },
    }
}

/// Goes on with the next blinded output that was written down, if there is one.
pub fn refresh_next(info: Option<BlindedInfo>) -> (step: Step)
    ensures
        next_step(info, step),
{
    match info {
        None => answer("Refresh complete"),
        Some(i) => if i.consumed {
            answer("")
        } else {
            Step::FetchConsignment(FetchConsignment { info: i, blinded_utxo: concealed_text(&i.seal) })
        },
    }
}

/// What becomes of a consignment that was fetched, by the bytes that its text
/// denotes, the encoding anew of the transfer that they decode to, and whether
/// that is the encoding of a contract.
pub open spec fn decoded_step(
    info: BlindedInfo,
    bytes: Option<Seq<u8>>,
    encoded: Option<Seq<u8>>,
    contract: bool,
    step: Step,
) -> bool {
    match (bytes, encoded) {
        (Some(b), Some(e)) => if contract {
            step matches Step::RegisterContract(r) && {
                &&& r.info == info
                &&& r.consignment@ == b
                &&& r.contract@ == e
            }
        } else {
            step.aborts("valid serialized consignment"@)
        },
        _ => step.aborts("valid consignment"@),
    }
}

/// What becomes of a text that was fetched as a consignment.
pub open spec fn fetched_step(info: BlindedInfo, text: Seq<char>, step: Step) -> bool {
    let bytes = base64_bytes(text);
    let encoded = match bytes {
        Some(b) => transfer_encoding(b),
        None => None,
    };
    let contract = match encoded {
        Some(e) => encodes_contract(e),
        None => false,
    };
    decoded_step(info, bytes, encoded, contract, step)
}

/// The bytes in a vector, if there is one.
pub open spec fn maybe_bytes(v: Option<Vec<u8>>) -> Option<Seq<u8>> {
    match v {
        Some(bytes) => Some(bytes@),
        None => None,
    }
}

/// What becomes of a blinded output once the proxy was asked: it may not have
/// replied, or not have had a consignment.
pub open spec fn asked_step(info: BlindedInfo, text: Option<Seq<char>>, step: Step) -> bool {
    match text {
        Some(text) => fetched_step(info, text, step),
        None => step.answers("ERROR: unable to get consignment"@),
    }
}

impl FetchConsignment {
    /// Goes on once the proxy was asked.
    pub fn fetched(self, reply: Result<Option<String>, String>) -> (step: Step)
        ensures
            asked_step(
                self.info,
                match reply {
                    Ok(Some(text)) => Some(text@),
                    _ => None,
                },
                step,
            ),
    {
        let text = match reply {
            Ok(Some(t)) => t,
            _ => {
                return answer("ERROR: unable to get consignment");
            },
        };
        let bytes = base64_decode(&text);
        let encoded = match &bytes {
            Some(b) => reencode_transfer(b),
            None => None,
        };
        let contract = match &encoded {
            Some(e) => is_contract(e),
            None => false,
        };
        self.decoded(bytes, encoded, contract)
    }

    /// Goes on once the consignment is decoded, encoded anew and held against the
    /// form of a contract.
    pub fn decoded(
        self,
        bytes: Option<Vec<u8>>,
        encoded: Option<Vec<u8>>,
        contract: bool,
    ) -> (step: Step)
        ensures
            decoded_step(self.info, maybe_bytes(bytes), maybe_bytes(encoded), contract, step),
    {
        match (bytes, encoded) {
            (Some(b), Some(e)) => if contract {
                Step::RegisterContract(
                    RegisterContract { info: self.info, consignment: b, contract: e },
                )
            } else {
                abort("valid serialized consignment")
            },
            _ => abort("valid consignment"),
        }
    }
}

/// What is revealed of a blinded output, where its transaction is known.
pub open spec fn revealed(info: BlindedInfo) -> Option<Reveal> {
    match info.seal.txid {
        Some(txid) => Some(
            Reveal {
                blinding_factor: info.seal.blinding,
                outpoint: OutPoint { txid, vout: info.seal.vout },
                close_method: CloseMethod::OpretFirst,
                witness_vout: false,
            },
        ),
        None => None,
    }
}

/// What becomes of a consignment whose contract is registered.
pub open spec fn registered_step(r: RegisterContract, step: Step) -> bool {
    match revealed(r.info) {
        Some(reveal) => step == Step::ConsumeTransfer(
            ConsumeTransfer { consignment: r.consignment, reveal },
        ),
        None => step.aborts("called `Option::unwrap()` on a `None` value"@),
    }
}

impl RegisterContract {
    /// Goes on once the contract is registered.
    pub fn registered(self) -> (step: Step)
        ensures
            registered_step(self, step),
    {
        match self.info.seal.txid {
            Some(txid) => Step::ConsumeTransfer(
                ConsumeTransfer {
                    consignment: self.consignment,
                    reveal: Reveal {
                        blinding_factor: self.info.seal.blinding,
                        outpoint: OutPoint { txid, vout: self.info.seal.vout },
                        close_method: CloseMethod::OpretFirst,
                        witness_vout: false,
                    },
                },
            ),
            None => abort("called `Option::unwrap()` on a `None` value"),
        }
    }
}

/// What becomes of a transfer that was found to be valid, or was not.
pub open spec fn consumed_step(valid: bool, step: Step) -> bool {
    if valid {
        step == Step::FinishRefresh
    } else {
        step.answers("WARNING: error consuming transfer"@)
    }
}

impl ConsumeTransfer {
    /// Goes on once the transfer was found to be valid, or was not.
    pub fn consumed(self, valid: bool) -> (step: Step)
        ensures
            consumed_step(valid, step),
    {
        if valid {
            Step::FinishRefresh
        } else {
            answer("WARNING: error consuming transfer")
        }
    }
}

/// A blinded output that was just written down is asked for under the name that
/// was shown, and the output revealed for it is the one that was blinded.
pub proof fn law_refresh_asks_for_what_was_shown(
    save: crate::assets::SaveBlinded,
    outpoint: OutPoint,
    after: Seq<crate::types::RgbUtxo>,
    step: Step,
)
    requires
        crate::assets::blinds(save, outpoint, after, save.info.seal.blinding),
        next_step(Some(save.info), step),
    ensures
        step matches Step::FetchConsignment(f) && f.blinded_utxo@ == save.blinded_utxo@ && f.info
            == save.info,
        revealed(save.info) matches Some(r) && r.outpoint == outpoint && r.blinding_factor
            == save.info.seal.blinding,
{
}

/// A line with `refresh` takes in what was sent to each blinded output in turn. The
/// consignment that is asked for is that of the seal that was written down. Where the
/// proxy has one that is a transfer and a contract, the contract is registered and then
/// the transfer is noted, with the very bytes that were fetched, for the output and the
/// blinding factor that were written down; and only where it is found to be valid does it
/// go on to the next.
pub proof fn law_refresh_takes_in_what_was_sent(
    line: Chars,
    w: Seq<Chars>,
    settings: Settings,
    info: BlindedInfo,
    txid: [u8; 32],
    text: Chars,
    valid: bool,
    s0: Step,
    s1: Step,
    s2: Step,
    s3: Step,
    s4: Step,
)
    requires
        words(line) == w,
        w.len() > 0,
        w[0] == "refresh"@,
        !info.consumed,
        info.seal.txid == Some(txid),
        request_step(line, settings, s0),
        s0 is RefreshNext || s0 is FinishRefresh ==> next_step(Some(info), s1),
        s1 matches Step::FetchConsignment(f) ==> asked_step(f.info, Some(text), s2),
        s2 matches Step::RegisterContract(r) ==> registered_step(r, s3),
        s2 !is RegisterContract ==> s3 == s2,
        s3 is ConsumeTransfer ==> consumed_step(valid, s4),
        s3 !is ConsumeTransfer ==> s4 == s3,
    ensures
        s1 matches Step::FetchConsignment(f) && f.info == info && f.blinded_utxo@
            == concealed_chars(
            info.seal.method == CloseMethod::OpretFirst,
            Some(txid@),
            info.seal.vout,
            info.seal.blinding,
        ),
        s3 is ConsumeTransfer <==> {
            &&& base64_bytes(text) is Some
            &&& transfer_encoding(base64_bytes(text)->0) is Some
            &&& encodes_contract(transfer_encoding(base64_bytes(text)->0)->0)
        },
        s3 !is ConsumeTransfer ==> s3 is Abort,
        s3 matches Step::ConsumeTransfer(c) ==> {
            &&& s2 matches Step::RegisterContract(r) && base64_bytes(text) == Some(r.consignment@)
                && transfer_encoding(r.consignment@) == Some(r.contract@)
            &&& base64_bytes(text) == Some(c.consignment@)
            &&& c.reveal.blinding_factor == info.seal.blinding
            &&& c.reveal.outpoint.txid == txid
            &&& c.reveal.outpoint.vout == info.seal.vout
            &&& c.reveal.close_method == CloseMethod::OpretFirst
            &&& !c.reveal.witness_vout
            &&& valid ==> s4 is FinishRefresh
            &&& !valid ==> s4.answers("WARNING: error consuming transfer"@)
        },
{
    law_words_stand_for_commands(w[0]);
}

/// Refreshing ends where no blinded output is left, where the next one was consumed
/// before, or where there is no consignment for it; the response tells which.
pub proof fn law_refresh_ends(info: Option<BlindedInfo>, next: Step, asked: Step)
    requires
        next_step(info, next),
        next matches Step::FetchConsignment(f) ==> asked_step(f.info, None, asked),
    ensures
        next is Reply <==> info is None || (info->0).consumed,
        info is None ==> next.answers("Refresh complete"@),
        info is Some && (info->0).consumed ==> next.answers(""@),
        next !is Reply ==> asked.answers("ERROR: unable to get consignment"@),
{
}

} // verus!
