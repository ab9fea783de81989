//! Requests about assets: issuing, counting, sending and receiving them.
use vstd::prelude::*;
use vstd::utf8::is_ascii_chars;

use crate::hex_utils::hex;
use crate::number::{decimal, decimal_text, fault_text, number, parse_number};
use crate::request::{law_words_stand_for_commands, request_step};
use crate::run::{comes_next, is_run};
use crate::step::{abort, answer, Settings, Step};
use crate::text::{join2, join3, with_chars, words, Chars};
use crate::trusted::{
    concealed_chars, concealed_seal, concealed_text, contract_id, contract_id_chars,
    contract_id_text, new_seal, parse_ascii, parse_concealed_seal, parse_contract_id,
    parse_explicit_seal,
};
use crate::types::{
    maybe32, outpoint_chars, txid_chars, txid_text, BlindedInfo, CloseMethod, ExplicitSeal,
    OutPoint, RevealedSeal, RgbUtxo,
};
use crate::utxos::{
    comes_first, law_reserve_fails_when_all_colored, law_reserve_takes_uncolored,
    law_the_first_is_reserved, needed, outpoints, reserve_utxo, reserved, select_inputs, total,
    OwnedValue,
};

verus! {

/// An asset to be issued.
#[derive(Debug, PartialEq, Eq)]
pub struct IssueAsset {
    pub amount: u64,
    pub ticker: String,
    pub name: String,
    pub precision: u8,
}

/// An asset to be issued, with the output to put it on and what is to be
/// written down of the outputs before.
#[derive(Debug, PartialEq, Eq)]
pub struct IssueContract {
    pub utxos: Vec<RgbUtxo>,
    pub outpoint: OutPoint,
    pub asset: IssueAsset,
}

/// An asset to be counted.
#[derive(Clone, Copy, Debug, PartialEq, Eq)]
pub struct AssetBalance {
    pub contract_id: [u8; 32],
}

/// An amount of an asset to be sent to a blinded output.
#[derive(Debug, PartialEq, Eq)]
pub struct SendAsset {
    pub contract_id: [u8; 32],
    pub amt_rgb: u64,
    pub blinded_utxo: String,
}

/// A transfer that leaves change.
#[derive(Debug, PartialEq, Eq)]
pub struct SendChange {
    pub send: SendAsset,
    pub inputs: Vec<OutPoint>,
    pub change: u64,
}

/// An amount of an asset and the seal that it goes to.
#[derive(Clone, Copy, Debug, PartialEq, Eq)]
pub struct Allocation {
    pub value: u64,
    pub seal: ExplicitSeal,
}

/// A transfer whose inputs and change are settled. Where an output was taken
/// for the change, what is to be written down of the outputs.
#[derive(Debug, PartialEq, Eq)]
pub struct SendBuild {
    pub send: SendAsset,
    pub inputs: Vec<OutPoint>,
    pub change: Option<Allocation>,
    pub save: Option<Vec<RgbUtxo>>,
}

/// A transfer to be made, and where its consignment is saved and posted.
#[derive(Debug, PartialEq, Eq)]
pub struct SendTransfer {
    pub send: SendAsset,
    pub inputs: Vec<OutPoint>,
    /// The concealed seal that the blinded output stands for.
    pub beneficiary: [u8; 32],
    pub change: Option<Allocation>,
    pub consignment_path: String,
}

/// A transfer whose consignment is posted.
#[derive(Debug, PartialEq, Eq)]
pub struct SendFinish {
    pub send: SendAsset,
}

/// A blinded output to be written down, together with the outputs.
#[derive(Debug, PartialEq, Eq)]
pub struct SaveBlinded {
    pub utxos: Vec<RgbUtxo>,
    pub blinded_utxo: String,
    pub info: BlindedInfo,
}

/// `issueasset <amount> <ticker> <name> <precision>`
pub open spec fn issue_asset_step(w: Seq<Chars>, step: Step) -> bool {
    if w.len() < 5 {
        step.answers(
            "ERROR: issueasset has 4 required arguments: `issueasset <amount> <ticker> <name> <precision>`"@,
        )
    } else if number(w[1], u64::MAX as nat) is Err {
        step.answers("ERROR: amount must be a number"@)
    } else if !is_ascii_chars(w[2]) {
        step.answers("ERROR: ticker must be an ASCII string"@)
    } else if !is_ascii_chars(w[3]) {
        step.answers("ERROR: name must be an ASCII string"@)
    } else if number(w[4], u8::MAX as nat) is Err {
        step.answers("ERROR: precision must be a number"@)
    } else {
        step matches Step::IssueAsset(i) && {
            &&& i.amount == number(w[1], u64::MAX as nat)->Ok_0
            &&& i.ticker@ == w[2]
            &&& i.name@ == w[3]
            &&& i.precision == number(w[4], u8::MAX as nat)->Ok_0
        }
    }
}

/// Begins an issue.
pub fn issue_asset(words: &Vec<String>) -> (step: Step)
    ensures
        issue_asset_step(words.deep_view(), step),
{
    if words.len() < 5 {
        return answer(
            "ERROR: issueasset has 4 required arguments: `issueasset <amount> <ticker> <name> <precision>`",
        );
    }
    let amount: u64 = match parse_number(&words[1], u64::MAX) {
        Ok(n) => n,
        Err(_) => {
            return answer("ERROR: amount must be a number");
        },
    };
    let ticker = match parse_ascii(&words[2]) {
        Some(t) => t,
        None => {
            return answer("ERROR: ticker must be an ASCII string");
        },
    };
    let name = match parse_ascii(&words[3]) {
        Some(t) => t,
        None => {
            return answer("ERROR: name must be an ASCII string");
        },
    };
    match parse_number(&words[4], u8::MAX as u64) {
        Ok(n) => Step::IssueAsset(IssueAsset { amount, ticker, name, precision: n as u8 }),
        Err(_) => answer("ERROR: precision must be a number"),
    }
}

/// What becomes of an asset to be issued: it is put on the first output that carries
/// none. `wording` says that there is none left.
pub open spec fn issue_on_step(
    asset: IssueAsset,
    utxos: Seq<RgbUtxo>,
    wording: Chars,
    step: Step,
) -> bool {
    match reserved(utxos) {
        Some((outpoint, after)) => step matches Step::IssueContract(c) && c.utxos@ == after
            && c.outpoint == outpoint && c.asset == asset,
        None => step.answers("ERROR: "@ + wording),
    }
}

impl IssueAsset {
    /// Goes on once the outputs that are set aside are read.
    pub fn utxos_read(self, utxos: Vec<RgbUtxo>, settings: &Settings) -> (step: Step)
        ensures
            issue_on_step(self, utxos@, settings.no_available_utxos@, step),
    {
        match reserve_utxo(utxos) {
            Some((outpoint, after)) => Step::IssueContract(
                IssueContract { utxos: after, outpoint, asset: self },
            ),
            None => answer(&join2("ERROR: ", &settings.no_available_utxos)),
        }
    }
}

/// How the id of a new asset is shown.
pub open spec fn issued_step(id: Seq<u8>, step: Step) -> bool {
    step.answers("Asset ID: "@ + contract_id_chars(id))
}

impl IssueContract {
    /// Goes on once the contract is issued. The id that is shown denotes the
    /// contract.
    pub fn issued(self, id: [u8; 32]) -> (step: Step)
        ensures
            issued_step(id@, step),
            contract_id(contract_id_chars(id@)) == Some(id@),
    {
        answer(&join2("Asset ID: ", &contract_id_text(&id)))
    }
}

/// `assetbalance <contract_id>`, where `id` is what the contract id denotes.
pub open spec fn asset_balance_step(w: Seq<Chars>, id: Option<Seq<u8>>, step: Step) -> bool {
    if w.len() < 2 {
        step.answers(
            "ERROR: assetbalance has 1 required argument: ``assetbalance <contract_id>``"@,
        )
    } else {
        match id {
            Some(id) => step matches Step::AssetBalance(a) && a.contract_id@ == id,
            None => step.answers("ERROR: contract_id must be a valid RGB asset ID"@),
        }
    }
}

/// Begins to count an asset.
pub fn asset_balance(words: &Vec<String>) -> (step: Step)
    ensures
        asset_balance_step(words.deep_view(), contract_id(words.deep_view()[1]), step),
{
    let id: Option<[u8; 32]> = if words.len() > 1 {
        parse_contract_id(&words[1])
    } else {
        None
    };
    asset_balance_of(words, id)
}

/// Begins to count the asset that the words denote.
pub fn asset_balance_of(words: &Vec<String>, id: Option<[u8; 32]>) -> (step: Step)
    ensures
        asset_balance_step(words.deep_view(), maybe32(id), step),
{
    if words.len() < 2 {
        return answer(
            "ERROR: assetbalance has 1 required argument: ``assetbalance <contract_id>``",
        );
    }
    match id {
        Some(contract_id) => Step::AssetBalance(AssetBalance { contract_id }),
        None => answer("ERROR: contract_id must be a valid RGB asset ID"),
    }
}

/// How it is shown how much there is of an asset.
pub open spec fn balance_step(amount: Result<u64, Chars>, step: Step) -> bool {
    match amount {
        Ok(n) => step.answers("Asset balance: "@ + decimal(n as nat)),
        Err(e) => step.answers("ERROR: "@ + e),
    }
}

impl AssetBalance {
    /// Goes on once the asset is counted, or it is known why it is not.
    pub fn counted(self, amount: Result<u64, String>) -> (step: Step)
        ensures
            balance_step(with_chars(amount), step),
    {
        match amount {
            Ok(n) => answer(&join2("Asset balance: ", &decimal_text(n))),
            Err(e) => answer(&join2("ERROR: ", &e)),
        }
    }
}

/// `sendasset <contract_id> <amt_rgb> <blinded_utxo>`, where `id` is what the
/// contract id denotes.
pub open spec fn send_asset_step(w: Seq<Chars>, id: Option<Seq<u8>>, step: Step) -> bool {
    if w.len() < 4 {
        step.answers(
            "ERROR: sendasset has 3 required arguments: ``sendasset <contract_id> <amt_rgb> <blinded_utxo>``"@,
        )
    } else {
        match id {
            Some(id) => match number(w[2], u64::MAX as nat) {
                Ok(n) => step matches Step::SendTotal(s) && {
                    &&& s.contract_id@ == id
                    &&& s.amt_rgb == n
                    &&& s.blinded_utxo@ == w[3]
                },
                Err(f) => step.answers("ERROR: couldn't parse amt_rgb: "@ + fault_text(f)),
            },
            None => step.answers("ERROR: contract_id must be a valid RGB asset ID"@),
        }
    }
}

/// Begins to send an asset.
pub fn send_asset(words: &Vec<String>) -> (step: Step)
    ensures
        send_asset_step(words.deep_view(), contract_id(words.deep_view()[1]), step),
{
    let id: Option<[u8; 32]> = if words.len() > 1 {
        parse_contract_id(&words[1])
    } else {
        None
    };
    send_asset_of(words, id)
}

/// Begins to send the asset that the words denote.
pub fn send_asset_of(words: &Vec<String>, id: Option<[u8; 32]>) -> (step: Step)
    ensures
        send_asset_step(words.deep_view(), maybe32(id), step),
{
    if words.len() < 4 {
        return answer(
            "ERROR: sendasset has 3 required arguments: ``sendasset <contract_id> <amt_rgb> <blinded_utxo>``",
        );
    }
    let contract_id = match id {
        Some(id) => id,
        None => {
            return answer("ERROR: contract_id must be a valid RGB asset ID");
        },
    };
    match parse_number(&words[2], u64::MAX) {
        Ok(amt_rgb) => Step::SendTotal(
            SendAsset { contract_id, amt_rgb, blinded_utxo: words[3].clone() },
        ),
        Err(f) => answer(&join2("ERROR: couldn't parse amt_rgb: ", &f.text())),
    }
}

/// Which outputs a transfer spends: the first ones that together carry enough.
/// What they carry beyond the amount is the change.
pub open spec fn send_owned_step(send: SendAsset, owned: Seq<OwnedValue>, step: Step) -> bool {
    let taken = owned.take(needed(owned, send.amt_rgb as int) as int);
    if total(taken) > u64::MAX {
        step.aborts("attempt to add with overflow"@)
    } else if total(taken) < send.amt_rgb {
        step.aborts("attempt to subtract with overflow"@)
    } else if total(taken) > send.amt_rgb {
        step matches Step::SendChange(c) && {
            &&& c.send == send
            &&& c.inputs@ == outpoints(taken)
            &&& c.change == total(taken) - send.amt_rgb
        }
    } else {
        step matches Step::SendBuild(b) && {
            &&& b.send == send
            &&& b.inputs@ == outpoints(taken)
            &&& b.change is None
            &&& b.save is None
        }
    }
}

/// What becomes of an asset to be sent once it is known how much there is of it.
pub open spec fn send_counted_step(
    send: SendAsset,
    amount: Result<u64, Chars>,
    step: Step,
) -> bool {
    match amount {
        Ok(n) => if send.amt_rgb > n {
            step.answers("ERROR: you only have "@ + decimal(n as nat) + " RGB"@)
        } else {
            step == Step::SendOwned(send)
        },
        Err(e) => step.answers("ERROR: "@ + e),
    }
}

impl SendAsset {
    /// Goes on once it is known how much there is of the asset, or why it is
    /// not.
    pub fn counted(self, amount: Result<u64, String>) -> (step: Step)
        ensures
            send_counted_step(self, with_chars(amount), step),
    {
        match amount {
            Ok(n) => if self.amt_rgb > n {
                answer(&join3("ERROR: you only have ", &decimal_text(n), " RGB"))
            } else {
                Step::SendOwned(self)
            },
            Err(e) => answer(&join2("ERROR: ", &e)),
        }
    }

    /// Goes on once it is known which outputs carry the asset.
    pub fn owned(self, owned: &Vec<OwnedValue>) -> (step: Step)
        ensures
            send_owned_step(self, owned@, step),
    {
        let (inputs, sum): (Vec<OutPoint>, u64) = match select_inputs(owned, self.amt_rgb) {
            Some(selected) => selected,
            None => {
                return abort("attempt to add with overflow");
            },
        };
        if sum < self.amt_rgb {
            return abort("attempt to subtract with overflow");
        }
        let change: u64 = sum - self.amt_rgb;
        if change > 0 {
            Step::SendChange(SendChange { send: self, inputs, change })
        } else {
            Step::SendBuild(SendBuild { send: self, inputs, change: None, save: None })
        }
    }
}

/// What becomes of a transfer that leaves change: the change is put on the first
/// output that carries no asset.
pub open spec fn change_step(
    c: SendChange,
    utxos: Seq<RgbUtxo>,
    wording: Chars,
    step: Step,
) -> bool {
    match reserved(utxos) {
        Some((outpoint, after)) => step matches Step::SendBuild(b) && {
            &&& b.send == c.send
            &&& b.inputs == c.inputs
            &&& b.change == Some(
                Allocation {
                    value: c.change,
                    seal: ExplicitSeal {
                        method: CloseMethod::OpretFirst,
                        txid: Some(outpoint.txid),
                        vout: outpoint.vout,
                    },
                },
            )
            &&& b.save matches Some(saved) && saved@ == after
        },
        None => step.answers("ERROR: "@ + wording),
    }
}

impl SendChange {
    /// Goes on once the outputs that are set aside are read.
    pub fn utxos_read(self, utxos: Vec<RgbUtxo>, settings: &Settings) -> (step: Step)
        ensures
            change_step(self, utxos@, settings.no_available_utxos@, step),
    {
        match reserve_utxo(utxos) {
            Some((outpoint, after)) => {
                let notation = join2(
                    "opret1st:",
                    &join3(&txid_text(&outpoint.txid), ":", &decimal_text(outpoint.vout as u64)),
                );
                assert(notation@ == "opret1st:"@ + outpoint_chars(outpoint));
                match parse_explicit_seal(&notation) {
                    Some(seal) => Step::SendBuild(
                        SendBuild {
                            send: self.send,
                            inputs: self.inputs,
                            change: Some(Allocation { value: self.change, seal }),
                            save: Some(after),
                        },
                    ),
                    None => abort("valid explicit seal"),
                }
            },
            None => answer(&join2("ERROR: ", &settings.no_available_utxos)),
        }
    }
}

/// What becomes of a transfer whose transaction is built, where `seal` is what
/// the blinded output denotes.
pub open spec fn built_step(
    b: SendBuild,
    seal: Option<Seq<u8>>,
    dir: Chars,
    step: Step,
) -> bool {
    match seal {
        Some(seal) => step matches Step::SendTransfer(t) && {
            &&& t.send == b.send
            &&& t.inputs == b.inputs
            &&& t.beneficiary@ == seal
            &&& t.change == b.change
            &&& t.consignment_path@ == dir + "/consignment"@
        },
        None => step.answers("ERROR: blinded_utxo must be a valid RGB blinded UTXO"@),
    }
}

impl SendBuild {
    /// Goes on once the transaction is built.
    pub fn built(self, settings: &Settings) -> (step: Step)
        ensures
            built_step(
                self,
                concealed_seal(self.send.blinded_utxo@),
                settings.ldk_data_dir@,
                step,
            ),
    {
        let seal = parse_concealed_seal(&self.send.blinded_utxo);
        self.built_for(seal, settings)
    }

    /// Goes on once the transaction is built and the blinded output is read.
    pub fn built_for(self, seal: Option<[u8; 32]>, settings: &Settings) -> (step: Step)
        ensures
            built_step(self, maybe32(seal), settings.ldk_data_dir@, step),
    {
        match seal {
            Some(beneficiary) => Step::SendTransfer(
                SendTransfer {
                    send: self.send,
                    inputs: self.inputs,
                    beneficiary,
                    change: self.change,
                    consignment_path: join2(&settings.ldk_data_dir, "/consignment"),
                },
            ),
            None => answer("ERROR: blinded_utxo must be a valid RGB blinded UTXO"),
        }
    }
}

/// What becomes of a transfer whose consignment was posted: the proxy may not have
/// replied, or not have had a result.
pub open spec fn posted_step(
    t: SendTransfer,
    reply: Result<Option<bool>, Chars>,
    step: Step,
) -> bool {
    match reply {
        Ok(Some(_)) => step == Step::SendFinish(SendFinish { send: t.send }),
        _ => step.answers("ERROR: unable to post consignment"@),
    }
}

impl SendTransfer {
    /// Goes on once the consignment was posted.
    pub fn posted(self, reply: Result<Option<bool>, String>) -> (step: Step)
        ensures
            posted_step(self, with_chars(reply), step),
    {
        match reply {
            Ok(Some(_)) => Step::SendFinish(SendFinish { send: self.send }),
            _ => answer("ERROR: unable to post consignment"),
        }
    }
}

/// How the transaction of a transfer is shown.
pub open spec fn sent_step(txid: Seq<u8>, step: Step) -> bool {
    step.answers("RGB send complete, txid: "@ + txid_chars(txid))
}

impl SendFinish {
    /// Goes on once the transaction is sent.
    pub fn sent(self, txid: [u8; 32]) -> (step: Step)
        ensures
            sent_step(txid@, step),
    {
        answer(&join2("RGB send complete, txid: ", &txid_text(&txid)))
    }
}

/// A blinded output on the given output: its seal has some blinding factor, and
/// is written in its concealed form.
pub open spec fn blinds(
    save: SaveBlinded,
    outpoint: OutPoint,
    after: Seq<RgbUtxo>,
    blinding: u64,
) -> bool {
    &&& save.utxos@ == after
    &&& save.info == BlindedInfo {
        contract_id: None,
        seal: RevealedSeal {
            method: CloseMethod::OpretFirst,
            txid: Some(outpoint.txid),
            vout: outpoint.vout,
            blinding,
        },
        consumed: false,
    }
    &&& save.blinded_utxo@ == concealed_chars(
        true,
        Some(outpoint.txid@),
        outpoint.vout,
        blinding,
    )
    &&& concealed_seal(save.blinded_utxo@) is Some
}

/// What becomes of a request to receive: the first output that carries no asset is
/// blinded.
pub open spec fn receive_step(utxos: Seq<RgbUtxo>, wording: Chars, step: Step) -> bool {
    match reserved(utxos) {
        Some((outpoint, after)) => step matches Step::SaveBlinded(s) && blinds(
            s,
            outpoint,
            after,
            s.info.seal.blinding,
        ),
        None => step.answers(wording),
    }
}

/// Goes on with `receiveasset` once the outputs that are set aside are read.
pub fn receive_asset(utxos: Vec<RgbUtxo>, settings: &Settings) -> (step: Step)
    ensures
        receive_step(utxos@, settings.no_available_utxos@, step),
{
    match reserve_utxo(utxos) {
        Some((outpoint, after)) => {
            let seal = new_seal(CloseMethod::OpretFirst, &outpoint);
            let blinded_utxo = concealed_text(&seal);
            receive_on(after, seal, blinded_utxo)
        },
        None => answer(&settings.no_available_utxos),
    }
}

/// Goes on with `receiveasset` once an output is blinded.
pub fn receive_on(utxos: Vec<RgbUtxo>, seal: RevealedSeal, blinded_utxo: String) -> (step: Step)
    ensures
        step == Step::SaveBlinded(
            SaveBlinded {
                utxos,
                blinded_utxo,
                info: BlindedInfo { contract_id: None, seal, consumed: false },
            },
        ),
{
    Step::SaveBlinded(
        SaveBlinded {
            utxos,
            blinded_utxo,
            info: BlindedInfo { contract_id: None, seal, consumed: false },
        },
    )
}

/// How a blinded output is shown.
pub open spec fn blinded_saved_step(save: SaveBlinded, step: Step) -> bool {
    step.answers("Blinded UTXO: "@ + save.blinded_utxo@)
}

impl SaveBlinded {
    /// Goes on once the blinded output is written down.
    pub fn saved(self) -> (step: Step)
        ensures
            blinded_saved_step(self, step),
    {
        answer(&join2("Blinded UTXO: ", &self.blinded_utxo))
    }
}

/// A blinded output that one node shows can be sent to by another: once the
/// transaction is built, the transfer goes on.
pub proof fn law_blinded_utxo_is_taken(
    save: SaveBlinded,
    outpoint: OutPoint,
    after: Seq<RgbUtxo>,
    b: SendBuild,
    dir: Chars,
    step: Step,
)
    requires
        blinds(save, outpoint, after, save.info.seal.blinding),
        b.send.blinded_utxo@ == save.blinded_utxo@,
        built_step(b, concealed_seal(b.send.blinded_utxo@), dir, step),
    ensures
        step is SendTransfer,
{
}

/// Nothing of the asset is lost: what the inputs of a transfer carry is what is
/// sent and what comes back, and the inputs are as few as they can be from the
/// front.
pub proof fn law_inputs_are_sent_or_come_back(
    send: SendAsset,
    owned: Seq<OwnedValue>,
    step: Step,
)
    requires
        send_owned_step(send, owned, step),
        total(owned) >= send.amt_rgb,
    ensures
        ({
            let n = needed(owned, send.amt_rgb as int) as int;
            &&& n <= owned.len()
            &&& n > 0 ==> total(owned.take(n - 1)) < send.amt_rgb
            &&& step matches Step::SendChange(c) ==> {
                &&& c.change > 0
                &&& total(owned.take(n)) == send.amt_rgb + c.change
                &&& c.inputs@ == outpoints(owned.take(n))
            }
            &&& step matches Step::SendBuild(b) ==> {
                &&& total(owned.take(n)) == send.amt_rgb
                &&& b.inputs@ == outpoints(owned.take(n))
            }
        }),
{
    crate::utxos::law_selection_is_enough_and_least(owned, send.amt_rgb as nat);
}

/// What comes back of a transfer.
pub open spec fn comes_back(change: Option<Allocation>) -> nat {
    match change {
        Some(a) => a.value as nat,
        None => 0,
    }
}

/// A line with `issueasset` has an asset issued if and only if it names an amount, an
/// ASCII ticker, an ASCII name and a precision. It is issued as named, on the first
/// output without an asset, which is marked and no other.
pub proof fn law_assets_are_issued_as_named(
    line: Chars,
    w: Seq<Chars>,
    settings: Settings,
    utxos: Seq<RgbUtxo>,
    free: int,
    mark: int,
    named: Step,
    on: Step,
)
    requires
        words(line) == w,
        w.len() > 0,
        w[0] == "issueasset"@,
        request_step(line, settings, named),
        comes_first(utxos, free, mark),
        named matches Step::IssueAsset(a) ==> issue_on_step(
            a,
            utxos,
            settings.no_available_utxos@,
            on,
        ),
        named !is IssueAsset ==> on == named,
    ensures
        on is IssueContract <==> w.len() >= 5 && number(w[1], u64::MAX as nat) is Ok
            && is_ascii_chars(w[2]) && is_ascii_chars(w[3]) && number(w[4], u8::MAX as nat) is Ok,
        on !is IssueContract ==> on is Reply,
        on matches Step::IssueContract(c) ==> {
            &&& number(w[1], u64::MAX as nat)->Ok_0 == c.asset.amount
            &&& c.asset.ticker@ == w[2]
            &&& c.asset.name@ == w[3]
            &&& number(w[4], u8::MAX as nat)->Ok_0 == c.asset.precision
            &&& c.outpoint == utxos[free].outpoint
            &&& c.utxos@ == utxos.update(
                mark,
                RgbUtxo { outpoint: utxos[free].outpoint, colored: true },
            )
        },
{
    law_words_stand_for_commands(w[0]);
    law_the_first_is_reserved(utxos, free, mark);
}

/// Where every output carries an asset, none is issued, none is received, and nothing is
/// sent that leaves change.
pub proof fn law_no_output_no_asset(
    asset: IssueAsset,
    transfer: SendChange,
    utxos: Seq<RgbUtxo>,
    settings: Settings,
    issuing: Step,
    sending: Step,
    receiving: Step,
)
    requires
        forall|j: int| 0 <= j < utxos.len() ==> (#[trigger] utxos[j]).colored,
        issue_on_step(asset, utxos, settings.no_available_utxos@, issuing),
        change_step(transfer, utxos, settings.no_available_utxos@, sending),
        receive_step(utxos, settings.no_available_utxos@, receiving),
    ensures
        issuing.answers("ERROR: "@ + settings.no_available_utxos@),
        sending.answers("ERROR: "@ + settings.no_available_utxos@),
        receiving.answers(settings.no_available_utxos@),
{
    law_reserve_fails_when_all_colored(utxos);
}

/// The id of a new asset is shown so that the asset is found by it: in place of the id,
/// in a line with `assetbalance`, the response names the asset that was issued.
pub proof fn law_issued_assets_are_found(
    id: [u8; 32],
    shown: Step,
    line: Chars,
    w: Seq<Chars>,
    settings: Settings,
    asked: Step,
)
    requires
        issued_step(id@, shown),
        contract_id(contract_id_chars(id@)) == Some(id@),
        words(line) == w,
        w.len() >= 2,
        w[0] == "assetbalance"@,
        shown matches Step::Reply(r) ==> r.response@ == "Asset ID: "@ + w[1],
        request_step(line, settings, asked),
    ensures
        asked matches Step::AssetBalance(a) && a.contract_id@ == id@,
{
    law_words_stand_for_commands(w[0]);
    let before = "Asset ID: "@;
    let shown_id = contract_id_chars(id@);
    assert((before + w[1]).skip(before.len() as int) == w[1]);
    assert((before + shown_id).skip(before.len() as int) == shown_id);
}

/// A line with `assetbalance` has the asset counted that it names, if it names one, and
/// shows the count.
pub proof fn law_assets_are_counted(
    line: Chars,
    w: Seq<Chars>,
    settings: Settings,
    amount: Result<u64, Chars>,
    asked: Step,
    shown: Step,
)
    requires
        words(line) == w,
        w.len() > 0,
        w[0] == "assetbalance"@,
        request_step(line, settings, asked),
        asked is AssetBalance ==> balance_step(amount, shown),
        asked !is AssetBalance ==> shown == asked,
    ensures
        asked is AssetBalance <==> w.len() >= 2 && contract_id(w[1]) is Some,
        asked matches Step::AssetBalance(a) ==> contract_id(w[1]) == Some(a.contract_id@),
        shown is Reply,
        asked is AssetBalance ==> match amount {
            Ok(n) => shown.answers("Asset balance: "@ + decimal(n as nat)),
            Err(e) => shown.answers("ERROR: "@ + e),
        },
{
    law_words_stand_for_commands(w[0]);
}

/// A line with `sendasset` has a transfer made if and only if it names an asset, an
/// amount that there is of it, and a blinded output. The transfer is of that asset and
/// that amount to that output; it spends the first outputs that carry the asset, no
/// more of them than it takes; and what they carry is the amount sent and what comes
/// back, which is put on the first output without an asset.
pub proof fn law_assets_are_sent_as_named(
    line: Chars,
    w: Seq<Chars>,
    settings: Settings,
    have: u64,
    owned: Seq<OwnedValue>,
    utxos: Seq<RgbUtxo>,
    free: int,
    mark: int,
    s0: Step,
    s1: Step,
    s2: Step,
    s3: Step,
    s4: Step,
)
    requires
        words(line) == w,
        w.len() > 0,
        w[0] == "sendasset"@,
        total(owned) == have,
        comes_first(utxos, free, mark),
        request_step(line, settings, s0),
        s0 matches Step::SendTotal(a) ==> send_counted_step(a, Ok(have), s1),
        s0 !is SendTotal ==> s1 == s0,
        s1 matches Step::SendOwned(a) ==> send_owned_step(a, owned, s2),
        s1 !is SendOwned ==> s2 == s1,
        s2 matches Step::SendChange(c) ==> change_step(
            c,
            utxos,
            settings.no_available_utxos@,
            s3,
        ),
        s2 !is SendChange ==> s3 == s2,
        s3 matches Step::SendBuild(b) ==> built_step(
            b,
            concealed_seal(b.send.blinded_utxo@),
            settings.ldk_data_dir@,
            s4,
        ),
        s3 !is SendBuild ==> s4 == s3,
    ensures
        s4 is SendTransfer <==> {
            &&& w.len() >= 4
            &&& contract_id(w[1]) is Some
            &&& number(w[2], u64::MAX as nat) matches Ok(amount) && amount <= have
            &&& concealed_seal(w[3]) is Some
        },
        s4 !is SendTransfer ==> s4 is Reply,
        s4 matches Step::SendTransfer(t) ==> {
            let n = t.inputs@.len() as int;
            &&& contract_id(w[1]) == Some(t.send.contract_id@)
            &&& number(w[2], u64::MAX as nat)->Ok_0 == t.send.amt_rgb
            &&& t.send.blinded_utxo@ == w[3]
            &&& concealed_seal(w[3]) == Some(t.beneficiary@)
            &&& t.consignment_path@ == settings.ldk_data_dir@ + "/consignment"@
            &&& n <= owned.len()
            &&& forall|i: int| 0 <= i < n ==> #[trigger] t.inputs@[i] == owned[i].outpoint
            &&& total(owned.take(n)) == t.send.amt_rgb + comes_back(t.change)
            &&& n > 0 ==> total(owned.take(n - 1)) < t.send.amt_rgb
            &&& t.change matches Some(a) ==> {
                &&& a.value > 0
                &&& a.seal.method == CloseMethod::OpretFirst
                &&& a.seal.txid == Some(utxos[free].outpoint.txid)
                &&& a.seal.vout == utxos[free].outpoint.vout
            }
            &&& s3 matches Step::SendBuild(b) && match t.change {
                Some(_) => b.save matches Some(saved) && saved@ == utxos.update(
                    mark,
                    RgbUtxo { outpoint: utxos[free].outpoint, colored: true },
                ),
                None => b.save is None,
            }
        },
{
    law_words_stand_for_commands(w[0]);
    law_the_first_is_reserved(utxos, free, mark);
    if s1 is SendOwned {
        let send = s1->SendOwned_0;
        crate::utxos::law_selection_is_enough_and_least(owned, send.amt_rgb as nat);
        let n = needed(owned, send.amt_rgb as int) as int;
        assert(owned == owned.take(n) + owned.skip(n));
        crate::utxos::law_total_adds_up(owned.take(n), owned.skip(n), owned[0]);
    }
}

/// A step of a transfer comes after the step before it and after no other.
proof fn lemma_before_a_transfer(settings: Settings, before: Step, after: Step)
    requires
        comes_next(settings, before, after),
    ensures
        after !is SendTotal,
        after is SendOwned ==> before is SendTotal,
        after is SendChange ==> before is SendOwned,
        after is SendBuild ==> before is SendOwned || before is SendChange,
        after is SendTransfer ==> before is SendBuild,
        after is SendFinish ==> before is SendTransfer,
{
}

/// Nothing of the asset is lost over a whole run: of every transfer that a line leads to,
/// what its inputs carry is the amount that the line names and what comes back in the
/// transfer itself, on an output that was set aside and carried no asset.
pub proof fn law_transfers_keep_the_sum(
    line: Chars,
    settings: Settings,
    steps: Seq<Step>,
    t: SendTransfer,
    owned: Seq<OwnedValue>,
    utxos: Seq<RgbUtxo>,
)
    requires
        is_run(line, settings, steps),
        steps.last() == Step::SendTransfer(t),
        steps.len() > 2 && steps[1] is SendOwned ==> send_owned_step(
            steps[1]->SendOwned_0,
            owned,
            steps[2],
        ),
        steps.len() > 3 && steps[2] is SendChange ==> change_step(
            steps[2]->SendChange_0,
            utxos,
            settings.no_available_utxos@,
            steps[3],
        ),
    ensures
        ({
            let w = words(line);
            let n = t.inputs@.len() as int;
            &&& w.len() >= 4
            &&& w[0] == "sendasset"@
            &&& contract_id(w[1]) == Some(t.send.contract_id@)
            &&& number(w[2], u64::MAX as nat) matches Ok(amount) && amount == t.send.amt_rgb
            &&& concealed_seal(w[3]) == Some(t.beneficiary@)
            &&& n <= owned.len()
            &&& forall|i: int| 0 <= i < n ==> #[trigger] t.inputs@[i] == owned[i].outpoint
            &&& total(owned.take(n)) == t.send.amt_rgb + comes_back(t.change)
            &&& t.change matches Some(a) ==> a.value > 0 && exists|k: int|
                0 <= k < utxos.len() && !(#[trigger] utxos[k]).colored && a.seal.txid == Some(
                    utxos[k].outpoint.txid,
                ) && a.seal.vout == utxos[k].outpoint.vout
        }),
{
    let n = steps.len() as int;
    lemma_steps_of_a_transfer(line, settings, steps, n - 1);
    law_words_stand_for_commands(words(line)[0]);
    assert(comes_next(settings, steps[0], steps[1]));
    assert(comes_next(settings, steps[n - 2], steps[n - 2 + 1]));
    let send = steps[1]->SendOwned_0;
    let taken = needed(owned, send.amt_rgb as int) as int;
    crate::utxos::lemma_needed(owned, send.amt_rgb as int);
    assert(outpoints(owned.take(taken)).len() == taken);
    if reserved(utxos) is Some {
        law_reserve_takes_uncolored(utxos);
    }
}

/// The steps of a run up to a transfer.
proof fn lemma_steps_of_a_transfer(line: Chars, settings: Settings, steps: Seq<Step>, i: int)
    requires
        is_run(line, settings, steps),
        0 <= i < steps.len(),
    ensures
        steps[i] is SendTotal ==> i == 0,
        steps[i] is SendOwned ==> i == 1 && steps[0] is SendTotal,
        steps[i] is SendChange ==> i == 2 && steps[0] is SendTotal && steps[1] is SendOwned,
        steps[i] is SendBuild || steps[i] is SendTransfer || steps[i] is SendFinish ==> {
            &&& steps[0] is SendTotal
            &&& steps[1] is SendOwned
            &&& steps[2] is SendChange || steps[2] is SendBuild
        },
        steps[i] is SendBuild ==> i == 2 || (i == 3 && steps[2] is SendChange),
        steps[i] is SendTransfer ==> (i == 3 && steps[2] is SendBuild) || (i == 4 && steps[2]
            is SendChange && steps[3] is SendBuild),
        steps[i] is SendFinish ==> (i == 4 && steps[2] is SendBuild) || (i == 5 && steps[2]
            is SendChange && steps[3] is SendBuild),
    decreases i,
{
    if i > 0 {
        lemma_steps_of_a_transfer(line, settings, steps, i - 1);
        assert(comes_next(settings, steps[i - 1], steps[i - 1 + 1]));
        lemma_before_a_transfer(settings, steps[i - 1], steps[i]);
    }
}

/// A transfer is sent off if and only if its consignment was taken by the proxy, and
/// then its transaction is shown by the id that it has.
pub proof fn law_transfers_are_sent_once_posted(
    t: SendTransfer,
    reply: Result<Option<bool>, Chars>,
    txid: [u8; 32],
    posted: Step,
    sent: Step,
)
    requires
        posted_step(t, reply, posted),
        posted is SendFinish ==> sent_step(txid@, sent),
        posted !is SendFinish ==> sent == posted,
    ensures
        posted is SendFinish <==> reply is Ok && reply->Ok_0 is Some,
        posted matches Step::SendFinish(f) ==> f.send == t.send && sent.answers(
            "RGB send complete, txid: "@ + hex(txid@.reverse()),
        ),
        posted !is SendFinish ==> sent.answers("ERROR: unable to post consignment"@),
{
}

/// A line with `receiveasset` blinds the first output without an asset, which is marked
/// and no other. What is shown is the concealed form of the seal that is written down,
/// and an asset can be sent to it.
pub proof fn law_the_first_output_is_blinded(
    line: Chars,
    w: Seq<Chars>,
    settings: Settings,
    utxos: Seq<RgbUtxo>,
    free: int,
    mark: int,
    asked: Step,
    blinded: Step,
    shown: Step,
)
    requires
        words(line) == w,
        w.len() > 0,
        w[0] == "receiveasset"@,
        comes_first(utxos, free, mark),
        request_step(line, settings, asked),
        asked is ReceiveAsset ==> receive_step(utxos, settings.no_available_utxos@, blinded),
        blinded matches Step::SaveBlinded(s) ==> blinded_saved_step(s, shown),
    ensures
        blinded matches Step::SaveBlinded(s) && {
            &&& s.utxos@ == utxos.update(
                mark,
                RgbUtxo { outpoint: utxos[free].outpoint, colored: true },
            )
            &&& s.info.contract_id is None
            &&& !s.info.consumed
            &&& s.info.seal.method == CloseMethod::OpretFirst
            &&& s.info.seal.txid == Some(utxos[free].outpoint.txid)
            &&& s.info.seal.vout == utxos[free].outpoint.vout
            &&& s.blinded_utxo@ == concealed_chars(
                true,
                Some(utxos[free].outpoint.txid@),
                utxos[free].outpoint.vout,
                s.info.seal.blinding,
            )
            &&& concealed_seal(s.blinded_utxo@) is Some
            &&& shown.answers("Blinded UTXO: "@ + s.blinded_utxo@)
        },
{
    law_words_stand_for_commands(w[0]);
    law_the_first_is_reserved(utxos, free, mark);
}

/// Where a line with `sendasset` names more than there is, it is told how much there is;
/// where it names no amount, what is wrong with its word; and where the asset cannot be
/// counted, why.
pub proof fn law_refused_transfers_are_explained(
    line: Chars,
    w: Seq<Chars>,
    settings: Settings,
    have: Result<u64, Chars>,
    asked: Step,
    counted: Step,
)
    requires
        words(line) == w,
        w.len() >= 4,
        w[0] == "sendasset"@,
        contract_id(w[1]) is Some,
        request_step(line, settings, asked),
        asked matches Step::SendTotal(a) ==> send_counted_step(a, have, counted),
        asked !is SendTotal ==> counted == asked,
    ensures
        match (number(w[2], u64::MAX as nat), have) {
            (Err(f), _) => counted.answers("ERROR: couldn't parse amt_rgb: "@ + fault_text(f)),
            (Ok(_), Err(e)) => counted.answers("ERROR: "@ + e),
            (Ok(amount), Ok(n)) => if amount > n {
                counted.answers("ERROR: you only have "@ + decimal(n as nat) + " RGB"@)
            } else {
                counted is SendOwned
            },
        },
{
    law_words_stand_for_commands(w[0]);
}

} // verus!
