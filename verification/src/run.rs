//! The run of a request from its line to its reply.
use vstd::prelude::*;

use crate::assets::{
    balance_step, blinded_saved_step, built_step, change_step, issue_on_step, issued_step,
    posted_step, receive_step, send_counted_step, send_owned_step, sent_step,
};
use crate::channels::ChannelDetails;
use crate::closing::{closed_step, force_closed_step};
use crate::invoices::{claimed_step, invoice_created_step, looked_up_step, CreatedInvoice};
use crate::messages::{forwarded_step, signed_step};
use crate::onchain::{
    address_step, created_step, funds_step, mined_step, unspents_step, utxos_saved_step,
};
use crate::opening::{connected_step, known_step, open_counted_step, opened_step, recorded_step};
use crate::paying::{asset_step, drawn_step, keysend_sent_step, paid_step};
use crate::payments::PaymentEntry;
use crate::peers::{
    connect_known_step, disconnect_listed_step, disconnected_step, peer_info, tried_step,
};
use crate::refresh::{asked_step, consumed_step, next_step, registered_step};
use crate::request::{
    list_channels_step, list_payments_step, list_peers_step, node_info_step, request_step,
};
use crate::step::{Settings, Step};
use crate::text::Chars;
use crate::trusted::{concealed_seal, contract_id, signed_chars};
use crate::types::{BlindedInfo, RgbUtxo};
use crate::utxos::{OwnedValue, Unspent};

verus! {

/// Whether one step of a request may come right after another: whether some outcome of
/// the work that the first asks for leads to the second. Nothing comes after a reply,
/// nor where a request cannot go on.
pub open spec fn comes_next(settings: Settings, before: Step, after: Step) -> bool {
    let dir = settings.ldk_data_dir@;
    let wording = settings.no_available_utxos@;
    match before {
        Step::Reply(_) => false,
        Step::Abort(_) => false,
        Step::MineBlocks(_) => mined_step(after),
        Step::ListUnspent => exists|unspents: Seq<Chars>| unspents_step(unspents, after),
        Step::GetAddress => exists|address: Chars| address_step(address, after),
        Step::ReadFunds => exists|utxos: Seq<RgbUtxo>, unspents: Seq<Unspent>, balance: u64|
            funds_step(utxos, unspents, balance, settings.utxo_size_sat, after),
        Step::CreateUtxos(c) => exists|txid: [u8; 32]| created_step(c, txid, after),
        Step::SaveUtxos(_) => utxos_saved_step(after),
        Step::IssueAsset(i) => exists|utxos: Seq<RgbUtxo>| issue_on_step(i, utxos, wording, after),
        Step::IssueContract(_) => exists|id: Seq<u8>| issued_step(id, after),
        Step::AssetBalance(_) => exists|amount: Result<u64, Chars>| balance_step(amount, after),
        Step::SendTotal(s) => exists|amount: Result<u64, Chars>|
            send_counted_step(s, amount, after),
        Step::SendOwned(s) => exists|owned: Seq<OwnedValue>| send_owned_step(s, owned, after),
        Step::SendChange(c) => exists|utxos: Seq<RgbUtxo>| change_step(c, utxos, wording, after),
        Step::SendBuild(b) => built_step(b, concealed_seal(b.send.blinded_utxo@), dir, after),
        Step::SendTransfer(t) => exists|reply: Result<Option<bool>, Chars>|
            posted_step(t, reply, after),
        Step::SendFinish(_) => exists|txid: Seq<u8>| sent_step(txid, after),
        Step::ReceiveAsset => exists|utxos: Seq<RgbUtxo>| receive_step(utxos, wording, after),
        Step::SaveBlinded(s) => blinded_saved_step(s, after),
        Step::RefreshNext => exists|info: Option<BlindedInfo>| next_step(info, after),
        Step::FetchConsignment(f) => exists|text: Option<Chars>| asked_step(f.info, text, after),
        Step::RegisterContract(r) => registered_step(r, after),
        Step::ConsumeTransfer(_) => exists|valid: bool| consumed_step(valid, after),
        Step::FinishRefresh => exists|info: Option<BlindedInfo>| next_step(info, after),
        Step::OpenResolve(o) => exists|address: Option<Chars>|
            known_step(
                o,
                #[trigger] peer_info(o.peer_info@, address),
                contract_id(o.contract_id@),
                after,
            ),
        Step::OpenTotal(r) => exists|amount: Result<u64, Chars>|
            open_counted_step(r, amount, after),
        Step::OpenConnect(r) => exists|success: bool|
            connected_step(r, success, settings.proxy_url@, after),
        Step::OpenChannel(o) => exists|id: Result<[u8; 32], Chars>|
            opened_step(o.request, id, dir, after),
        Step::RecordChannel(r) => recorded_step(r, after),
        Step::InvoiceAsset(p) => exists|id: Option<[u8; 32]>, amt_rgb: Option<u64>|
            asset_step(p, id, amt_rgb, after),
        Step::PayInvoice(p) => exists|sent: Result<(), Chars>| paid_step(p, sent, after),
        Step::KeysendEntropy(k) => exists|preimage: [u8; 32]| drawn_step(k, preimage, after),
        Step::KeysendPay(k) => exists|sent: Result<(), Chars>| keysend_sent_step(k, sent, after),
        Step::CreateInvoice(_) => exists|invoice: Result<CreatedInvoice, Chars>|
            invoice_created_step(invoice, after),
        Step::CreateHodlInvoice(_) => exists|invoice: Result<CreatedInvoice, Chars>|
            invoice_created_step(invoice, after),
        Step::ClaimFunds(_) => claimed_step(after),
        Step::ConnectResolve(c) => exists|address: Option<Chars>|
            connect_known_step(#[trigger] peer_info(c.peer_info@, address), after),
        Step::ConnectPeer(c) => exists|success: bool| tried_step(c, success, after),
        Step::DisconnectPeer(p) => exists|channels: Seq<ChannelDetails>, peers: Seq<[u8; 33]>|
            disconnect_listed_step(p, channels, peers, after),
        Step::Disconnect(p) => disconnected_step(p, after),
        Step::ListChannels => exists|channels: Seq<ChannelDetails>|
            list_channels_step(channels, after),
        Step::ListPayments => exists|inbound: Seq<PaymentEntry>, outbound: Seq<PaymentEntry>|
            list_payments_step(inbound, outbound, after),
        Step::InvoiceStatus(q) => exists|inbound: Seq<PaymentEntry>|
            looked_up_step(q, inbound, after),
        Step::CloseChannel(_) => exists|outcome: Result<(), Chars>| closed_step(outcome, after),
        Step::ForceCloseChannel(_) => exists|outcome: Result<(), Chars>|
            force_closed_step(outcome, after),
        Step::NodeInfo => exists|
            node_id: Seq<u8>,
            channels: Seq<ChannelDetails>,
            num_peers: nat,
        | node_info_step(node_id, channels, num_peers, after),
        Step::ListPeers => exists|peers: Seq<[u8; 33]>| list_peers_step(peers, after),
        Step::SignMessage(s) => exists|secret: Seq<u8>|
            signed_step(#[trigger] signed_chars(s.message@, secret), after),
        Step::SendOnionMessage(_) => exists|outcome: Result<(), Chars>|
            forwarded_step(outcome, after),
    }
}

/// Whether some steps are a run of the request with a line: each comes right after the
/// one before it.
pub open spec fn is_run(line: Chars, settings: Settings, steps: Seq<Step>) -> bool {
    &&& steps.len() > 0
    &&& request_step(line, settings, steps[0])
    &&& forall|i: int|
        0 <= i < steps.len() - 1 ==> comes_next(settings, #[trigger] steps[i], steps[i + 1])
}

/// Whether a run ends with the given response.
pub open spec fn responds(steps: Seq<Step>, response: Chars) -> bool {
    &&& steps.len() > 0
    &&& steps.last() matches Step::Reply(r) && r.response@ == response
}

/// A run goes no further than its first reply.
pub proof fn law_a_reply_ends_the_run(
    line: Chars,
    settings: Settings,
    steps: Seq<Step>,
    i: int,
)
    requires
        is_run(line, settings, steps),
        0 <= i < steps.len(),
        steps[i] is Reply || steps[i] is Abort,
    ensures
        i == steps.len() - 1,
{
    if i < steps.len() - 1 {
        assert(comes_next(settings, steps[i], steps[i + 1]));
    }
}

} // verus!
