//! Requests: one line of text each, which begins with a command.
use vstd::prelude::*;

use crate::assets::{
    asset_balance, asset_balance_step, issue_asset, issue_asset_step, send_asset,
    send_asset_step,
};
use crate::channels::{
    balance, list_channels, list_channels_chars, list_peers, list_peers_chars, local_balance,
    node_info, node_info_chars, ChannelDetails,
};
use crate::closing::{
    close_channel, close_channel_step, force_close_channel, force_close_channel_step,
};
use crate::hex_utils::compressed_pubkey;
use crate::help::{help, help_chars};
use crate::invoices::{
    ask_invoice_status, generate_test_preimage, get_hodl_invoice, get_hodl_invoice_step,
    get_invoice, get_invoice_step, invoice_status_step, settle_hodl_invoice,
    settle_hodl_invoice_step, shows_test_preimage,
};
use crate::messages::{
    begin_sign_message, keys_of, send_onion_message, send_onion_message_step, sign_message_step,
};
use crate::onchain::{mine, mine_step};
use crate::opening::{open_channel, open_channel_step};
use crate::paying::{keysend, keysend_step, send_payment, send_payment_step};
use crate::payments::{list_chars, list_payments, PaymentEntry, PaymentInfoStorage};
use crate::peers::{
    connect_peer, connect_peer_step, disconnect_peer, disconnect_peer_step, key_or_reason,
};
use crate::step::{abort, announce, answer, Settings, Step};
use crate::text::{
    is_white, law_trailing_white_space, same_text, split_on, split_whitespace, words, Chars,
};
use crate::trusted::contract_id;

verus! {

/// What a request asks for.
#[derive(Clone, Copy, Debug, PartialEq, Eq, Structural)]
pub enum Command {
    Help,
    Mine,
    ListUnspent,
    GetAddress,
    CreateUtxos,
    IssueAsset,
    AssetBalance,
    SendAsset,
    ReceiveAsset,
    Refresh,
    OpenChannel,
    SendPayment,
    Keysend,
    GetInvoice,
    GenerateTestPreimage,
    SettleHodlInvoice,
    GetHodlInvoice,
    ConnectPeer,
    DisconnectPeer,
    ListChannels,
    ListPayments,
    InvoiceStatus,
    CloseChannel,
    ForceCloseChannel,
    NodeInfo,
    ListPeers,
    SignMessage,
    SendOnionMessage,
    Quit,
    Unknown,
}

/// The command that a word stands for.
pub open spec fn command(word: Chars) -> Command {
    if word == "help"@ {
        Command::Help
    } else if word == "mine"@ {
        Command::Mine
    } else if word == "listunspent"@ {
        Command::ListUnspent
    } else if word == "getaddress"@ {
        Command::GetAddress
    } else if word == "createutxos"@ {
        Command::CreateUtxos
    } else if word == "issueasset"@ {
        Command::IssueAsset
    } else if word == "assetbalance"@ {
        Command::AssetBalance
    } else if word == "sendasset"@ {
        Command::SendAsset
    } else if word == "receiveasset"@ {
        Command::ReceiveAsset
    } else if word == "refresh"@ {
        Command::Refresh
    } else if word == "openchannel"@ {
        Command::OpenChannel
    } else if word == "sendpayment"@ {
        Command::SendPayment
    } else if word == "keysend"@ {
        Command::Keysend
    } else if word == "getinvoice"@ {
        Command::GetInvoice
    } else if word == "generatetestpreimage"@ {
        Command::GenerateTestPreimage
    } else if word == "settlehodlinvoice"@ {
        Command::SettleHodlInvoice
    } else if word == "gethodlinvoice"@ {
        Command::GetHodlInvoice
    } else if word == "connectpeer"@ {
        Command::ConnectPeer
    } else if word == "disconnectpeer"@ {
        Command::DisconnectPeer
    } else if word == "listchannels"@ {
        Command::ListChannels
    } else if word == "listpayments"@ {
        Command::ListPayments
    } else if word == "invoicestatus"@ {
        Command::InvoiceStatus
    } else if word == "closechannel"@ {
        Command::CloseChannel
    } else if word == "forceclosechannel"@ {
        Command::ForceCloseChannel
    } else if word == "nodeinfo"@ {
        Command::NodeInfo
    } else if word == "listpeers"@ {
        Command::ListPeers
    } else if word == "signmessage"@ {
        Command::SignMessage
    } else if word == "sendonionmessage"@ {
        Command::SendOnionMessage
    } else if word == "quit"@ || word == "exit"@ {
        Command::Quit
    } else {
        Command::Unknown
    }
}

/// Finds the command that a word stands for.
pub fn find_command(word: &str) -> (r: Command)
    ensures
        r == command(word@),
{
    if same_text(word, "help") {
        Command::Help
    } else if same_text(word, "mine") {
        Command::Mine
    } else if same_text(word, "listunspent") {
        Command::ListUnspent
    } else if same_text(word, "getaddress") {
        Command::GetAddress
    } else if same_text(word, "createutxos") {
        Command::CreateUtxos
    } else if same_text(word, "issueasset") {
        Command::IssueAsset
    } else if same_text(word, "assetbalance") {
        Command::AssetBalance
    } else if same_text(word, "sendasset") {
        Command::SendAsset
    } else if same_text(word, "receiveasset") {
        Command::ReceiveAsset
    } else if same_text(word, "refresh") {
        Command::Refresh
    } else if same_text(word, "openchannel") {
        Command::OpenChannel
    } else if same_text(word, "sendpayment") {
        Command::SendPayment
    } else if same_text(word, "keysend") {
        Command::Keysend
    } else if same_text(word, "getinvoice") {
        Command::GetInvoice
    } else if same_text(word, "generatetestpreimage") {
        Command::GenerateTestPreimage
    } else if same_text(word, "settlehodlinvoice") {
        Command::SettleHodlInvoice
    } else if same_text(word, "gethodlinvoice") {
        Command::GetHodlInvoice
    } else if same_text(word, "connectpeer") {
        Command::ConnectPeer
    } else if same_text(word, "disconnectpeer") {
        Command::DisconnectPeer
    } else if same_text(word, "listchannels") {
        Command::ListChannels
    } else if same_text(word, "listpayments") {
        Command::ListPayments
    } else if same_text(word, "invoicestatus") {
        Command::InvoiceStatus
    } else if same_text(word, "closechannel") {
        Command::CloseChannel
    } else if same_text(word, "forceclosechannel") {
        Command::ForceCloseChannel
    } else if same_text(word, "nodeinfo") {
        Command::NodeInfo
    } else if same_text(word, "listpeers") {
        Command::ListPeers
    } else if same_text(word, "signmessage") {
        Command::SignMessage
    } else if same_text(word, "sendonionmessage") {
        Command::SendOnionMessage
    } else if same_text(word, "quit") || same_text(word, "exit") {
        Command::Quit
    } else {
        Command::Unknown
    }
}

/// What becomes of a request whose words are `w`, the first of them its command.
pub open spec fn command_step(
    line: Chars,
    w: Seq<Chars>,
    settings: Settings,
    step: Step,
) -> bool {
    match command(w[0]) {
        Command::Help => step.replies(
            help_chars(settings.package_name@, settings.package_version@),
            "help"@,
        ),
        Command::Mine => mine_step(w, settings.network, step),
        Command::ListUnspent => step == Step::ListUnspent,
        Command::GetAddress => step == Step::GetAddress,
        Command::CreateUtxos => step == Step::ReadFunds,
        Command::IssueAsset => issue_asset_step(w, step),
        Command::AssetBalance => asset_balance_step(w, contract_id(w[1]), step),
        Command::SendAsset => send_asset_step(w, contract_id(w[1]), step),
        Command::ReceiveAsset => step == Step::ReceiveAsset,
        Command::Refresh => step == Step::RefreshNext,
        Command::OpenChannel => open_channel_step(w, step),
        Command::SendPayment => send_payment_step(w, step),
        Command::Keysend => keysend_step(
            w,
            compressed_pubkey(w[1]),
            contract_id(w[3]),
            step,
        ),
        Command::GetInvoice => get_invoice_step(
            w,
            contract_id(w[3]),
            settings.network,
            step,
        ),
        Command::GenerateTestPreimage => shows_test_preimage(step),
        Command::SettleHodlInvoice => settle_hodl_invoice_step(w, step),
        Command::GetHodlInvoice => get_hodl_invoice_step(
            w,
            contract_id(w[3]),
            settings.network,
            step,
        ),
        Command::ConnectPeer => connect_peer_step(w, step),
        Command::DisconnectPeer => disconnect_peer_step(w, key_or_reason(w[1]), step),
        Command::ListChannels => step == Step::ListChannels,
        Command::ListPayments => step == Step::ListPayments,
        Command::InvoiceStatus => invoice_status_step(w, step),
        Command::CloseChannel => close_channel_step(w, step),
        Command::ForceCloseChannel => force_close_channel_step(w, step),
        Command::NodeInfo => step == Step::NodeInfo,
        Command::ListPeers => step == Step::ListPeers,
        Command::SignMessage => sign_message_step(line, step),
        Command::SendOnionMessage => send_onion_message_step(
            w,
            keys_of(split_on(w[1], ',')),
            step,
        ),
        Command::Quit => step.answers("quitting"@),
        Command::Unknown => step.answers(
            "Unknown command. See `\"help\" for available commands."@,
        ),
    }
}

/// What becomes of a request.
pub open spec fn request_step(line: Chars, settings: Settings, step: Step) -> bool {
    let w = words(line);
    if w.len() == 0 {
        step.answers("No command entered. See `\"help\" for available commands."@)
    } else {
        command_step(line, w, settings, step)
    }
}

/// Begins a request.
pub fn handle_request(line: &str, settings: &Settings) -> (step: Step)
    ensures
        request_step(line@, *settings, step),
{
    let words = split_whitespace(line);
    if words.len() == 0 {
        return answer("No command entered. See `\"help\" for available commands.");
    }
    match find_command(&words[0]) {
        Command::Help => help(settings),
        Command::Mine => mine(&words, settings.network),
        Command::ListUnspent => Step::ListUnspent,
        Command::GetAddress => Step::GetAddress,
        Command::CreateUtxos => Step::ReadFunds,
        Command::IssueAsset => issue_asset(&words),
        Command::AssetBalance => asset_balance(&words),
        Command::SendAsset => send_asset(&words),
        Command::ReceiveAsset => Step::ReceiveAsset,
        Command::Refresh => Step::RefreshNext,
        Command::OpenChannel => open_channel(&words),
        Command::SendPayment => send_payment(&words),
        Command::Keysend => keysend(&words),
        Command::GetInvoice => get_invoice(&words, settings.network),
        Command::GenerateTestPreimage => generate_test_preimage(),
        Command::SettleHodlInvoice => settle_hodl_invoice(&words),
        Command::GetHodlInvoice => get_hodl_invoice(&words, settings.network),
        Command::ConnectPeer => connect_peer(&words),
        Command::DisconnectPeer => disconnect_peer(&words),
        Command::ListChannels => Step::ListChannels,
        Command::ListPayments => Step::ListPayments,
        Command::InvoiceStatus => ask_invoice_status(&words),
        Command::CloseChannel => close_channel(&words),
        Command::ForceCloseChannel => force_close_channel(&words),
        Command::NodeInfo => Step::NodeInfo,
        Command::ListPeers => Step::ListPeers,
        Command::SignMessage => begin_sign_message(line),
        Command::SendOnionMessage => send_onion_message(&words),
        Command::Quit => answer("quitting"),
        Command::Unknown => answer("Unknown command. See `\"help\" for available commands."),
    }
}

/// What is replied once the channels are known.
pub open spec fn list_channels_step(channels: Seq<ChannelDetails>, step: Step) -> bool {
    step.answers(list_channels_chars(channels))
}

/// What is replied by the payments that there are.
pub open spec fn list_payments_step(
    inbound: Seq<PaymentEntry>,
    outbound: Seq<PaymentEntry>,
    step: Step,
) -> bool {
    step.answers(list_chars(inbound, outbound))
}

/// What is replied once the peers are known.
pub open spec fn list_peers_step(peers: Seq<[u8; 33]>, step: Step) -> bool {
    step.replies(list_peers_chars(peers) + "\n"@, list_peers_chars(peers))
}

/// Goes on with `listchannels` once the channels are known.
pub fn channels_listed(channels: &Vec<ChannelDetails>) -> (step: Step)
    ensures
        list_channels_step(channels@, step),
{
    answer(&list_channels(channels))
}

/// Goes on with `listpayments`.
pub fn payments_listed(inbound: &PaymentInfoStorage, outbound: &PaymentInfoStorage) -> (step: Step)
    ensures
        list_payments_step(inbound@, outbound@, step),
{
    answer(&list_payments(inbound, outbound))
}

/// What is replied once node, channels and peers are known.
pub open spec fn node_info_step(
    node_id: Seq<u8>,
    channels: Seq<ChannelDetails>,
    num_peers: nat,
    step: Step,
) -> bool {
    if balance(channels) <= u64::MAX {
        step.replies(
            node_info_chars(node_id, channels, num_peers) + "\n"@,
            node_info_chars(node_id, channels, num_peers),
        )
    } else {
        step.aborts("attempt to add with overflow"@)
    }
}

/// Goes on with `nodeinfo` once node, channels and peers are known.
pub fn node_summed_up(
    node_id: &[u8; 33],
    channels: &Vec<ChannelDetails>,
    peers: &Vec<[u8; 33]>,
) -> (step: Step)
    ensures
        node_info_step(node_id@, channels@, peers@.len(), step),
{
    match local_balance(channels) {
        Some(_) => announce(&node_info(node_id, channels, peers)),
        None => abort("attempt to add with overflow"),
    }
}

/// Goes on with `listpeers` once the peers are known.
pub fn peers_listed(peers: &Vec<[u8; 33]>) -> (step: Step)
    ensures
        list_peers_step(peers@, step),
{
    announce(&list_peers(peers))
}

/// Only the words of a line matter, but for a message to be signed.
pub proof fn law_words_decide(a: Chars, b: Chars, settings: Settings, step: Step)
    requires
        words(a) == words(b),
        words(a).len() > 0 ==> command(words(a)[0]) != Command::SignMessage,
    ensures
        request_step(a, settings, step) <==> request_step(b, settings, step),
{
}

/// A line of white space asks for nothing.
pub proof fn law_blank_line(line: Chars, settings: Settings, step: Step)
    requires
        forall|i: int| 0 <= i < line.len() ==> is_white(#[trigger] line[i]),
        request_step(line, settings, step),
    ensures
        step.answers("No command entered. See `\"help\" for available commands."@),
{
    law_trailing_white_space(Seq::empty(), line);
    assert(Seq::<char>::empty() + line == line);
}

/// Every command has a word of its own; only the end of the dialogue has two.
pub proof fn law_words_stand_for_commands(word: Chars)
    ensures
        command(word) == Command::Help <==> word == "help"@,
        command(word) == Command::Mine <==> word == "mine"@,
        command(word) == Command::ListUnspent <==> word == "listunspent"@,
        command(word) == Command::GetAddress <==> word == "getaddress"@,
        command(word) == Command::CreateUtxos <==> word == "createutxos"@,
        command(word) == Command::IssueAsset <==> word == "issueasset"@,
        command(word) == Command::AssetBalance <==> word == "assetbalance"@,
        command(word) == Command::SendAsset <==> word == "sendasset"@,
        command(word) == Command::ReceiveAsset <==> word == "receiveasset"@,
        command(word) == Command::Refresh <==> word == "refresh"@,
        command(word) == Command::OpenChannel <==> word == "openchannel"@,
        command(word) == Command::SendPayment <==> word == "sendpayment"@,
        command(word) == Command::Keysend <==> word == "keysend"@,
        command(word) == Command::GetInvoice <==> word == "getinvoice"@,
        command(word) == Command::GenerateTestPreimage <==> word == "generatetestpreimage"@,
        command(word) == Command::SettleHodlInvoice <==> word == "settlehodlinvoice"@,
        command(word) == Command::GetHodlInvoice <==> word == "gethodlinvoice"@,
        command(word) == Command::ConnectPeer <==> word == "connectpeer"@,
        command(word) == Command::DisconnectPeer <==> word == "disconnectpeer"@,
        command(word) == Command::ListChannels <==> word == "listchannels"@,
        command(word) == Command::ListPayments <==> word == "listpayments"@,
        command(word) == Command::InvoiceStatus <==> word == "invoicestatus"@,
        command(word) == Command::CloseChannel <==> word == "closechannel"@,
        command(word) == Command::ForceCloseChannel <==> word == "forceclosechannel"@,
        command(word) == Command::NodeInfo <==> word == "nodeinfo"@,
        command(word) == Command::ListPeers <==> word == "listpeers"@,
        command(word) == Command::SignMessage <==> word == "signmessage"@,
        command(word) == Command::SendOnionMessage <==> word == "sendonionmessage"@,
        command(word) == Command::Quit <==> word == "quit"@ || word == "exit"@,
{
    reveal_strlit("help");
    assert("help"@.len() == 4);
    reveal_strlit("mine");
    assert("mine"@.len() == 4);
    reveal_strlit("listunspent");
    assert("listunspent"@.len() == 11);
    reveal_strlit("getaddress");
    assert("getaddress"@.len() == 10);
    reveal_strlit("createutxos");
    assert("createutxos"@.len() == 11);
    reveal_strlit("issueasset");
    assert("issueasset"@.len() == 10);
    reveal_strlit("assetbalance");
    assert("assetbalance"@.len() == 12);
    reveal_strlit("sendasset");
    assert("sendasset"@.len() == 9);
    reveal_strlit("receiveasset");
    assert("receiveasset"@.len() == 12);
    reveal_strlit("refresh");
    assert("refresh"@.len() == 7);
    reveal_strlit("openchannel");
    assert("openchannel"@.len() == 11);
    reveal_strlit("sendpayment");
    assert("sendpayment"@.len() == 11);
    reveal_strlit("keysend");
    assert("keysend"@.len() == 7);
    reveal_strlit("getinvoice");
    assert("getinvoice"@.len() == 10);
    reveal_strlit("generatetestpreimage");
    assert("generatetestpreimage"@.len() == 20);
    reveal_strlit("settlehodlinvoice");
    assert("settlehodlinvoice"@.len() == 17);
    reveal_strlit("gethodlinvoice");
    assert("gethodlinvoice"@.len() == 14);
    reveal_strlit("connectpeer");
    assert("connectpeer"@.len() == 11);
    reveal_strlit("disconnectpeer");
    assert("disconnectpeer"@.len() == 14);
    reveal_strlit("listchannels");
    assert("listchannels"@.len() == 12);
    reveal_strlit("listpayments");
    assert("listpayments"@.len() == 12);
    reveal_strlit("invoicestatus");
    assert("invoicestatus"@.len() == 13);
    reveal_strlit("closechannel");
    assert("closechannel"@.len() == 12);
    reveal_strlit("forceclosechannel");
    assert("forceclosechannel"@.len() == 17);
    reveal_strlit("nodeinfo");
    assert("nodeinfo"@.len() == 8);
    reveal_strlit("listpeers");
    assert("listpeers"@.len() == 9);
    reveal_strlit("signmessage");
    assert("signmessage"@.len() == 11);
    reveal_strlit("sendonionmessage");
    assert("sendonionmessage"@.len() == 16);
    reveal_strlit("quit");
    assert("quit"@.len() == 4);
    reveal_strlit("exit");
    assert("exit"@.len() == 4);
    assert("help"@[0] == 'h');
    assert("mine"@[0] == 'm');
    assert("quit"@[0] == 'q');
    assert("exit"@[0] == 'e');
    assert("listunspent"@[4] == 'u');
    assert("createutxos"@[4] == 't');
    assert("openchannel"@[4] == 'c');
    assert("sendpayment"@[4] == 'p');
    assert("connectpeer"@[4] == 'e');
    assert("signmessage"@[4] == 'm');
    assert("getaddress"@[3] == 'a');
    assert("issueasset"@[3] == 'u');
    assert("getinvoice"@[3] == 'i');
    assert("assetbalance"@[4] == 't');
    assert("receiveasset"@[4] == 'i');
    assert("listchannels"@[4] == 'c');
    assert("listpayments"@[4] == 'p');
    assert("closechannel"@[4] == 'e');
    assert("sendasset"@[0] == 's');
    assert("listpeers"@[0] == 'l');
    assert("refresh"@[0] == 'r');
    assert("keysend"@[0] == 'k');
    assert("settlehodlinvoice"@[0] == 's');
    assert("forceclosechannel"@[0] == 'f');
    assert("gethodlinvoice"@[0] == 'g');
    assert("disconnectpeer"@[0] == 'd');
}

/// A command that takes no words leads to its own work, whatever stands behind it.
pub proof fn law_bare_commands_lead_to_their_work(
    line: Chars,
    w: Seq<Chars>,
    settings: Settings,
    step: Step,
)
    requires
        words(line) == w,
        w.len() > 0,
        request_step(line, settings, step),
    ensures
        step is ListUnspent <==> w[0] == "listunspent"@,
        step is GetAddress <==> w[0] == "getaddress"@,
        step is ReadFunds <==> w[0] == "createutxos"@,
        step is ReceiveAsset <==> w[0] == "receiveasset"@,
        step is RefreshNext <==> w[0] == "refresh"@,
        step is ListChannels <==> w[0] == "listchannels"@,
        step is ListPayments <==> w[0] == "listpayments"@,
        step is NodeInfo <==> w[0] == "nodeinfo"@,
        step is ListPeers <==> w[0] == "listpeers"@,
{
    law_words_stand_for_commands(w[0]);
}

/// Work is done only for the command that asks for it: every other command leads to other
/// work or to none.
pub proof fn law_work_is_asked_for(line: Chars, w: Seq<Chars>, settings: Settings, step: Step)
    requires
        words(line) == w,
        w.len() > 0,
        request_step(line, settings, step),
    ensures
        step is MineBlocks ==> w[0] == "mine"@,
        step is IssueAsset ==> w[0] == "issueasset"@,
        step is AssetBalance ==> w[0] == "assetbalance"@,
        step is SendTotal ==> w[0] == "sendasset"@,
        step is OpenResolve ==> w[0] == "openchannel"@,
        step is InvoiceAsset ==> w[0] == "sendpayment"@,
        step is KeysendEntropy ==> w[0] == "keysend"@,
        step is CreateInvoice ==> w[0] == "getinvoice"@,
        step is CreateHodlInvoice ==> w[0] == "gethodlinvoice"@,
        step is ClaimFunds ==> w[0] == "settlehodlinvoice"@,
        step is InvoiceStatus ==> w[0] == "invoicestatus"@,
        step is ConnectResolve ==> w[0] == "connectpeer"@,
        step is DisconnectPeer ==> w[0] == "disconnectpeer"@,
        step is CloseChannel ==> w[0] == "closechannel"@,
        step is ForceCloseChannel ==> w[0] == "forceclosechannel"@,
        step is SignMessage ==> w[0] == "signmessage"@,
        step is SendOnionMessage ==> w[0] == "sendonionmessage"@,
{
    law_words_stand_for_commands(w[0]);
}

/// What the end of such work gives is told: a new address is shown as it is, and mining,
/// writing outputs down and claiming say that they are done.
pub proof fn law_plain_work_is_told(
    address: Chars,
    addressed: Step,
    mined: Step,
    saved: Step,
    claimed: Step,
)
    requires
        crate::onchain::address_step(address, addressed),
        crate::onchain::mined_step(mined),
        crate::onchain::utxos_saved_step(saved),
        crate::invoices::claimed_step(claimed),
    ensures
        addressed.answers("Address: "@ + address),
        mined.answers("mined"@),
        saved.answers("UTXO creation complete"@),
        claimed.answers(
            "Payment claim seems to have succeeded! The invoice should be settled"@,
        ),
{
}

} // verus!
