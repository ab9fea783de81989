//! What ends the dialogue, and what a known command is never answered.
use vstd::prelude::*;

use crate::assets::{asset_balance_step, issue_asset_step, send_asset_step};
use crate::cli::{asks, handled};
use crate::closing::{close_channel_step, force_close_channel_step};
use crate::hex_utils::compressed_pubkey;
use crate::invoices::{
    get_hodl_invoice_step, get_invoice_step, invoice_status_step, settle_hodl_invoice_step,
    shows_test_preimage,
};
use crate::messages::{keys_of, send_onion_message_step, sign_message_step};
use crate::onchain::mine_step;
use crate::opening::open_channel_step;
use crate::paying::{keysend_step, send_payment_step};
use crate::peers::{connect_peer_step, disconnect_peer_step, key_or_reason};
use crate::request::{command, request_step, Command};
use crate::run::{comes_next, is_run, responds};
use crate::step::{Settings, Step};
use crate::text::{split_on, words, Chars};
use crate::trusted::{contract_id, reads_as_result};
use crate::types::Network;

verus! {

/// Whether a step is the reply that ends the dialogue.
pub open spec fn ends(step: Step) -> bool {
    step matches Step::Reply(r) && r.response@ == "quitting"@
}

/// Whether a step is the reply to a command that is not known.
pub open spec fn rejects(step: Step) -> bool {
    step matches Step::Reply(r) && r.response@
        == "Unknown command. See `\"help\" for available commands."@
}

/// Whether a step is neither of these two replies.
pub open spec fn ordinary(step: Step) -> bool {
    !ends(step) && !rejects(step)
}

/// Whether the wording that no output is left is neither of these two replies.
pub open spec fn worded(settings: Settings) -> bool {
    &&& settings.no_available_utxos@ != "quitting"@
    &&& settings.no_available_utxos@
        != "Unknown command. See `\"help\" for available commands."@
}

/// Whether the first word of a line is `receiveasset`.
pub open spec fn asks_to_receive(line: Chars) -> bool {
    words(line).len() > 0 && command(words(line)[0]) == Command::ReceiveAsset
}

/// Whether the first word of a line is `quit` or `exit`.
pub open spec fn asks_to_quit(line: Chars) -> bool {
    &&& words(line).len() > 0
    &&& words(line)[0] == "quit"@ || words(line)[0] == "exit"@
}

// Every other reply is empty or differs from these two in one of its first characters.

proof fn lemma_words()
    ensures
        "quitting"@.len() == 8,
        "quitting"@[0] == 'q',
        "Unknown command. See `\"help\" for available commands."@.len() > 3,
        "Unknown command. See `\"help\" for available commands."@[0] == 'U',
        "Unknown command. See `\"help\" for available commands."@[1] == 'n',
        "Unknown command. See `\"help\" for available commands."@[2] == 'k',
{
    reveal_strlit("quitting");
    reveal_strlit("Unknown command. See `\"help\" for available commands.");
}

proof fn lemma_mine(w: Seq<Chars>, network: Network, step: Step)
    requires
        mine_step(w, network, step),
    ensures
        ordinary(step),
{
    lemma_words();
    reveal_strlit("ERROR: mine command is available only on regtest");
    assert("ERROR: mine command is available only on regtest"@[0] == 'E');
    reveal_strlit("ERROR: mine has 1 required argument: `mine num_blocks`");
    assert("ERROR: mine has 1 required argument: `mine num_blocks`"@[0] == 'E');
    reveal_strlit("ERROR: num_blocks must be a number");
    assert("ERROR: num_blocks must be a number"@[0] == 'E');
}

proof fn lemma_issue_asset(w: Seq<Chars>, step: Step)
    requires
        issue_asset_step(w, step),
    ensures
        ordinary(step),
{
    lemma_words();
    reveal_strlit("ERROR: issueasset has 4 required arguments: `issueasset <amount> <ticker> <name> <precision>`");
    assert("ERROR: issueasset has 4 required arguments: `issueasset <amount> <ticker> <name> <precision>`"@[0] == 'E');
    reveal_strlit("ERROR: amount must be a number");
    assert("ERROR: amount must be a number"@[0] == 'E');
    reveal_strlit("ERROR: ticker must be an ASCII string");
    assert("ERROR: ticker must be an ASCII string"@[0] == 'E');
    reveal_strlit("ERROR: name must be an ASCII string");
    assert("ERROR: name must be an ASCII string"@[0] == 'E');
    reveal_strlit("ERROR: precision must be a number");
    assert("ERROR: precision must be a number"@[0] == 'E');
}

proof fn lemma_asset_balance(w: Seq<Chars>, id: Option<Seq<u8>>, step: Step)
    requires
        asset_balance_step(w, id, step),
    ensures
        ordinary(step),
{
    lemma_words();
    reveal_strlit("ERROR: assetbalance has 1 required argument: ``assetbalance <contract_id>``");
    assert("ERROR: assetbalance has 1 required argument: ``assetbalance <contract_id>``"@[0] == 'E');
    reveal_strlit("ERROR: contract_id must be a valid RGB asset ID");
    assert("ERROR: contract_id must be a valid RGB asset ID"@[0] == 'E');
}

proof fn lemma_send_asset(w: Seq<Chars>, id: Option<Seq<u8>>, step: Step)
    requires
        send_asset_step(w, id, step),
    ensures
        ordinary(step),
{
    lemma_words();
    reveal_strlit("ERROR: sendasset has 3 required arguments: ``sendasset <contract_id> <amt_rgb> <blinded_utxo>``");
    assert("ERROR: sendasset has 3 required arguments: ``sendasset <contract_id> <amt_rgb> <blinded_utxo>``"@[0] == 'E');
    reveal_strlit("ERROR: couldn't parse amt_rgb: ");
    assert("ERROR: couldn't parse amt_rgb: "@[0] == 'E');
    reveal_strlit("ERROR: contract_id must be a valid RGB asset ID");
    assert("ERROR: contract_id must be a valid RGB asset ID"@[0] == 'E');
}

proof fn lemma_open_channel(w: Seq<Chars>, step: Step)
    requires
        open_channel_step(w, step),
    ensures
        ordinary(step),
{
    lemma_words();
    reveal_strlit("ERROR: openchannel has 5 required arguments: `openchannel pubkey@host:port chan_amt_satoshis push_amt_msatoshis rgb_contract_id chan_amt_rgb` [--public]");
    assert("ERROR: openchannel has 5 required arguments: `openchannel pubkey@host:port chan_amt_satoshis push_amt_msatoshis rgb_contract_id chan_amt_rgb` [--public]"@[0] == 'E');
    reveal_strlit("\"");
    assert("\""@[0] == '"');
}

proof fn lemma_send_payment(w: Seq<Chars>, step: Step)
    requires
        send_payment_step(w, step),
    ensures
        ordinary(step),
{
    lemma_words();
    reveal_strlit("ERROR: sendpayment requires an invoice: `sendpayment <invoice>`");
    assert("ERROR: sendpayment requires an invoice: `sendpayment <invoice>`"@[0] == 'E');
    reveal_strlit("ERROR: msat amount in invoice cannot be less than ");
    assert("ERROR: msat amount in invoice cannot be less than "@[0] == 'E');
    reveal_strlit("ERROR: msat amount missing in invoice");
    assert("ERROR: msat amount missing in invoice"@[0] == 'E');
    reveal_strlit("ERROR: invalid invoice: ");
    assert("ERROR: invalid invoice: "@[0] == 'E');
}

proof fn lemma_keysend(w: Seq<Chars>, key: Option<Seq<u8>>, id: Option<Seq<u8>>, step: Step)
    requires
        keysend_step(w, key, id, step),
    ensures
        ordinary(step),
{
    lemma_words();
    reveal_strlit("ERROR: keysend requires a destination pubkey: ");
    assert("ERROR: keysend requires a destination pubkey: "@[0] == 'E');
    reveal_strlit("ERROR: couldn't parse destination pubkey");
    assert("ERROR: couldn't parse destination pubkey"@[0] == 'E');
    reveal_strlit("ERROR: keysend requires an amount in millisatoshis: ");
    assert("ERROR: keysend requires an amount in millisatoshis: "@[0] == 'E');
    reveal_strlit("ERROR: couldn't parse amount_msat: ");
    assert("ERROR: couldn't parse amount_msat: "@[0] == 'E');
    reveal_strlit("ERROR: amount_msat cannot be less than ");
    assert("ERROR: amount_msat cannot be less than "@[0] == 'E');
    reveal_strlit("ERROR: keysend requires a contract ID: ");
    assert("ERROR: keysend requires a contract ID: "@[0] == 'E');
    reveal_strlit("ERROR: invalid contract ID: ");
    assert("ERROR: invalid contract ID: "@[0] == 'E');
    reveal_strlit("ERROR: keysend requires an RGB amount: ");
    assert("ERROR: keysend requires an RGB amount: "@[0] == 'E');
    reveal_strlit("ERROR: couldn't parse amt_rgb: ");
    assert("ERROR: couldn't parse amt_rgb: "@[0] == 'E');
}

proof fn lemma_get_invoice(w: Seq<Chars>, id: Option<Seq<u8>>, network: Network, step: Step)
    requires
        get_invoice_step(w, id, network, step),
    ensures
        ordinary(step),
{
    lemma_words();
    reveal_strlit("ERROR: getinvoice has 4 required arguments: `getinvoice <amt_msats> <expiry_secs> <rgb_contract_id> <amt_rgb>`");
    assert("ERROR: getinvoice has 4 required arguments: `getinvoice <amt_msats> <expiry_secs> <rgb_contract_id> <amt_rgb>`"@[0] == 'E');
    reveal_strlit("ERROR: getinvoice provided payment amount was not a number");
    assert("ERROR: getinvoice provided payment amount was not a number"@[0] == 'E');
    reveal_strlit("ERROR: amt_msat cannot be less than ");
    assert("ERROR: amt_msat cannot be less than "@[0] == 'E');
    reveal_strlit("ERROR: getinvoice provided expiry was not a number");
    assert("ERROR: getinvoice provided expiry was not a number"@[0] == 'E');
    reveal_strlit("ERROR: invalid contract ID: ");
    assert("ERROR: invalid contract ID: "@[0] == 'E');
    reveal_strlit("ERROR: couldn't parse amt_rgb: ");
    assert("ERROR: couldn't parse amt_rgb: "@[0] == 'E');
}

proof fn lemma_get_hodl_invoice(w: Seq<Chars>, id: Option<Seq<u8>>, network: Network, step: Step)
    requires
        get_hodl_invoice_step(w, id, network, step),
    ensures
        ordinary(step),
{
    lemma_words();
    reveal_strlit("ERROR: getinvoice has 5 required arguments: `gethodlinvoice <amt_msats> <expiry_secs> <rgb_contract_id> <amt_rgb> <payment_hash>`");
    assert("ERROR: getinvoice has 5 required arguments: `gethodlinvoice <amt_msats> <expiry_secs> <rgb_contract_id> <amt_rgb> <payment_hash>`"@[0] == 'E');
    reveal_strlit("ERROR: getinvoice provided payment amount was not a number");
    assert("ERROR: getinvoice provided payment amount was not a number"@[0] == 'E');
    reveal_strlit("ERROR: amt_msat cannot be less than ");
    assert("ERROR: amt_msat cannot be less than "@[0] == 'E');
    reveal_strlit("ERROR: getinvoice provided expiry was not a number");
    assert("ERROR: getinvoice provided expiry was not a number"@[0] == 'E');
    reveal_strlit("ERROR: invalid contract ID: ");
    assert("ERROR: invalid contract ID: "@[0] == 'E');
    reveal_strlit("ERROR: couldn't parse amt_rgb: ");
    assert("ERROR: couldn't parse amt_rgb: "@[0] == 'E');
}

proof fn lemma_test_preimage(step: Step)
    requires
        shows_test_preimage(step),
    ensures
        ordinary(step),
{
    lemma_words();
    reveal_strlit("This is a preimage / payment hash pair for testing: \n");
    assert("This is a preimage / payment hash pair for testing: \n"@[0] == 'T');
}

proof fn lemma_settle_hodl_invoice(w: Seq<Chars>, step: Step)
    requires
        settle_hodl_invoice_step(w, step),
    ensures
        ordinary(step),
{
    lemma_words();
    reveal_strlit("ERROR: getinvoice has 1 required arguments: `settlehodlinvoice <preimage>`");
    assert("ERROR: getinvoice has 1 required arguments: `settlehodlinvoice <preimage>`"@[0] == 'E');
}

proof fn lemma_invoice_status(w: Seq<Chars>, step: Step)
    requires
        invoice_status_step(w, step),
    ensures
        ordinary(step),
{
    lemma_words();
    reveal_strlit("ERROR: invoicestatus requires an invoice: `invoicestatus <invoice>`");
    assert("ERROR: invoicestatus requires an invoice: `invoicestatus <invoice>`"@[0] == 'E');
    reveal_strlit("ERROR: invalid invoice: ");
    assert("ERROR: invalid invoice: "@[0] == 'E');
}

proof fn lemma_connect_peer(w: Seq<Chars>, step: Step)
    requires
        connect_peer_step(w, step),
    ensures
        ordinary(step),
{
    lemma_words();
    reveal_strlit("ERROR: connectpeer requires peer connection info: `connectpeer pubkey@host:port`");
    assert("ERROR: connectpeer requires peer connection info: `connectpeer pubkey@host:port`"@[0] == 'E');
    reveal_strlit("\"");
    assert("\""@[0] == '"');
}

proof fn lemma_disconnect_peer(w: Seq<Chars>, key: Result<Seq<u8>, Chars>, step: Step)
    requires
        disconnect_peer_step(w, key, step),
    ensures
        ordinary(step),
{
    lemma_words();
    reveal_strlit("ERROR: disconnectpeer requires peer public key: `disconnectpeer <peer_pubkey>`");
    assert("ERROR: disconnectpeer requires peer public key: `disconnectpeer <peer_pubkey>`"@[0] == 'E');
    reveal_strlit("ERROR: couldn't parse peer pubkey: ");
    assert("ERROR: couldn't parse peer pubkey: "@[0] == 'E');
}

proof fn lemma_close_channel(w: Seq<Chars>, step: Step)
    requires
        close_channel_step(w, step) || force_close_channel_step(w, step),
    ensures
        ordinary(step),
{
    lemma_words();
    reveal_strlit("ERROR: ");
    assert("ERROR: "@[0] == 'E');
    reveal_strlit("ERROR: couldn't parse channel_id");
    assert("ERROR: couldn't parse channel_id"@[0] == 'E');
    reveal_strlit("ERROR: couldn't parse peer_pubkey");
    assert("ERROR: couldn't parse peer_pubkey"@[0] == 'E');
}

proof fn lemma_sign_message(line: Chars, step: Step)
    requires
        sign_message_step(line, step),
    ensures
        ordinary(step),
{
    lemma_words();
    reveal_strlit("ERROR: signmessage requires a message");
    assert("ERROR: signmessage requires a message"@[0] == 'E');
}

proof fn lemma_send_onion_message(w: Seq<Chars>, keys: Option<Seq<Seq<u8>>>, step: Step)
    requires
        send_onion_message_step(w, keys, step),
    ensures
        ordinary(step),
{
    lemma_words();
    reveal_strlit("ERROR: sendonionmessage requires at least one node id for the path");
    assert("ERROR: sendonionmessage requires at least one node id for the path"@[0] == 'E');
    reveal_strlit("ERROR: couldn't parse peer_pubkey\n");
    assert("ERROR: couldn't parse peer_pubkey\n"@[0] == 'E');
    reveal_strlit("ERROR: need an integral message type above 64");
    assert("ERROR: need an integral message type above 64"@[0] == 'E');
    reveal_strlit("ERROR: need a hex data string");
    assert("ERROR: need a hex data string"@[0] == 'E');
}

proof fn lemma_onchain_work(settings: Settings, before: Step, after: Step)
    requires
        comes_next(settings, before, after),
        before is MineBlocks || before is ListUnspent || before is GetAddress || before is ReadFunds || before is CreateUtxos || before is SaveUtxos,
    ensures
        ordinary(after),
{
    lemma_words();
    reveal_strlit("mined");
    assert("mined"@[0] == 'm');
    reveal_strlit("Unspents:\n");
    assert("Unspents:\n"@[0] == 'U');
    assert("Unspents:\n"@[2] == 's');
    reveal_strlit("Address: ");
    assert("Address: "@[0] == 'A');
    reveal_strlit("ERROR: not enough funds, call getaddress and send ");
    assert("ERROR: not enough funds, call getaddress and send "@[0] == 'E');
    reveal_strlit("UTXO creation complete");
    assert("UTXO creation complete"@[0] == 'U');
    assert("UTXO creation complete"@[1] == 'T');
}

proof fn lemma_asset_work(settings: Settings, before: Step, after: Step)
    requires
        comes_next(settings, before, after),
        before is ReceiveAsset ==> worded(settings),
        before is IssueAsset || before is IssueContract || before is AssetBalance || before is ReceiveAsset || before is SaveBlinded,
    ensures
        ordinary(after),
{
    lemma_words();
    reveal_strlit("ERROR: ");
    assert("ERROR: "@[0] == 'E');
    reveal_strlit("Asset ID: ");
    assert("Asset ID: "@[0] == 'A');
    reveal_strlit("Asset balance: ");
    assert("Asset balance: "@[0] == 'A');
    reveal_strlit("Blinded UTXO: ");
    assert("Blinded UTXO: "@[0] == 'B');
}

proof fn lemma_transfer_work(settings: Settings, before: Step, after: Step)
    requires
        comes_next(settings, before, after),
        before is SendTotal || before is SendOwned || before is SendChange || before is SendBuild || before is SendTransfer || before is SendFinish,
    ensures
        ordinary(after),
{
    lemma_words();
    reveal_strlit("ERROR: you only have ");
    assert("ERROR: you only have "@[0] == 'E');
    reveal_strlit("ERROR: ");
    assert("ERROR: "@[0] == 'E');
    reveal_strlit("ERROR: blinded_utxo must be a valid RGB blinded UTXO");
    assert("ERROR: blinded_utxo must be a valid RGB blinded UTXO"@[0] == 'E');
    reveal_strlit("ERROR: unable to post consignment");
    assert("ERROR: unable to post consignment"@[0] == 'E');
    reveal_strlit("RGB send complete, txid: ");
    assert("RGB send complete, txid: "@[0] == 'R');
}

proof fn lemma_refresh_work(settings: Settings, before: Step, after: Step)
    requires
        comes_next(settings, before, after),
        before is RefreshNext || before is FetchConsignment || before is RegisterContract || before is ConsumeTransfer || before is FinishRefresh,
    ensures
        ordinary(after),
{
    lemma_words();
    reveal_strlit("Refresh complete");
    assert("Refresh complete"@[0] == 'R');
    reveal_strlit("");
    assert(""@.len() == 0);
    reveal_strlit("ERROR: unable to get consignment");
    assert("ERROR: unable to get consignment"@[0] == 'E');
    reveal_strlit("WARNING: error consuming transfer");
    assert("WARNING: error consuming transfer"@[0] == 'W');
}

proof fn lemma_opening_work(settings: Settings, before: Step, after: Step)
    requires
        comes_next(settings, before, after),
        before is OpenResolve || before is OpenTotal || before is OpenConnect || before is OpenChannel || before is RecordChannel,
    ensures
        ordinary(after),
{
    lemma_words();
    reveal_strlit("ERROR: channel amount must be a number");
    assert("ERROR: channel amount must be a number"@[0] == 'E');
    reveal_strlit("ERROR: channel amount must be equal or higher than ");
    assert("ERROR: channel amount must be equal or higher than "@[0] == 'E');
    reveal_strlit("ERROR: channel amount must be equal or less than ");
    assert("ERROR: channel amount must be equal or less than "@[0] == 'E');
    reveal_strlit("ERROR: push amount must be a number");
    assert("ERROR: push amount must be a number"@[0] == 'E');
    reveal_strlit("ERROR: push amount must be equal or higher than the dust limit (");
    assert("ERROR: push amount must be equal or higher than the dust limit ("@[0] == 'E');
    reveal_strlit("ERROR: contract_id must be a valid RGB asset ID");
    assert("ERROR: contract_id must be a valid RGB asset ID"@[0] == 'E');
    reveal_strlit("ERROR: channel RGB amount must be a number");
    assert("ERROR: channel RGB amount must be a number"@[0] == 'E');
    reveal_strlit("\"");
    assert("\""@[0] == '"');
    reveal_strlit("ERROR: do not have enough RGB assets");
    assert("ERROR: do not have enough RGB assets"@[0] == 'E');
    reveal_strlit("ERROR: ");
    assert("ERROR: "@[0] == 'E');
    reveal_strlit("");
    assert(""@.len() == 0);
    reveal_strlit("ERROR: invalid `--public` command format. Valid formats: `--public`, `--public=true` `--public=false`");
    assert("ERROR: invalid `--public` command format. Valid formats: `--public`, `--public=true` `--public=false`"@[0] == 'E');
    reveal_strlit("EVENT: initiated channel with peer ");
    assert("EVENT: initiated channel with peer "@[0] == 'E');
    reveal_strlit("ERROR: failed to open channel: ");
    assert("ERROR: failed to open channel: "@[0] == 'E');
    reveal_strlit("ERROR: ()");
    assert("ERROR: ()"@[0] == 'E');
    reveal_strlit("Wrote RGB channel info to ");
    assert("Wrote RGB channel info to "@[0] == 'W');
}

proof fn lemma_payment_work(settings: Settings, before: Step, after: Step)
    requires
        comes_next(settings, before, after),
        before is InvoiceAsset || before is PayInvoice || before is KeysendEntropy || before is KeysendPay || before is CreateInvoice || before is CreateHodlInvoice || before is ClaimFunds || before is ListPayments || before is InvoiceStatus,
    ensures
        ordinary(after),
{
    lemma_words();
    reveal_strlit("EVENT: initiated sending ");
    assert("EVENT: initiated sending "@[0] == 'E');
    reveal_strlit("ERROR: failed to send payment: ");
    assert("ERROR: failed to send payment: "@[0] == 'E');
    reveal_strlit("{\"invoice_string\":");
    assert("{\"invoice_string\":"@[0] == '{');
    reveal_strlit("ERROR: failed to create invoice: ");
    assert("ERROR: failed to create invoice: "@[0] == 'E');
    reveal_strlit("Payment claim seems to have succeeded! The invoice should be settled");
    assert("Payment claim seems to have succeeded! The invoice should be settled"@[0] == 'P');
    reveal_strlit("status: ");
    assert("status: "@[0] == 's');
    reveal_strlit("ERROR: unknown invoice");
    assert("ERROR: unknown invoice"@[0] == 'E');
    reveal_strlit("[\n");
    assert("[\n"@[0] == '[');
}

proof fn lemma_peer_work(settings: Settings, before: Step, after: Step)
    requires
        comes_next(settings, before, after),
        before is ConnectResolve || before is ConnectPeer || before is DisconnectPeer || before is Disconnect || before is ListChannels || before is CloseChannel || before is ForceCloseChannel || before is NodeInfo || before is ListPeers || before is SignMessage || before is SendOnionMessage,
    ensures
        ordinary(after),
{
    lemma_words();
    reveal_strlit("Ok(");
    assert("Ok("@[0] == 'O');
    reveal_strlit("Err(");
    assert("Err("@[0] == 'E');
    if before is SignMessage && after is Reply {
        let r = after->Reply_0.response@;
        assert(reads_as_result(r));
        assert(r[0] == 'O' || r[0] == 'E') by {
            if "Ok("@.is_prefix_of(r) {
                assert(r.subrange(0, "Ok("@.len() as int)[0] == r[0]);
            } else {
                assert(r.subrange(0, "Err("@.len() as int)[0] == r[0]);
            }
        }
    }
    reveal_strlit("\"");
    assert("\""@[0] == '"');
    reveal_strlit("SUCCESS: connected to peer ");
    assert("SUCCESS: connected to peer "@[0] == 'S');
    reveal_strlit("ERROR: failed to connect to peer ");
    assert("ERROR: failed to connect to peer "@[0] == 'E');
    reveal_strlit("ERROR: failed to disconnect from peer ");
    assert("ERROR: failed to disconnect from peer "@[0] == 'E');
    reveal_strlit("SUCCESS: disconnected from peer ");
    assert("SUCCESS: disconnected from peer "@[0] == 'S');
    reveal_strlit("\t{{\n");
    assert("\t{{\n"@[0] == '\t');
    reveal_strlit("[\n");
    assert("[\n"@[0] == '[');
    reveal_strlit("EVENT: initiating channel force-close");
    assert("EVENT: initiating channel force-close"@[0] == 'E');
    reveal_strlit("ERROR: failed to force-close channel: ");
    assert("ERROR: failed to force-close channel: "@[0] == 'E');
    reveal_strlit("SUCCESS: forwarded onion message to first hop");
    assert("SUCCESS: forwarded onion message to first hop"@[0] == 'S');
    reveal_strlit("ERROR: failed to send onion message: ");
    assert("ERROR: failed to send onion message: "@[0] == 'E');
}

/// A line whose first word is `quit` or `exit` is answered with the word that
/// ends the dialogue, whatever follows.
pub proof fn law_quit_is_answered(line: Chars, settings: Settings, step: Step)
    requires
        asks_to_quit(line),
        request_step(line, settings, step),
    ensures
        step.answers("quitting"@),
{
    reveal_strlit("help");
    reveal_strlit("mine");
    reveal_strlit("listunspent");
    reveal_strlit("getaddress");
    reveal_strlit("createutxos");
    reveal_strlit("issueasset");
    reveal_strlit("assetbalance");
    reveal_strlit("sendasset");
    reveal_strlit("receiveasset");
    reveal_strlit("refresh");
    reveal_strlit("openchannel");
    reveal_strlit("sendpayment");
    reveal_strlit("keysend");
    reveal_strlit("getinvoice");
    reveal_strlit("generatetestpreimage");
    reveal_strlit("settlehodlinvoice");
    reveal_strlit("gethodlinvoice");
    reveal_strlit("connectpeer");
    reveal_strlit("disconnectpeer");
    reveal_strlit("listchannels");
    reveal_strlit("listpayments");
    reveal_strlit("invoicestatus");
    reveal_strlit("closechannel");
    reveal_strlit("forceclosechannel");
    reveal_strlit("nodeinfo");
    reveal_strlit("listpeers");
    reveal_strlit("signmessage");
    reveal_strlit("sendonionmessage");
    reveal_strlit("quit");
    reveal_strlit("exit");
    let word = words(line)[0];
    assert(word.len() == 4 && (word[0] == 'q' || word[0] == 'e'));
    assert("help"@[0] == 'h' && "mine"@[0] == 'm');
    assert(command(word) == Command::Quit);
}

/// Of all commands, only `quit` and `exit` are answered at once with the word that
/// ends the dialogue, and only a word that is no command is rejected at once.
pub proof fn law_only_quit_ends_at_once(line: Chars, settings: Settings, step: Step)
    requires
        request_step(line, settings, step),
    ensures
        ends(step) <==> asks_to_quit(line),
        rejects(step) <==> words(line).len() > 0 && command(words(line)[0]) == Command::Unknown,
{
    let w = words(line);
    lemma_words();
    reveal_strlit("No command entered. See `\"help\" for available commands.");
    assert("No command entered. See `\"help\" for available commands."@[0] == 'N');
    reveal_strlit("help");
    assert("help"@[0] == 'h');
    if asks_to_quit(line) {
        law_quit_is_answered(line, settings, step);
    }
    if w.len() > 0 {
        match command(w[0]) {
            Command::Mine => lemma_mine(w, settings.network, step),
            Command::IssueAsset => lemma_issue_asset(w, step),
            Command::AssetBalance => lemma_asset_balance(w, contract_id(w[1]), step),
            Command::SendAsset => lemma_send_asset(w, contract_id(w[1]), step),
            Command::OpenChannel => lemma_open_channel(w, step),
            Command::SendPayment => lemma_send_payment(w, step),
            Command::Keysend => lemma_keysend(
                w,
                compressed_pubkey(w[1]),
                contract_id(w[3]),
                step,
            ),
            Command::GetInvoice => lemma_get_invoice(
                w,
                contract_id(w[3]),
                settings.network,
                step,
            ),
            Command::GenerateTestPreimage => lemma_test_preimage(step),
            Command::SettleHodlInvoice => lemma_settle_hodl_invoice(w, step),
            Command::GetHodlInvoice => lemma_get_hodl_invoice(
                w,
                contract_id(w[3]),
                settings.network,
                step,
            ),
            Command::ConnectPeer => lemma_connect_peer(w, step),
            Command::DisconnectPeer => lemma_disconnect_peer(w, key_or_reason(w[1]), step),
            Command::InvoiceStatus => lemma_invoice_status(w, step),
            Command::CloseChannel => lemma_close_channel(w, step),
            Command::ForceCloseChannel => lemma_close_channel(w, step),
            Command::SignMessage => lemma_sign_message(line, step),
            Command::SendOnionMessage => lemma_send_onion_message(
                w,
                keys_of(split_on(w[1], ',')),
                step,
            ),
            _ => {},
        }
    }
}

/// No step that comes after another is the reply that ends the dialogue, nor the reply
/// to a command that is not known.
pub proof fn law_later_replies_are_ordinary(settings: Settings, before: Step, after: Step)
    requires
        comes_next(settings, before, after),
        before is ReceiveAsset ==> worded(settings),
    ensures
        ordinary(after),
{
    match before {
        Step::MineBlocks(_) | Step::ListUnspent | Step::GetAddress | Step::ReadFunds | Step::CreateUtxos(_) | Step::SaveUtxos(_) => lemma_onchain_work(settings, before, after),
        Step::IssueAsset(_) | Step::IssueContract(_) | Step::AssetBalance(_) | Step::ReceiveAsset | Step::SaveBlinded(_) => lemma_asset_work(settings, before, after),
        Step::SendTotal(_) | Step::SendOwned(_) | Step::SendChange(_) | Step::SendBuild(_) | Step::SendTransfer(_) | Step::SendFinish(_) => lemma_transfer_work(settings, before, after),
        Step::RefreshNext | Step::FetchConsignment(_) | Step::RegisterContract(_) | Step::ConsumeTransfer(_) | Step::FinishRefresh => lemma_refresh_work(settings, before, after),
        Step::OpenResolve(_) | Step::OpenTotal(_) | Step::OpenConnect(_) | Step::OpenChannel(_) | Step::RecordChannel(_) => lemma_opening_work(settings, before, after),
        Step::InvoiceAsset(_) | Step::PayInvoice(_) | Step::KeysendEntropy(_) | Step::KeysendPay(_) | Step::CreateInvoice(_) | Step::CreateHodlInvoice(_) | Step::ClaimFunds(_) | Step::ListPayments | Step::InvoiceStatus(_) => lemma_payment_work(settings, before, after),
        Step::ConnectResolve(_) | Step::ConnectPeer(_) | Step::DisconnectPeer(_) | Step::Disconnect(_) | Step::ListChannels | Step::CloseChannel(_) | Step::ForceCloseChannel(_) | Step::NodeInfo | Step::ListPeers | Step::SignMessage(_) | Step::SendOnionMessage(_) => lemma_peer_work(settings, before, after),
        Step::Reply(_) | Step::Abort(_) => {},
    }
}

proof fn lemma_receive_asked(line: Chars, settings: Settings, step: Step)
    requires
        request_step(line, settings, step),
    ensures
        step is ReceiveAsset ==> asks_to_receive(line),
{
}

proof fn lemma_receive_comes_first(settings: Settings, before: Step, after: Step)
    requires
        comes_next(settings, before, after),
    ensures
        after !is ReceiveAsset,
{
}

/// The reply at the end of a request ends the dialogue if and only if the first word
/// of its line is `quit` or `exit`, whatever follows; and it says that the command is
/// not known if and only if there is a first word and it is no command. Of
/// `receiveasset`, whose reply the settings word, this holds unless they word it as one
/// of these two.
pub proof fn law_only_quit_ends(
    line: Chars,
    settings: Settings,
    steps: Seq<Step>,
    response: Chars,
)
    requires
        is_run(line, settings, steps),
        responds(steps, response),
        asks_to_receive(line) ==> worded(settings),
    ensures
        response == "quitting"@ <==> asks_to_quit(line),
        response == "Unknown command. See `\"help\" for available commands."@ <==> words(
            line,
        ).len() > 0 && command(words(line)[0]) == Command::Unknown,
{
    law_only_quit_ends_at_once(line, settings, steps[0]);
    let n = steps.len();
    if n > 1 {
        assert(comes_next(settings, steps[0], steps[1]));
        assert(comes_next(settings, steps[n - 2], steps[n - 2 + 1]));
        if n > 2 {
            assert(comes_next(settings, steps[n - 3], steps[n - 3 + 1]));
            lemma_receive_comes_first(settings, steps[n - 3], steps[n - 2]);
        } else {
            lemma_receive_asked(line, settings, steps[0]);
        }
        law_later_replies_are_ordinary(settings, steps[n - 2], steps[n - 1]);
    }
}

/// No command of the list of commands is answered that it is not known.
pub proof fn law_listed_commands_are_not_rejected(
    i: int,
    line: Chars,
    settings: Settings,
    steps: Seq<Step>,
    response: Chars,
)
    requires
        0 <= i < crate::help::NUM_LISTED,
        words(line).len() > 0,
        words(line)[0] == crate::help::listed()[i],
        is_run(line, settings, steps),
        responds(steps, response),
        asks_to_receive(line) ==> worded(settings),
    ensures
        response != "Unknown command. See `\"help\" for available commands."@,
{
    crate::help::law_listed_commands_are_known(i);
    law_only_quit_ends(line, settings, steps, response);
}

/// Where every line that is read runs to its response, the requests that are handled
/// are those up to the end of input, a fault of reading, or the first line whose first
/// word is `quit` or `exit`, that line included.
pub proof fn law_dialogue_stops_on_quit(
    reads: Seq<Result<Chars, Chars>>,
    responses: Seq<Chars>,
    settings: Settings,
    runs: Seq<Seq<Step>>,
)
    requires
        responses.len() >= reads.len(),
        forall|i: int|
            0 <= i < reads.len() && asks(#[trigger] reads[i]) && asks_to_receive(reads[i]->Ok_0)
                ==> worded(settings),
        forall|i: int|
            0 <= i < reads.len() && asks(#[trigger] reads[i]) ==> is_run(
                reads[i]->Ok_0,
                settings,
                runs[i],
            ) && responds(runs[i], responses[i]),
    ensures
        ({
            let n = handled(reads, responses) as int;
            &&& n <= reads.len()
            &&& forall|i: int| 0 <= i < n ==> asks(#[trigger] reads[i])
            &&& forall|i: int| 0 <= i < n - 1 ==> !asks_to_quit((#[trigger] reads[i])->Ok_0)
            &&& n < reads.len() ==> (n > 0 && asks_to_quit(reads[n - 1]->Ok_0)) || !asks(reads[n])
        }),
{
    let n = handled(reads, responses) as int;
    crate::cli::law_dialogue_stops(reads, responses);
    assert forall|i: int| 0 <= i < n - 1 implies !asks_to_quit((#[trigger] reads[i])->Ok_0) by {
        assert(asks(reads[i]));
        law_only_quit_ends(reads[i]->Ok_0, settings, runs[i], responses[i]);
    }
    if n > 0 {
        assert(asks(reads[n - 1]));
        law_only_quit_ends(reads[n - 1]->Ok_0, settings, runs[n - 1], responses[n - 1]);
    }
}

} // verus!
