//! What comes of a request: a reply, or work to be done outside this library
//! before the request can go on.
use vstd::prelude::*;

use crate::assets::{
    AssetBalance, IssueAsset, IssueContract, SaveBlinded, SendAsset, SendBuild, SendChange,
    SendFinish, SendTransfer,
};
use crate::closing::ChannelOfPeer;
use crate::invoices::{ClaimFunds, InvoiceQuery, NewHodlInvoice, NewInvoice};
use crate::messages::{OnionMessage, SignMessage};
use crate::onchain::{CreateUtxos, MineBlocks, SaveUtxos};
use crate::opening::{ChannelOffer, OpenRequest, OpenResolve, RecordChannel};
use crate::paying::{InvoiceAsset, Keysend, KeysendPay, PayInvoice};
use crate::peers::{ConnectPeer, ConnectResolve, PeerKey};
use crate::refresh::{ConsumeTransfer, FetchConsignment, RegisterContract};
use crate::text::Chars;
use crate::types::Network;

verus! {

/// What the node was started with.
pub struct Settings {
    pub network: Network,
    /// The directory that the node keeps its files in.
    pub ldk_data_dir: String,
    /// Where consignments are exchanged.
    pub proxy_url: String,
    /// The satoshis on an output that is set aside for assets.
    pub utxo_size_sat: u64,
    /// How it is worded that no output is left to put an asset on.
    pub no_available_utxos: String,
    pub package_name: String,
    pub package_version: String,
}

/// The end of a request.
#[derive(Debug, PartialEq, Eq)]
pub struct Reply {
    /// What is shown on the terminal.
    pub printed: String,
    /// What is handed back to whoever made the request.
    pub response: String,
}

/// What to do next with a request.
#[derive(Debug, PartialEq, Eq)]
pub enum Step {
    /// The request is done.
    Reply(Reply),
    /// The request cannot go on: an assumption of the node does not hold.
    Abort(String),
    /// Have blocks mined to a new address of the bitcoin node.
    MineBlocks(MineBlocks),
    /// List the outputs of the wallet.
    ListUnspent,
    /// Take a new address from the wallet.
    GetAddress,
    /// Bring the wallet up to date, then read the outputs that are set aside,
    /// the outputs of the wallet and its balance.
    ReadFunds,
    /// Build, sign and send the transaction that creates outputs.
    CreateUtxos(CreateUtxos),
    /// Write down the outputs that are set aside, then bring the wallet up to
    /// date.
    SaveUtxos(SaveUtxos),
    /// Read the outputs that are set aside, for an issue.
    IssueAsset(IssueAsset),
    /// Write down the outputs that are set aside, then have the contract issued.
    IssueContract(IssueContract),
    /// Ask how much of an asset the node has.
    AssetBalance(AssetBalance),
    /// Ask how much there is of an asset that is to be sent.
    SendTotal(SendAsset),
    /// Ask which outputs carry an asset that is to be sent.
    SendOwned(SendAsset),
    /// Read the outputs that are set aside, for the change.
    SendChange(SendChange),
    /// Write down the outputs that are set aside, where they changed, then build
    /// the transaction that spends the inputs.
    SendBuild(SendBuild),
    /// Have the transfer made, save the consignment and post it.
    SendTransfer(SendTransfer),
    /// Sign and send the transaction, take note of the transfer, and bring the
    /// wallet up to date.
    SendFinish(SendFinish),
    /// Read the outputs that are set aside, to receive on one of them.
    ReceiveAsset,
    /// Write down the outputs that are set aside and the blinded output.
    SaveBlinded(SaveBlinded),
    /// Read the next blinded output that was written down.
    RefreshNext,
    /// Ask for the consignment that was posted for a blinded output.
    FetchConsignment(FetchConsignment),
    /// Register the contract of a consignment.
    RegisterContract(RegisterContract),
    /// Take note of the transfer of a consignment.
    ConsumeTransfer(ConsumeTransfer),
    /// Bring the wallet up to date and remove the blinded output that was read
    /// last, then read the next one.
    FinishRefresh,
    /// Look up the address of the peer to open a channel with.
    OpenResolve(OpenResolve),
    /// Ask how much there is of the asset of a channel to be opened.
    OpenTotal(OpenRequest),
    /// Connect to the peer to open a channel with.
    OpenConnect(OpenRequest),
    /// Propose the channel.
    OpenChannel(ChannelOffer),
    /// Show that the channel was proposed and write down peer and asset.
    RecordChannel(RecordChannel),
    /// Read which asset an invoice is over, and how much of it.
    InvoiceAsset(InvoiceAsset),
    /// Write down the asset of a payment and pay the invoice.
    PayInvoice(PayInvoice),
    /// Draw the secret of a payment without an invoice.
    KeysendEntropy(Keysend),
    /// Write down the asset of a payment without an invoice and send it.
    KeysendPay(KeysendPay),
    /// Create an invoice.
    CreateInvoice(NewInvoice),
    /// Create an invoice for a payment hash that is given.
    CreateHodlInvoice(NewHodlInvoice),
    /// Claim a payment.
    ClaimFunds(ClaimFunds),
    /// Look up the address of the peer to connect to.
    ConnectResolve(ConnectResolve),
    /// Connect to a peer.
    ConnectPeer(ConnectPeer),
    /// List channels and peers, to see whether a peer may be disconnected.
    DisconnectPeer(PeerKey),
    /// Disconnect from a peer.
    Disconnect(PeerKey),
    /// List the channels.
    ListChannels,
    /// List the payments.
    ListPayments,
    /// Look up the payment of an invoice.
    InvoiceStatus(InvoiceQuery),
    /// Close a channel.
    CloseChannel(ChannelOfPeer),
    /// Close a channel without the peer.
    ForceCloseChannel(ChannelOfPeer),
    /// Sum up the node.
    NodeInfo,
    /// List the peers.
    ListPeers,
    /// Read the secret key of the node, to sign a message.
    SignMessage(SignMessage),
    /// Send an onion message.
    SendOnionMessage(OnionMessage),
}

impl Reply {
    /// Whether this reply has the given texts.
    pub open spec fn says(self, printed: Chars, response: Chars) -> bool {
        self.printed@ == printed && self.response@ == response
    }
}

impl Step {
    /// Whether the request ends with the given texts.
    pub open spec fn replies(self, printed: Chars, response: Chars) -> bool {
        self matches Step::Reply(r) && r.says(printed, response)
    }

    /// Whether the request ends with the given response and nothing shown.
    pub open spec fn answers(self, response: Chars) -> bool {
        self.replies(seq![], response)
    }

    /// Whether the request cannot go on, for the given reason.
    pub open spec fn aborts(self, reason: Chars) -> bool {
        self matches Step::Abort(r) && r@ == reason
    }
}

/// Ends a request with a response and nothing shown.
pub fn answer(response: &str) -> (step: Step)
    ensures
        step.answers(response@),
{
    Step::Reply(Reply { printed: String::new(), response: response.to_owned() })
}

/// Ends a request with a response that is also shown, as a line.
pub fn announce(response: &str) -> (step: Step)
    ensures
        step.replies(response@ + "\n"@, response@),
{
    Step::Reply(
        Reply { printed: crate::text::join2(response, "\n"), response: response.to_owned() },
    )
}

/// Gives a request up.
pub fn abort(reason: &str) -> (step: Step)
    ensures
        step.aborts(reason@),
{
    Step::Abort(reason.to_owned())
}

} // verus!
