//! The channels and peers of the node, and how they are listed.
use vstd::prelude::*;

use crate::hex_utils::{hex, hex_str};
use crate::number::{decimal, decimal_text};
use crate::request::{list_channels_step, list_peers_step, node_info_step};
use crate::step::Step;
use crate::text::{
    bool_chars, bool_text, joined, lemma_joined_holds, lemma_stands_within, maybe_chars, stands_in,
    Chars,
};
use crate::trusted::{alias_chars, alias_text, contract_id_chars, contract_id_text};
use crate::types::{same_key, txid_chars, txid_text};

verus! {

/// The asset of a channel and how it is shared out.
#[derive(Clone, Copy, Debug, PartialEq, Eq)]
pub struct RgbInfo {
    pub contract_id: [u8; 32],
    pub local_rgb_amount: u64,
    pub remote_rgb_amount: u64,
}

/// What is known of a channel.
#[derive(Clone, Copy, Debug, PartialEq, Eq)]
pub struct ChannelDetails {
    pub channel_id: [u8; 32],
    pub funding_txid: Option<[u8; 32]>,
    pub counterparty: [u8; 33],
    /// The name that the other node announced.
    pub peer_alias: Option<[u8; 32]>,
    pub short_channel_id: Option<u64>,
    pub is_channel_ready: bool,
    pub channel_value_satoshis: u64,
    pub balance_msat: u64,
    pub is_usable: bool,
    pub outbound_capacity_msat: u64,
    pub inbound_capacity_msat: u64,
    pub is_public: bool,
    /// What was written down of the asset of the channel.
    pub rgb_info: Option<RgbInfo>,
}

/// How many channels can be used.
pub open spec fn usable(channels: Seq<ChannelDetails>) -> nat
    decreases channels.len(),
{
    if channels.len() == 0 {
        0
    } else {
        usable(channels.drop_last()) + if channels.last().is_usable {
            1nat
        } else {
            0nat
        }
    }
}

/// What the node owns on its channels.
pub open spec fn balance(channels: Seq<ChannelDetails>) -> nat
    decreases channels.len(),
{
    if channels.len() == 0 {
        0
    } else {
        balance(channels.drop_last()) + channels.last().balance_msat as nat
    }
}

/// The summary of a node.
pub open spec fn node_info_chars(
    node_id: Seq<u8>,
    channels: Seq<ChannelDetails>,
    num_peers: nat,
) -> Chars {
    "\t{{\n"@ + "\t\t node_pubkey: "@ + hex(node_id) + "\n"@ + "\t\t num_channels: "@ + decimal(
        channels.len(),
    ) + "\n"@ + "\t\t num_usable_channels: "@ + decimal(usable(channels)) + "\n"@
        + "\t\t local_balance_msat: "@ + decimal(balance(channels)) + "\n"@ + "\t\t num_peers: "@
        + decimal(num_peers) + "\n"@ + "\t}},\n"@
}

/// One line for each peer.
pub open spec fn peer_lines(peers: Seq<[u8; 33]>) -> Chars
    decreases peers.len(),
{
    if peers.len() == 0 {
        seq![]
    } else {
        peer_lines(peers.drop_last()) + ("\t\t peer_pubkey: "@ + hex(peers.last()@) + "\n"@)
    }
}

/// The list of peers.
pub open spec fn list_peers_chars(peers: Seq<[u8; 33]>) -> Chars {
    "\t{{\n"@ + peer_lines(peers) + "\t}},\n"@
}

/// A line of a listing.
pub open spec fn field(label: Chars, value: Chars) -> Chars {
    label + value + ",\n"@
}

/// A line that is there only where there is something to say.
pub open spec fn optional_field(label: Chars, value: Option<Chars>) -> Chars {
    match value {
        Some(v) => field(label, v),
        None => seq![],
    }
}

/// The lines on what can go over a channel: there are none while it cannot be
/// used.
pub open spec fn capacity_lines(c: ChannelDetails) -> Chars {
    if c.is_usable {
        field("\t\tavailable_balance_for_send_msat: "@, decimal(c.outbound_capacity_msat as nat))
            + field("\t\tavailable_balance_for_recv_msat: "@, decimal(c.inbound_capacity_msat as nat))
    } else {
        seq![]
    }
}

/// The lines on the asset of a channel, whose contract id is written as given.
pub open spec fn rgb_lines(info: Option<RgbInfo>, contract_id: Chars) -> Chars {
    match info {
        Some(i) => field("\t\trgb_contract_id: "@, contract_id) + field(
            "\t\trgb_local_amount: "@,
            decimal(i.local_rgb_amount as nat),
        ) + field("\t\trgb_remote_amount: "@, decimal(i.remote_rgb_amount as nat)),
        None => field("\t\trgb_contract_id: "@, "N/A"@) + field(
            "\t\trgb_local_amount: "@,
            "N/A"@,
        ) + field("\t\trgb_remote_amount: "@, "N/A"@),
    }
}

/// How a transaction id is written, where there is one.
pub open spec fn optional_txid(txid: Option<[u8; 32]>) -> Option<Chars> {
    match txid {
        Some(t) => Some(txid_chars(t@)),
        None => None,
    }
}

/// How a node's name is shown, where it has one.
pub open spec fn optional_alias(alias: Option<[u8; 32]>) -> Option<Chars> {
    match alias {
        Some(a) => Some(alias_chars(a@)),
        None => None,
    }
}

/// How a number is written, where there is one.
pub open spec fn optional_decimal(n: Option<u64>) -> Option<Chars> {
    match n {
        Some(k) => Some(decimal(k as nat)),
        None => None,
    }
}

/// How the contract id of a channel is written, where it has one.
pub open spec fn asset_chars(info: Option<RgbInfo>) -> Chars {
    match info {
        Some(i) => contract_id_chars(i.contract_id@),
        None => seq![],
    }
}

/// How a channel is listed, where the name of the other node is shown and the
/// contract id is written as given.
pub open spec fn channel_chars(
    c: ChannelDetails,
    alias: Option<Chars>,
    contract_id: Chars,
) -> Chars {
    "\n"@ + "\t{{\n"@ + field("\t\t channel_id: "@, hex(c.channel_id@)) + optional_field(
        "\t\t funding_txid: "@,
        optional_txid(c.funding_txid),
    ) + field("\t\tpeer_pubkey: "@, hex(c.counterparty@)) + optional_field(
        "\t\tpeer_alias: "@,
        alias,
    ) + optional_field("\t\t short_channel_id: "@, optional_decimal(c.short_channel_id)) + field(
        "\t\tis_channel_ready: "@,
        bool_chars(c.is_channel_ready),
    ) + field("\t\tchannel_value_satoshis: "@, decimal(c.channel_value_satoshis as nat)) + field(
        "\t\tlocal_balance_msat: "@,
        decimal(c.balance_msat as nat),
    ) + capacity_lines(c) + field("\t\tchannel_can_send_payments: "@, bool_chars(c.is_usable))
        + field("\t\tpublic: "@, bool_chars(c.is_public)) + rgb_lines(c.rgb_info, contract_id) + "\t}},\n"@
}

/// Channels one behind the other.
pub open spec fn channels_chars(channels: Seq<ChannelDetails>) -> Chars
    decreases channels.len(),
{
    if channels.len() == 0 {
        seq![]
    } else {
        let c = channels.last();
        channels_chars(channels.drop_last()) + channel_chars(
            c,
            optional_alias(c.peer_alias),
            asset_chars(c.rgb_info),
        )
    }
}

/// The list of channels.
pub open spec fn list_channels_chars(channels: Seq<ChannelDetails>) -> Chars {
    "[\n"@ + channels_chars(channels) + "]\n"@
}

/// Fewer channels never own more.
proof fn lemma_balance_grows(channels: Seq<ChannelDetails>, i: int, j: int)
    requires
        0 <= i <= j <= channels.len(),
    ensures
        balance(channels.take(i)) <= balance(channels.take(j)),
    decreases j - i,
{
    if i < j {
        lemma_balance_grows(channels, i, j - 1);
        assert(channels.take(j).drop_last() == channels.take(j - 1));
    }
}

/// What the node owns on its channels, unless a 64-bit number cannot hold it.
pub fn local_balance(channels: &Vec<ChannelDetails>) -> (r: Option<u64>)
    ensures
        match r {
            Some(n) => n == balance(channels@),
            None => balance(channels@) > u64::MAX,
        },
{
    let mut sum: u64 = 0;
    let mut i: usize = 0;
    assert(channels@.take(0).len() == 0);
    while i < channels.len()
        invariant
            i <= channels.len(),
            sum == balance(channels@.take(i as int)),
        decreases channels.len() - i,
    {
        assert(channels@.take(i + 1).drop_last() == channels@.take(i as int));
        match sum.checked_add(channels[i].balance_msat) {
            Some(n) => {
                sum = n;
            },
            None => {
                proof {
                    lemma_balance_grows(channels@, i + 1, channels@.len() as int);
                    assert(channels@.take(channels@.len() as int) == channels@);
                }
                return None;
            },
        }
        i += 1;
    }
    assert(channels@.take(channels@.len() as int) == channels@);
    Some(sum)
}

fn count_usable(channels: &Vec<ChannelDetails>) -> (r: usize)
    ensures
        r == usable(channels@),
{
    let mut n: usize = 0;
    let mut i: usize = 0;
    assert(channels@.take(0).len() == 0);
    while i < channels.len()
        invariant
            n <= i <= channels.len(),
            n == usable(channels@.take(i as int)),
        decreases channels.len() - i,
    {
        assert(channels@.take(i + 1).drop_last() == channels@.take(i as int));
        if channels[i].is_usable {
            n += 1;
        }
        i += 1;
    }
    assert(channels@.take(channels@.len() as int) == channels@);
    n
}

/// Sums up the node: its key, its channels and how many peers it has.
pub fn node_info(
    node_id: &[u8; 33],
    channels: &Vec<ChannelDetails>,
    peers: &Vec<[u8; 33]>,
) -> (r: String)
    requires
        balance(channels@) <= u64::MAX,
    ensures
        r@ == node_info_chars(node_id@, channels@, peers@.len()),
{
    let local_balance_msat: u64 = match local_balance(channels) {
        Some(n) => n,
        None => 0,
    };
    let mut s = "\t{{\n".to_string();
    s.append("\t\t node_pubkey: ");
    s.append(&hex_str(node_id.as_slice()));
    s.append("\n");
    s.append("\t\t num_channels: ");
    s.append(&decimal_text(channels.len() as u64));
    s.append("\n");
    s.append("\t\t num_usable_channels: ");
    s.append(&decimal_text(count_usable(channels) as u64));
    s.append("\n");
    s.append("\t\t local_balance_msat: ");
    s.append(&decimal_text(local_balance_msat));
    s.append("\n");
    s.append("\t\t num_peers: ");
    s.append(&decimal_text(peers.len() as u64));
    s.append("\n");
    s.append("\t}},\n");
    s
}

/// Lists the peers that the node is connected to.
pub fn list_peers(peers: &Vec<[u8; 33]>) -> (r: String)
    ensures
        r@ == list_peers_chars(peers@),
{
    let mut s = "\t{{\n".to_string();
    let mut i: usize = 0;
    assert(peers@.take(0).len() == 0);
    assert(s@ + peer_lines(peers@.take(0)) == s@);
    while i < peers.len()
        invariant
            i <= peers.len(),
            s@ == "\t{{\n"@ + peer_lines(peers@.take(i as int)),
        decreases peers.len() - i,
    {
        let ghost before = s@;
        let ghost key = hex(peers@[i as int]@);
        s.append("\t\t peer_pubkey: ");
        s.append(&hex_str(peers[i].as_slice()));
        s.append("\n");
        proof {
            let listed = peers@.take(i + 1);
            assert(listed.drop_last() == peers@.take(i as int));
            assert(s@ == before + ("\t\t peer_pubkey: "@ + key + "\n"@));
            assert(s@ == "\t{{\n"@ + peer_lines(listed));
        }
        i += 1;
    }
    assert(peers@.take(peers@.len() as int) == peers@);
    s.append("\t}},\n");
    s
}

fn push_field(text: &mut String, label: &str, value: &str)
    ensures
        final(text)@ == old(text)@ + field(label@, value@),
{
    let ghost before = text@;
    text.append(label);
    text.append(value);
    text.append(",\n");
    assert(text@ == before + field(label@, value@));
}

fn push_optional_field(text: &mut String, label: &str, value: Option<String>)
    ensures
        final(text)@ == old(text)@ + optional_field(label@, maybe_chars(value)),
{
    match value {
        Some(v) => push_field(text, label, &v),
        None => {
            assert(text@ == text@ + Seq::<char>::empty());
        },
    }
}

fn push_capacity(text: &mut String, c: &ChannelDetails)
    ensures
        final(text)@ == old(text)@ + capacity_lines(*c),
{
    let ghost before = text@;
    if c.is_usable {
        push_field(
            text,
            "\t\tavailable_balance_for_send_msat: ",
            &decimal_text(c.outbound_capacity_msat),
        );
        push_field(
            text,
            "\t\tavailable_balance_for_recv_msat: ",
            &decimal_text(c.inbound_capacity_msat),
        );
    }
    assert(text@ == before + capacity_lines(*c));
}

fn push_rgb(text: &mut String, info: &Option<RgbInfo>, contract_id: &str)
    ensures
        final(text)@ == old(text)@ + rgb_lines(*info, contract_id@),
{
    let ghost before = text@;
    match info {
        Some(i) => {
            push_field(text, "\t\trgb_contract_id: ", contract_id);
            push_field(text, "\t\trgb_local_amount: ", &decimal_text(i.local_rgb_amount));
            push_field(text, "\t\trgb_remote_amount: ", &decimal_text(i.remote_rgb_amount));
        },
        None => {
            push_field(text, "\t\trgb_contract_id: ", "N/A");
            push_field(text, "\t\trgb_local_amount: ", "N/A");
            push_field(text, "\t\trgb_remote_amount: ", "N/A");
        },
    }
    assert(text@ == before + rgb_lines(*info, contract_id@));
}

/// How a channel is listed, where the name of the other node is shown and the
/// contract id is written as given.
pub fn channel_text(c: &ChannelDetails, alias: Option<String>, contract_id: &str) -> (r: String)
    ensures
        r@ == channel_chars(*c, maybe_chars(alias), contract_id@),
{
    let funding_txid: Option<String> = match &c.funding_txid {
        Some(t) => Some(txid_text(t)),
        None => None,
    };
    let short_channel_id: Option<String> = match c.short_channel_id {
        Some(id) => Some(decimal_text(id)),
        None => None,
    };
    let mut s = "\n".to_string();
    s.append("\t{{\n");
    push_field(&mut s, "\t\t channel_id: ", &hex_str(c.channel_id.as_slice()));
    push_optional_field(&mut s, "\t\t funding_txid: ", funding_txid);
    push_field(&mut s, "\t\tpeer_pubkey: ", &hex_str(c.counterparty.as_slice()));
    push_optional_field(&mut s, "\t\tpeer_alias: ", alias);
    push_optional_field(&mut s, "\t\t short_channel_id: ", short_channel_id);
    push_field(&mut s, "\t\tis_channel_ready: ", bool_text(c.is_channel_ready));
    push_field(&mut s, "\t\tchannel_value_satoshis: ", &decimal_text(c.channel_value_satoshis));
    push_field(&mut s, "\t\tlocal_balance_msat: ", &decimal_text(c.balance_msat));
    push_capacity(&mut s, c);
    push_field(&mut s, "\t\tchannel_can_send_payments: ", bool_text(c.is_usable));
    push_field(&mut s, "\t\tpublic: ", bool_text(c.is_public));
    push_rgb(&mut s, &c.rgb_info, contract_id);
    s.append("\t}},\n");
    s
}

/// Lists the channels.
pub fn list_channels(channels: &Vec<ChannelDetails>) -> (r: String)
    ensures
        r@ == list_channels_chars(channels@),
{
    let mut s = "[\n".to_string();
    let mut i: usize = 0;
    assert(channels@.take(0).len() == 0);
    assert(s@ + channels_chars(channels@.take(0)) == s@);
    while i < channels.len()
        invariant
            i <= channels.len(),
            s@ == "[\n"@ + channels_chars(channels@.take(i as int)),
        decreases channels.len() - i,
    {
        let alias: Option<String> = match &channels[i].peer_alias {
            Some(a) => Some(alias_text(a)),
            None => None,
        };
        let contract_id: String = match &channels[i].rgb_info {
            Some(info) => contract_id_text(&info.contract_id),
            None => String::new(),
        };
        s.append(&channel_text(&channels[i], alias, &contract_id));
        proof {
            let listed = channels@.take(i + 1);
            assert(listed.drop_last() == channels@.take(i as int));
            assert(s@ == "[\n"@ + channels_chars(listed));
        }
        i += 1;
    }
    assert(channels@.take(channels@.len() as int) == channels@);
    s.append("]\n");
    s
}

/// Whether the node has a channel with a peer.
pub open spec fn has_channel_with(channels: Seq<ChannelDetails>, peer: Seq<u8>) -> bool {
    exists|i: int| 0 <= i < channels.len() && (#[trigger] channels[i]).counterparty@ == peer
}

/// Whether the node is connected to a peer.
pub open spec fn connected(peers: Seq<[u8; 33]>, peer: Seq<u8>) -> bool {
    exists|i: int| 0 <= i < peers.len() && (#[trigger] peers[i])@ == peer
}

/// Whether the node has a channel with a peer.
pub fn channel_with(channels: &Vec<ChannelDetails>, peer: &[u8; 33]) -> (r: bool)
    ensures
        r == has_channel_with(channels@, peer@),
{
    let mut i: usize = 0;
    while i < channels.len()
        invariant
            i <= channels.len(),
            forall|j: int| 0 <= j < i ==> (#[trigger] channels@[j]).counterparty@ != peer@,
        decreases channels.len() - i,
    {
        if same_key(&channels[i].counterparty, peer) {
            assert(channels@[i as int].counterparty@ == peer@);
            return true;
        }
        i += 1;
    }
    false
}

/// Whether the node is connected to a peer.
pub fn is_connected(peers: &Vec<[u8; 33]>, peer: &[u8; 33]) -> (r: bool)
    ensures
        r == connected(peers@, peer@),
{
    let mut i: usize = 0;
    while i < peers.len()
        invariant
            i <= peers.len(),
            forall|j: int| 0 <= j < i ==> (#[trigger] peers@[j])@ != peer@,
        decreases peers.len() - i,
    {
        if same_key(&peers[i], peer) {
            assert(peers@[i as int]@ == peer@);
            return true;
        }
        i += 1;
    }
    false
}

/// Why a peer is kept, if it is: a channel with it comes before its not being
/// there.
pub open spec fn disconnect_fault(
    channels: Seq<ChannelDetails>,
    peers: Seq<[u8; 33]>,
    peer: Seq<u8>,
) -> Option<Chars> {
    if has_channel_with(channels, peer) {
        Some("Error: Node has an active channel with this peer, close any channels first"@)
    } else if !connected(peers, peer) {
        Some("Error: Could not find peer "@ + hex(peer))
    } else {
        None
    }
}

/// Decides whether a peer may be disconnected, and says why where it may not.
pub fn do_disconnect_peer(
    peer: &[u8; 33],
    channels: &Vec<ChannelDetails>,
    peers: &Vec<[u8; 33]>,
) -> (r: Result<(), String>)
    ensures
        match r {
            Ok(_) => disconnect_fault(channels@, peers@, peer@) is None,
            Err(e) => disconnect_fault(channels@, peers@, peer@) == Some(e@),
        },
{
    if channel_with(channels, peer) {
        return Err(
            "Error: Node has an active channel with this peer, close any channels first".to_string(),
        );
    }
    if !is_connected(peers, peer) {
        return Err(crate::text::join2("Error: Could not find peer ", &hex_str(peer.as_slice())));
    }
    Ok(())
}

/// A peer is let go only where the node is connected to it and has no channel
/// with it.
pub proof fn law_disconnect_is_safe(
    channels: Seq<ChannelDetails>,
    peers: Seq<[u8; 33]>,
    peer: Seq<u8>,
)
    ensures
        disconnect_fault(channels, peers, peer) is None <==> connected(peers, peer)
            && !has_channel_with(channels, peer),
{
}

/// The usable channels are among the channels.
pub proof fn law_usable_among_channels(channels: Seq<ChannelDetails>)
    ensures
        usable(channels) <= channels.len(),
    decreases channels.len(),
{
    if channels.len() > 0 {
        law_usable_among_channels(channels.drop_last());
    }
}

/// Channels are listed one behind the other: the blocks of two groups of channels are the
/// blocks of the first and behind them those of the second, and one channel has one
/// block.
pub proof fn law_channels_are_listed_in_turn(
    a: Seq<ChannelDetails>,
    b: Seq<ChannelDetails>,
    one: ChannelDetails,
)
    ensures
        channels_chars(a + b) == channels_chars(a) + channels_chars(b),
        channels_chars(seq![one]) == channel_chars(
            one,
            optional_alias(one.peer_alias),
            asset_chars(one.rgb_info),
        ),
        channels_chars(Seq::empty()).len() == 0,
    decreases b.len(),
{
    if b.len() == 0 {
        assert(a + b == a);
        assert(channels_chars(a) + channels_chars(b) == channels_chars(a));
    } else {
        law_channels_are_listed_in_turn(a, b.drop_last(), one);
        assert((a + b).drop_last() == a + b.drop_last());
        assert((a + b).last() == b.last());
        let c = b.last();
        let block = channel_chars(c, optional_alias(c.peer_alias), asset_chars(c.rgb_info));
        assert(channels_chars(a) + (channels_chars(b.drop_last()) + block) == channels_chars(a)
            + channels_chars(b.drop_last()) + block);
    }
    let block = channel_chars(one, optional_alias(one.peer_alias), asset_chars(one.rgb_info));
    assert(seq![one].drop_last().len() == 0);
    assert(channels_chars(seq![one].drop_last()) + block == block);
}

/// Whether a text tells of a channel its id, its transaction, its peer and the name of
/// the peer, its short id, whether it is ready, its value, what is on this side, whether
/// it can be used and what can go over it, whether it is public, and its asset.
pub open spec fn tells(text: Chars, c: ChannelDetails) -> bool {
    &&& stands_in("\t\t channel_id: "@ + hex(c.channel_id@) + ",\n"@, text)
    &&& c.funding_txid matches Some(t) ==> stands_in(
        "\t\t funding_txid: "@ + hex(t@.reverse()) + ",\n"@,
        text,
    )
    &&& stands_in("\t\tpeer_pubkey: "@ + hex(c.counterparty@) + ",\n"@, text)
    &&& c.peer_alias matches Some(a) ==> stands_in(
        "\t\tpeer_alias: "@ + alias_chars(a@) + ",\n"@,
        text,
    )
    &&& c.short_channel_id matches Some(n) ==> stands_in(
        "\t\t short_channel_id: "@ + decimal(n as nat) + ",\n"@,
        text,
    )
    &&& stands_in("\t\tis_channel_ready: "@ + bool_chars(c.is_channel_ready) + ",\n"@, text)
    &&& stands_in(
        "\t\tchannel_value_satoshis: "@ + decimal(c.channel_value_satoshis as nat) + ",\n"@,
        text,
    )
    &&& stands_in("\t\tlocal_balance_msat: "@ + decimal(c.balance_msat as nat) + ",\n"@, text)
    &&& c.is_usable ==> stands_in(
        "\t\tavailable_balance_for_send_msat: "@ + decimal(c.outbound_capacity_msat as nat)
            + ",\n"@,
        text,
    )
    &&& c.is_usable ==> stands_in(
        "\t\tavailable_balance_for_recv_msat: "@ + decimal(c.inbound_capacity_msat as nat)
            + ",\n"@,
        text,
    )
    &&& stands_in("\t\tchannel_can_send_payments: "@ + bool_chars(c.is_usable) + ",\n"@, text)
    &&& stands_in("\t\tpublic: "@ + bool_chars(c.is_public) + ",\n"@, text)
    &&& match c.rgb_info {
        Some(i) => {
            &&& stands_in(
                "\t\trgb_contract_id: "@ + contract_id_chars(i.contract_id@) + ",\n"@,
                text,
            )
            &&& stands_in(
                "\t\trgb_local_amount: "@ + decimal(i.local_rgb_amount as nat) + ",\n"@,
                text,
            )
            &&& stands_in(
                "\t\trgb_remote_amount: "@ + decimal(i.remote_rgb_amount as nat) + ",\n"@,
                text,
            )
        },
        None => {
            &&& stands_in("\t\trgb_contract_id: "@ + "N/A"@ + ",\n"@, text)
            &&& stands_in("\t\trgb_local_amount: "@ + "N/A"@ + ",\n"@, text)
            &&& stands_in("\t\trgb_remote_amount: "@ + "N/A"@ + ",\n"@, text)
        },
    }
}

/// Two lines one behind the other stand where they are put.
proof fn lemma_two_lines(a: Chars, b: Chars)
    ensures
        stands_in(a, a + b),
        stands_in(b, a + b),
{
    assert(a + b == Seq::<char>::empty() + a + b);
    assert(a + b == a + b + Seq::<char>::empty());
}

/// The block of a channel tells all that is known of it.
proof fn lemma_block_tells(c: ChannelDetails)
    ensures
        tells(channel_chars(c, optional_alias(c.peer_alias), asset_chars(c.rgb_info)), c),
{
    let alias = optional_alias(c.peer_alias);
    let id = asset_chars(c.rgb_info);
    let block = channel_chars(c, alias, id);
    let pieces = seq![
        "\n"@,
        "\t{{\n"@,
        field("\t\t channel_id: "@, hex(c.channel_id@)),
        optional_field("\t\t funding_txid: "@, optional_txid(c.funding_txid)),
        field("\t\tpeer_pubkey: "@, hex(c.counterparty@)),
        optional_field("\t\tpeer_alias: "@, alias),
        optional_field("\t\t short_channel_id: "@, optional_decimal(c.short_channel_id)),
        field("\t\tis_channel_ready: "@, bool_chars(c.is_channel_ready)),
        field("\t\tchannel_value_satoshis: "@, decimal(c.channel_value_satoshis as nat)),
        field("\t\tlocal_balance_msat: "@, decimal(c.balance_msat as nat)),
        capacity_lines(c),
        field("\t\tchannel_can_send_payments: "@, bool_chars(c.is_usable)),
        field("\t\tpublic: "@, bool_chars(c.is_public)),
        rgb_lines(c.rgb_info, id),
        "\t}},\n"@,
    ];
    lemma_fifteen(pieces);
    assert(block == joined(pieces));
    assert forall|i: int| 0 <= i < 15 implies stands_in(#[trigger] pieces[i], block) by {
        lemma_joined_holds(pieces, i);
    }
    assert(stands_in(pieces[2], block) && stands_in(pieces[3], block) && stands_in(pieces[4], block)
        && stands_in(pieces[5], block) && stands_in(pieces[6], block) && stands_in(pieces[7], block)
        && stands_in(pieces[8], block) && stands_in(pieces[9], block) && stands_in(
        pieces[10],
        block,
    ) && stands_in(pieces[11], block) && stands_in(pieces[12], block) && stands_in(
        pieces[13],
        block,
    ));
    if c.is_usable {
        let send = field(
            "\t\tavailable_balance_for_send_msat: "@,
            decimal(c.outbound_capacity_msat as nat),
        );
        let recv = field(
            "\t\tavailable_balance_for_recv_msat: "@,
            decimal(c.inbound_capacity_msat as nat),
        );
        lemma_two_lines(send, recv);
        lemma_stands_within(send, capacity_lines(c), block);
        lemma_stands_within(recv, capacity_lines(c), block);
    }
    let (rgb_id, local, remote) = match c.rgb_info {
        Some(i) => (id, decimal(i.local_rgb_amount as nat), decimal(i.remote_rgb_amount as nat)),
        None => ("N/A"@, "N/A"@, "N/A"@),
    };
    let first = field("\t\trgb_contract_id: "@, rgb_id);
    let second = field("\t\trgb_local_amount: "@, local);
    let third = field("\t\trgb_remote_amount: "@, remote);
    let lines = rgb_lines(c.rgb_info, id);
    assert(lines == first + second + third);
    lemma_two_lines(first, second);
    lemma_two_lines(first + second, third);
    lemma_stands_within(first, first + second, lines);
    lemma_stands_within(second, first + second, lines);
    lemma_stands_within(first, lines, block);
    lemma_stands_within(second, lines, block);
    lemma_stands_within(third, lines, block);
}

/// Fifteen texts one behind the other.
proof fn lemma_fifteen(p: Seq<Chars>)
    requires
        p.len() == 15,
    ensures
        joined(p) == p[0] + p[1] + p[2] + p[3] + p[4] + p[5] + p[6] + p[7] + p[8] + p[9] + p[10]
            + p[11] + p[12] + p[13] + p[14],
{
    lemma_joined_takes(p, 15);
    lemma_joined_takes(p, 14);
    lemma_joined_takes(p, 13);
    lemma_joined_takes(p, 12);
    lemma_joined_takes(p, 11);
    lemma_joined_takes(p, 10);
    lemma_joined_takes(p, 9);
    lemma_joined_takes(p, 8);
    lemma_joined_takes(p, 7);
    lemma_joined_takes(p, 6);
    lemma_joined_takes(p, 5);
    lemma_joined_takes(p, 4);
    lemma_joined_takes(p, 3);
    lemma_joined_takes(p, 2);
    lemma_joined_takes(p, 1);
    assert(p.take(0).len() == 0);
    assert(joined(p.take(0)) + p[0] == p[0]);
    assert(p.take(15) == p);
}

proof fn lemma_joined_takes(p: Seq<Chars>, n: int)
    requires
        0 < n <= p.len(),
    ensures
        joined(p.take(n)) == joined(p.take(n - 1)) + p[n - 1],
{
    assert(p.take(n).drop_last() == p.take(n - 1));
}

/// Every channel is listed, with all that is known of it, and between the channels before
/// it and those behind it.
pub proof fn law_every_channel_is_listed(channels: Seq<ChannelDetails>, i: int, step: Step)
    requires
        list_channels_step(channels, step),
        0 <= i < channels.len(),
    ensures
        step is Reply,
        ({
            let response = (step->Reply_0).response@;
            let block = channels_chars(seq![channels[i]]);
            &&& tells(block, channels[i])
            &&& response == "[\n"@ + channels_chars(channels.take(i)) + block + channels_chars(
                channels.skip(i + 1),
            ) + "]\n"@
        }),
{
    lemma_listing_splits(channels, i);
    assert(tells(channels_chars(seq![channels[i]]), channels[i])) by {
        lemma_block_tells(channels[i]);
        law_channels_are_listed_in_turn(Seq::empty(), Seq::empty(), channels[i]);
    }
}

proof fn lemma_listing_splits(channels: Seq<ChannelDetails>, i: int)
    requires
        0 <= i < channels.len(),
    ensures
        list_channels_chars(channels) == "[\n"@ + channels_chars(channels.take(i))
            + channels_chars(seq![channels[i]]) + channels_chars(channels.skip(i + 1)) + "]\n"@,
{
    let one = seq![channels[i]];
    let before = channels.take(i);
    let behind = channels.skip(i + 1);
    assert(channels == before + one + behind);
    assert(channels_chars(channels) == channels_chars(before) + channels_chars(one)
        + channels_chars(behind)) by {
        law_channels_are_listed_in_turn(before, one, channels[i]);
        law_channels_are_listed_in_turn(before + one, behind, channels[i]);
    }
    lemma_regroup(
        "[\n"@,
        channels_chars(before),
        channels_chars(one),
        channels_chars(behind),
        "]\n"@,
    );
}

proof fn lemma_regroup(a: Chars, b: Chars, c: Chars, d: Chars, e: Chars)
    ensures
        a + (b + c + d) + e == a + b + c + d + e,
{
}

/// What is summed up of the channels adds up: two groups of channels have as many usable
/// ones, and as much on this side, as both have, and one channel counts if it is usable
/// and has its own balance.
pub proof fn law_channels_add_up(
    a: Seq<ChannelDetails>,
    b: Seq<ChannelDetails>,
    one: ChannelDetails,
)
    ensures
        usable(a + b) == usable(a) + usable(b),
        balance(a + b) == balance(a) + balance(b),
        usable(seq![one]) == if one.is_usable {
            1nat
        } else {
            0nat
        },
        balance(seq![one]) == one.balance_msat,
    decreases b.len(),
{
    if b.len() == 0 {
        assert(a + b == a);
    } else {
        law_channels_add_up(a, b.drop_last(), one);
        assert((a + b).drop_last() == a + b.drop_last());
        assert((a + b).last() == b.last());
    }
    assert(seq![one].drop_last().len() == 0);
    assert(usable(seq![one].drop_last()) == 0);
    assert(balance(seq![one].drop_last()) == 0);
}

/// The summary of a node tells its key, how many channels and peers it has, how many of
/// the channels can be used, and what is on this side of them, unless that cannot be
/// counted.
pub proof fn law_the_node_is_summed_up(
    node_id: Seq<u8>,
    channels: Seq<ChannelDetails>,
    num_peers: nat,
    step: Step,
)
    requires
        node_info_step(node_id, channels, num_peers, step),
    ensures
        step is Reply <==> balance(channels) <= u64::MAX,
        step !is Reply ==> step is Abort,
        step matches Step::Reply(r) ==> {
            &&& stands_in("\t\t node_pubkey: "@ + hex(node_id) + "\n"@, r.response@)
            &&& stands_in("\t\t num_channels: "@ + decimal(channels.len()) + "\n"@, r.response@)
            &&& stands_in(
                "\t\t num_usable_channels: "@ + decimal(usable(channels)) + "\n"@,
                r.response@,
            )
            &&& stands_in(
                "\t\t local_balance_msat: "@ + decimal(balance(channels)) + "\n"@,
                r.response@,
            )
            &&& stands_in("\t\t num_peers: "@ + decimal(num_peers) + "\n"@, r.response@)
            &&& r.printed@ == r.response@ + "\n"@
        },
{
    if balance(channels) <= u64::MAX {
        let text = node_info_chars(node_id, channels, num_peers);
        let a = "\t{{\n"@;
        let b = "\t\t node_pubkey: "@ + hex(node_id) + "\n"@;
        let c = "\t\t num_channels: "@ + decimal(channels.len()) + "\n"@;
        let d = "\t\t num_usable_channels: "@ + decimal(usable(channels)) + "\n"@;
        let e = "\t\t local_balance_msat: "@ + decimal(balance(channels)) + "\n"@;
        let f = "\t\t num_peers: "@ + decimal(num_peers) + "\n"@;
        let g = "\t}},\n"@;
        assert(text == a + b + c + d + e + f + g);
        assert(text == a + b + (c + d + e + f + g));
        assert(text == (a + b) + c + (d + e + f + g));
        assert(text == (a + b + c) + d + (e + f + g));
        assert(text == (a + b + c + d) + e + (f + g));
        assert(text == (a + b + c + d + e) + f + g);
    }
}

/// Every peer is listed by its key, in the order of the peers.
pub proof fn law_every_peer_is_listed(peers: Seq<[u8; 33]>, i: int, step: Step)
    requires
        list_peers_step(peers, step),
        0 <= i < peers.len(),
    ensures
        step is Reply,
        (step->Reply_0).response@ == "\t{{\n"@ + peer_lines(peers.take(i)) + (
        "\t\t peer_pubkey: "@ + hex(peers[i]@) + "\n"@) + peer_lines(peers.skip(i + 1)) + "\t}},\n"@,
        (step->Reply_0).printed@ == (step->Reply_0).response@ + "\n"@,
{
    let one = seq![peers[i]];
    let before = peers.take(i);
    let behind = peers.skip(i + 1);
    law_peers_are_listed_in_turn(before, one, peers[i]);
    law_peers_are_listed_in_turn(before + one, behind, peers[i]);
    assert(peers == before + one + behind);
    assert((step->Reply_0).response@ == "\t{{\n"@ + peer_lines(before) + peer_lines(one)
        + peer_lines(behind) + "\t}},\n"@);
}

/// Peers are listed one behind the other: the lines of two groups of peers are the lines
/// of the first and behind them those of the second, and one peer has one line.
pub proof fn law_peers_are_listed_in_turn(a: Seq<[u8; 33]>, b: Seq<[u8; 33]>, one: [u8; 33])
    ensures
        peer_lines(a + b) == peer_lines(a) + peer_lines(b),
        peer_lines(seq![one]) == "\t\t peer_pubkey: "@ + hex(one@) + "\n"@,
    decreases b.len(),
{
    if b.len() == 0 {
        assert(a + b == a);
        assert(peer_lines(a) + peer_lines(b) == peer_lines(a));
    } else {
        law_peers_are_listed_in_turn(a, b.drop_last(), one);
        assert((a + b).drop_last() == a + b.drop_last());
        assert((a + b).last() == b.last());
        let line = "\t\t peer_pubkey: "@ + hex(b.last()@) + "\n"@;
        assert(peer_lines(a) + (peer_lines(b.drop_last()) + line) == peer_lines(a) + peer_lines(
            b.drop_last(),
        ) + line);
    }
    let line = "\t\t peer_pubkey: "@ + hex(one@) + "\n"@;
    assert(seq![one].drop_last().len() == 0);
    assert(peer_lines(seq![one].drop_last()) + line == line);
}

/// While a channel cannot be used, nothing is told of what could go over it: channels that
/// differ in nothing else are listed alike.
pub proof fn law_capacity_is_told_of_usable_channels_only(
    c: ChannelDetails,
    outbound: u64,
    inbound: u64,
)
    requires
        !c.is_usable,
    ensures
        channels_chars(seq![c]) == channels_chars(
            seq![
                ChannelDetails {
                    outbound_capacity_msat: outbound,
                    inbound_capacity_msat: inbound,
                    ..c
                },
            ],
        ),
{
    let other = ChannelDetails {
        outbound_capacity_msat: outbound,
        inbound_capacity_msat: inbound,
        ..c
    };
    law_channels_are_listed_in_turn(Seq::empty(), Seq::empty(), c);
    law_channels_are_listed_in_turn(Seq::empty(), Seq::empty(), other);
}

} // verus!
