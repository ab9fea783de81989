//! Requests about peers: reading who they are, connecting to them and
//! disconnecting from them.
use vstd::prelude::*;

use crate::channels::{
    connected, disconnect_fault, do_disconnect_peer, is_connected, ChannelDetails,
};
use crate::hex_utils::{compressed_pubkey, hex, hex_str, to_compressed_pubkey};
use crate::request::{law_words_stand_for_commands, request_step};
use crate::step::{answer, Reply, Settings, Step};
use crate::text::{join2, join3, maybe_chars, split_at_char, split_on, words, Chars};
use crate::trusted::{parse_public_key_text, public_key_of_text};
use crate::types::maybe33;

verus! {

/// A peer whose address is to be looked up.
#[derive(Debug, PartialEq, Eq)]
pub struct ConnectResolve {
    pub peer_info: String,
    /// Host and port.
    pub host: String,
}

/// A peer to be connected to.
#[derive(Debug, PartialEq, Eq)]
pub struct ConnectPeer {
    pub pubkey: [u8; 33],
    pub address: String,
}

/// A peer.
#[derive(Clone, Copy, Debug, PartialEq, Eq)]
pub struct PeerKey {
    pub pubkey: [u8; 33],
}

/// What to do next to get connected to a peer.
#[derive(Clone, Copy, Debug, PartialEq, Eq, Structural)]
pub enum ConnectStep {
    /// The peer is connected.
    Connected,
    /// Open a connection to the peer.
    Dial,
    /// Wait a while, or until the connection is closed.
    Watch,
    /// The peer could not be connected to.
    Failed,
}

/// What ended a wait.
#[derive(Debug, PartialEq, Eq)]
pub enum Wake {
    /// The connection was closed.
    Closed,
    /// The time was up; these are the peers that are connected.
    Slept(Vec<[u8; 33]>),
}

/// The milliseconds of one wait.
pub const WATCH_MILLIS: u64 = 10;

/// Host and port in `pubkey@host:port`, if there is an `@`.
pub open spec fn peer_host(info: Chars) -> Option<Chars> {
    let pieces = split_on(info, '@');
    if pieces.len() < 2 {
        None
    } else {
        Some(pieces[1])
    }
}

/// Who a peer is, by whether its host was named, the address that was found for
/// it and the key that was read; or what is wrong.
pub open spec fn peer(
    host_named: bool,
    address: Option<Chars>,
    key: Option<Seq<u8>>,
) -> Result<(Seq<u8>, Chars), Chars> {
    match (address, key) {
        _ if !host_named => Err(
            "ERROR: incorrectly formatted peer info. Should be formatted as: `pubkey@host:port`"@,
        ),
        (None, _) => Err("ERROR: couldn't parse pubkey@host:port into a socket address"@),
        (Some(_), None) => Err("ERROR: unable to parse given pubkey for node"@),
        (Some(a), Some(k)) => Ok((k, a)),
    }
}

/// Who the peer is that `pubkey@host:port` speaks of, given the address that was
/// found for its host; or what is wrong.
pub open spec fn peer_info(info: Chars, address: Option<Chars>) -> Result<
    (Seq<u8>, Chars),
    Chars,
> {
    peer(peer_host(info) is Some, address, compressed_pubkey(split_on(info, '@')[0]))
}

/// Finds host and port in `pubkey@host:port`.
pub fn find_host(info: &str) -> (r: Option<String>)
    ensures
        match r {
            Some(host) => peer_host(info@) == Some(host@),
            None => peer_host(info@) is None,
        },
{
    let pieces = split_at_char(info, '@');
    if pieces.len() < 2 {
        None
    } else {
        Some(pieces[1].clone())
    }
}

/// Reads `pubkey@host:port`, given the address that was found for the host.
pub fn parse_peer_info(info: &str, address: Option<String>) -> (r: Result<
    ([u8; 33], String),
    String,
>)
    ensures
        match (r, peer_info(info@, maybe_chars(address))) {
            (Ok((key, a)), Ok((k, b))) => key@ == k && a@ == b,
            (Err(e), Err(f)) => e@ == f,
            _ => false,
        },
{
    let pieces = split_at_char(info, '@');
    find_peer(pieces.len() >= 2, address, to_compressed_pubkey(&pieces[0]))
}

/// Tells who a peer is, or what is wrong.
pub fn find_peer(host_named: bool, address: Option<String>, key: Option<[u8; 33]>) -> (r: Result<
    ([u8; 33], String),
    String,
>)
    ensures
        match (r, peer(host_named, maybe_chars(address), maybe33(key))) {
            (Ok((key, a)), Ok((k, b))) => key@ == k && a@ == b,
            (Err(e), Err(f)) => e@ == f,
            _ => false,
        },
{
    if !host_named {
        return Err(
            "ERROR: incorrectly formatted peer info. Should be formatted as: `pubkey@host:port`".to_string(),
        );
    }
    match (address, key) {
        (None, _) => Err(
            "ERROR: couldn't parse pubkey@host:port into a socket address".to_string(),
        ),
        (Some(_), None) => Err("ERROR: unable to parse given pubkey for node".to_string()),
        (Some(a), Some(k)) => Ok((k, a)),
    }
}

/// A fault of peer info as it is replied: in quotation marks.
pub open spec fn quoted(text: Chars) -> Chars {
    "\""@ + text + "\""@
}

/// Puts a text in quotation marks.
pub fn quote(text: &str) -> (r: String)
    ensures
        r@ == quoted(text@),
{
    join3("\"", text, "\"")
}

/// `connectpeer pubkey@host:port`
pub open spec fn connect_peer_step(w: Seq<Chars>, step: Step) -> bool {
    if w.len() < 2 {
        step.answers(
            "ERROR: connectpeer requires peer connection info: `connectpeer pubkey@host:port`"@,
        )
    } else {
        match peer_host(w[1]) {
            Some(host) => step matches Step::ConnectResolve(c) && c.peer_info@ == w[1] && c.host@
                == host,
            None => step.answers(quoted(peer_info(w[1], None)->Err_0)),
        }
    }
}

/// Begins to connect to a peer.
pub fn connect_peer(words: &Vec<String>) -> (step: Step)
    ensures
        connect_peer_step(words.deep_view(), step),
{
    if words.len() < 2 {
        return answer(
            "ERROR: connectpeer requires peer connection info: `connectpeer pubkey@host:port`",
        );
    }
    match find_host(&words[1]) {
        Some(host) => Step::ConnectResolve(ConnectResolve { peer_info: words[1].clone(), host }),
        None => answer(
            &quote(
                "ERROR: incorrectly formatted peer info. Should be formatted as: `pubkey@host:port`",
            ),
        ),
    }
}

/// What becomes of a peer to be connected to once it is known, or it is known what is
/// wrong with it.
pub open spec fn connect_known_step(peer: Result<(Seq<u8>, Chars), Chars>, step: Step) -> bool {
    match peer {
        Ok((key, a)) => step matches Step::ConnectPeer(c) && c.pubkey@ == key && c.address@ == a,
        Err(e) => step.answers(quoted(e)),
    }
}

impl ConnectResolve {
    /// Goes on once an address was found for the host, or was not.
    pub fn resolved(self, address: Option<String>) -> (step: Step)
        ensures
            connect_known_step(peer_info(self.peer_info@, maybe_chars(address)), step),
    {
        match parse_peer_info(&self.peer_info, address) {
            Ok((pubkey, address)) => Step::ConnectPeer(ConnectPeer { pubkey, address }),
            Err(e) => answer(&quote(&e)),
        }
    }
}

/// What is replied once a peer is connected, or cannot be.
pub open spec fn tried_step(c: ConnectPeer, success: bool, step: Step) -> bool {
    step.answers(
        if success {
            "SUCCESS: connected to peer "@ + hex(c.pubkey@)
        } else {
            "ERROR: failed to connect to peer "@ + hex(c.pubkey@)
        },
    )
}

impl ConnectPeer {
    /// Goes on once the peer is connected, or cannot be.
    pub fn tried(self, success: bool) -> (step: Step)
        ensures
            tried_step(self, success, step),
    {
        let key = hex_str(self.pubkey.as_slice());
        if success {
            answer(&join2("SUCCESS: connected to peer ", &key))
        } else {
            answer(&join2("ERROR: failed to connect to peer ", &key))
        }
    }
}

/// How getting connected to a peer begins.
pub open spec fn met(peers: Seq<[u8; 33]>, pubkey: Seq<u8>) -> ConnectStep {
    if connected(peers, pubkey) {
        ConnectStep::Connected
    } else {
        ConnectStep::Dial
    }
}

/// Begins to connect to a peer, unless it is among those that are connected.
pub fn connect_peer_if_necessary(pubkey: &[u8; 33], peers: &Vec<[u8; 33]>) -> (step: ConnectStep)
    ensures
        step == met(peers@, pubkey@),
{
    if is_connected(peers, pubkey) {
        ConnectStep::Connected
    } else {
        ConnectStep::Dial
    }
}

/// What comes of opening a connection.
pub open spec fn dialed(opened: bool) -> ConnectStep {
    if opened {
        ConnectStep::Watch
    } else {
        ConnectStep::Failed
    }
}

/// Goes on once a connection was opened, or was not.
pub fn do_connect_peer(opened: bool) -> (step: ConnectStep)
    ensures
        step == dialed(opened),
{
    if opened {
        ConnectStep::Watch
    } else {
        ConnectStep::Failed
    }
}

/// What a wait leads to.
pub open spec fn watched(pubkey: Seq<u8>, wake: Wake) -> ConnectStep {
    match wake {
        Wake::Closed => ConnectStep::Failed,
        Wake::Slept(peers) => if connected(peers@, pubkey) {
            ConnectStep::Connected
        } else {
            ConnectStep::Watch
        },
    }
}

/// Goes on after a wait.
pub fn watch_peer(pubkey: &[u8; 33], wake: &Wake) -> (step: ConnectStep)
    ensures
        step == watched(pubkey@, *wake),
{
    match wake {
        Wake::Closed => ConnectStep::Failed,
        Wake::Slept(peers) => if is_connected(peers, pubkey) {
            ConnectStep::Connected
        } else {
            ConnectStep::Watch
        },
    }
}

/// What is shown where a peer that was not connected could not be connected to.
pub fn connect_failure() -> (r: String)
    ensures
        r@ == "ERROR: failed to connect to peer\n"@,
{
    "ERROR: failed to connect to peer\n".to_string()
}

/// `disconnectpeer <peer_pubkey>`, where `key` is what the word denotes, or why
/// it denotes no key.
pub open spec fn disconnect_peer_step(
    w: Seq<Chars>,
    key: Result<Seq<u8>, Chars>,
    step: Step,
) -> bool {
    if w.len() < 2 {
        step.answers(
            "ERROR: disconnectpeer requires peer public key: `disconnectpeer <peer_pubkey>`"@,
        )
    } else {
        match key {
            Ok(k) => step matches Step::DisconnectPeer(p) && p.pubkey@ == k,
            Err(e) => step.answers("ERROR: couldn't parse peer pubkey: "@ + e),
        }
    }
}

/// The public key that a hexadecimal text denotes, or why it denotes none.
pub open spec fn key_or_reason(text: Chars) -> Result<Seq<u8>, Chars> {
    match public_key_of_text(text) {
        Some(key) => Ok(key),
        None => Err("malformed public key"@),
    }
}

/// Begins to disconnect from a peer.
pub fn disconnect_peer(words: &Vec<String>) -> (step: Step)
    ensures
        disconnect_peer_step(words.deep_view(), key_or_reason(words.deep_view()[1]), step),
{
    let key: Result<[u8; 33], String> = if words.len() > 1 {
        parse_public_key_text(&words[1])
    } else {
        Err(String::new())
    };
    disconnect_peer_of(words, key)
}

/// Begins to disconnect from the peer whose key the words denote.
pub fn disconnect_peer_of(words: &Vec<String>, key: Result<[u8; 33], String>) -> (step: Step)
    ensures
        disconnect_peer_step(
            words.deep_view(),
            match key {
                Ok(k) => Ok(k@),
                Err(e) => Err(e@),
            },
            step,
        ),
{
    if words.len() < 2 {
        return answer(
            "ERROR: disconnectpeer requires peer public key: `disconnectpeer <peer_pubkey>`",
        );
    }
    match key {
        Ok(pubkey) => Step::DisconnectPeer(PeerKey { pubkey }),
        Err(e) => answer(&join2("ERROR: couldn't parse peer pubkey: ", &e)),
    }
}

/// What becomes of a peer to be disconnected: one that there is a channel with, or
/// that is not connected, is kept, and it is shown why.
pub open spec fn disconnect_listed_step(
    p: PeerKey,
    channels: Seq<ChannelDetails>,
    peers: Seq<[u8; 33]>,
    step: Step,
) -> bool {
    match disconnect_fault(channels, peers, p.pubkey@) {
        Some(fault) => step.replies(
            fault + "\n"@,
            "ERROR: failed to disconnect from peer "@ + hex(p.pubkey@),
        ),
        None => step == Step::Disconnect(p),
    }
}

/// What is replied once a peer is disconnected.
pub open spec fn disconnected_step(p: PeerKey, step: Step) -> bool {
    step.answers("SUCCESS: disconnected from peer "@ + hex(p.pubkey@))
}

impl PeerKey {
    /// Goes on once channels and peers are known.
    pub fn listed(self, channels: &Vec<ChannelDetails>, peers: &Vec<[u8; 33]>) -> (step: Step)
        ensures
            disconnect_listed_step(self, channels@, peers@, step),
    {
        match do_disconnect_peer(&self.pubkey, channels, peers) {
            Ok(_) => Step::Disconnect(self),
            Err(fault) => Step::Reply(
                Reply {
                    printed: join2(&fault, "\n"),
                    response: join2(
                        "ERROR: failed to disconnect from peer ",
                        &hex_str(self.pubkey.as_slice()),
                    ),
                },
            ),
        }
    }

    /// Goes on once the peer is disconnected.
    pub fn disconnected(self) -> (step: Step)
        ensures
            disconnected_step(self, step),
    {
        answer(&join2("SUCCESS: disconnected from peer ", &hex_str(self.pubkey.as_slice())))
    }
}

/// Once a wait finds the peer connected, asking for the connection again finds
/// it connected at once.
pub proof fn law_watched_peer_is_connected(pubkey: Seq<u8>, peers: Vec<[u8; 33]>)
    ensures
        watched(pubkey, Wake::Slept(peers)) == ConnectStep::Connected <==> connected(
            peers@,
            pubkey,
        ),
{
}

/// A line with `connectpeer` has the node connect to a peer if and only if it names a key
/// and a host, and the host has an address. The node connects to the peer with that key
/// at that address, and the response tells of that peer whether it is connected.
pub proof fn law_peers_are_connected_as_named(
    line: Chars,
    w: Seq<Chars>,
    settings: Settings,
    address: Option<Chars>,
    success: bool,
    asked: Step,
    known: Step,
    shown: Step,
)
    requires
        words(line) == w,
        w.len() > 0,
        w[0] == "connectpeer"@,
        request_step(line, settings, asked),
        asked matches Step::ConnectResolve(c) ==> connect_known_step(
            peer_info(c.peer_info@, address),
            known,
        ),
        asked !is ConnectResolve ==> known == asked,
        known matches Step::ConnectPeer(c) ==> tried_step(c, success, shown),
        known !is ConnectPeer ==> shown == known,
    ensures
        known is ConnectPeer <==> w.len() >= 2 && split_on(w[1], '@').len() >= 2 && address is Some
            && compressed_pubkey(split_on(w[1], '@')[0]) is Some,
        asked matches Step::ConnectResolve(c) ==> c.host@ == split_on(w[1], '@')[1],
        known matches Step::ConnectPeer(c) ==> {
            &&& compressed_pubkey(split_on(w[1], '@')[0]) == Some(c.pubkey@)
            &&& address == Some(c.address@)
            &&& success ==> shown.answers("SUCCESS: connected to peer "@ + hex(c.pubkey@))
            &&& !success ==> shown.answers("ERROR: failed to connect to peer "@ + hex(c.pubkey@))
        },
        shown is Reply,
{
    law_words_stand_for_commands(w[0]);
}

/// Getting connected ends well exactly when the peer is found among those that are
/// connected. A connection is opened only to a peer that is not, and it is given up as
/// soon as it cannot be opened or is closed, and not before.
pub proof fn law_connections_are_followed(
    pubkey: Seq<u8>,
    peers: Seq<[u8; 33]>,
    later: Vec<[u8; 33]>,
)
    ensures
        met(peers, pubkey) == ConnectStep::Connected <==> exists|i: int|
            0 <= i < peers.len() && (#[trigger] peers[i])@ == pubkey,
        met(peers, pubkey) != ConnectStep::Connected ==> met(peers, pubkey) == ConnectStep::Dial,
        dialed(true) == ConnectStep::Watch,
        dialed(false) == ConnectStep::Failed,
        watched(pubkey, Wake::Closed) == ConnectStep::Failed,
        watched(pubkey, Wake::Slept(later)) == ConnectStep::Connected <==> exists|i: int|
            0 <= i < later@.len() && (#[trigger] later@[i])@ == pubkey,
        watched(pubkey, Wake::Slept(later)) != ConnectStep::Connected ==> watched(
            pubkey,
            Wake::Slept(later),
        ) == ConnectStep::Watch,
{
}

/// A line with `disconnectpeer` has the node disconnect from a peer if and only if it
/// names a key, the node is connected to the peer with that key and has no channel with
/// it. The response tells of that peer whether it is disconnected.
pub proof fn law_peers_are_disconnected_as_named(
    line: Chars,
    w: Seq<Chars>,
    settings: Settings,
    channels: Seq<ChannelDetails>,
    peers: Seq<[u8; 33]>,
    asked: Step,
    listed: Step,
    shown: Step,
)
    requires
        words(line) == w,
        w.len() > 0,
        w[0] == "disconnectpeer"@,
        request_step(line, settings, asked),
        asked matches Step::DisconnectPeer(p) ==> disconnect_listed_step(
            p,
            channels,
            peers,
            listed,
        ),
        asked !is DisconnectPeer ==> listed == asked,
        listed matches Step::Disconnect(p) ==> disconnected_step(p, shown),
        listed !is Disconnect ==> shown == listed,
    ensures
        listed is Disconnect <==> {
            &&& w.len() >= 2
            &&& public_key_of_text(w[1]) is Some
            &&& exists|i: int|
                0 <= i < peers.len() && (#[trigger] peers[i])@ == public_key_of_text(w[1])->0
            &&& forall|i: int|
                0 <= i < channels.len() ==> (#[trigger] channels[i]).counterparty@
                    != public_key_of_text(w[1])->0
        },
        asked matches Step::DisconnectPeer(p) ==> public_key_of_text(w[1]) == Some(p.pubkey@),
        asked !is DisconnectPeer ==> asked is Reply,
        listed matches Step::Disconnect(p) ==> {
            &&& public_key_of_text(w[1]) == Some(p.pubkey@)
            &&& shown.answers("SUCCESS: disconnected from peer "@ + hex(p.pubkey@))
        },
        asked is DisconnectPeer && listed !is Disconnect ==> (shown matches Step::Reply(r)
            && r.response@ == "ERROR: failed to disconnect from peer "@ + hex(
            public_key_of_text(w[1])->0,
        )),
{
    law_words_stand_for_commands(w[0]);
}

} // verus!
