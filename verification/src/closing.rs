//! Requests that close channels.
use vstd::prelude::*;

use crate::hex_utils::{hex, law_hex_reads_back, loose_pubkey, loose_unhex, to_pubkey, to_vec};
use crate::request::{law_words_stand_for_commands, request_step};
use crate::step::{answer, Reply, Settings, Step};
use crate::text::{join2, join3, join4, with_chars, words, Chars};
use crate::types::{bytes32, maybe33};

verus! {

/// A channel and the peer at its other end.
#[derive(Clone, Copy, Debug, PartialEq, Eq)]
pub struct ChannelOfPeer {
    pub channel_id: [u8; 32],
    pub peer: [u8; 33],
}

/// The channel id that a text denotes, if it has the right length.
pub open spec fn channel_id(text: Chars) -> Option<Seq<u8>> {
    match loose_unhex(text) {
        Some(bytes) => if bytes.len() == 32 {
            Some(bytes)
        } else {
            None
        },
        None => None,
    }
}

/// What is wrong with the words that a command names a channel with, if anything
/// is; the first fault counts. `peer` is what the word for the peer denotes.
pub open spec fn channel_fault(
    w: Seq<Chars>,
    peer: Option<Seq<u8>>,
    command: Chars,
) -> Option<Chars> {
    if w.len() < 2 {
        Some(
            "ERROR: "@ + command + " requires a channel ID: `"@ + command
                + " <channel_id> <peer_pubkey>`"@,
        )
    } else if channel_id(w[1]) is None {
        Some("ERROR: couldn't parse channel_id"@)
    } else if w.len() < 3 {
        Some(
            "ERROR: "@ + command + " requires a peer pubkey: `"@ + command
                + " <channel_id> <peer_pubkey>`"@,
        )
    } else if peer is None {
        Some("ERROR: couldn't parse peer_pubkey"@)
    } else {
        None
    }
}

/// Reads which channel a command names, and the peer that the word for it
/// denotes.
pub fn read_channel(words: &Vec<String>, command: &str) -> (r: Result<ChannelOfPeer, String>)
    ensures
        match (
            r,
            channel_fault(words.deep_view(), loose_pubkey(words.deep_view()[2]), command@),
        ) {
            (Ok(c), None) => channel_id(words.deep_view()[1]) == Some(c.channel_id@)
                && loose_pubkey(words.deep_view()[2]) == Some(c.peer@),
            (Err(e), Some(fault)) => e@ == fault,
            _ => false,
        },
{
    let peer: Option<[u8; 33]> = if words.len() > 2 {
        to_pubkey(&words[2])
    } else {
        None
    };
    read_channel_with(words, peer, command)
}

/// Reads which channel with a given peer a command names.
pub fn read_channel_with(
    words: &Vec<String>,
    peer: Option<[u8; 33]>,
    command: &str,
) -> (r: Result<ChannelOfPeer, String>)
    ensures
        match (r, channel_fault(words.deep_view(), maybe33(peer), command@)) {
            (Ok(c), None) => channel_id(words.deep_view()[1]) == Some(c.channel_id@) && peer
                == Some(c.peer),
            (Err(e), Some(fault)) => e@ == fault,
            _ => false,
        },
{
    if words.len() < 2 {
        return Err(
            join2(
                &join4("ERROR: ", command, " requires a channel ID: `", command),
                " <channel_id> <peer_pubkey>`",
            ),
        );
    }
    let channel_id: Option<[u8; 32]> = match to_vec(&words[1]) {
        Some(bytes) => bytes32(&bytes),
        None => None,
    };
    let channel_id: [u8; 32] = match channel_id {
        Some(id) => id,
        None => {
            return Err("ERROR: couldn't parse channel_id".to_string());
        },
    };
    if words.len() < 3 {
        return Err(
            join2(
                &join4("ERROR: ", command, " requires a peer pubkey: `", command),
                " <channel_id> <peer_pubkey>`",
            ),
        );
    }
    match peer {
        Some(peer) => Ok(ChannelOfPeer { channel_id, peer }),
        None => Err("ERROR: couldn't parse peer_pubkey".to_string()),
    }
}

/// `closechannel <channel_id> <peer_pubkey>`
pub open spec fn close_channel_step(w: Seq<Chars>, step: Step) -> bool {
    match channel_fault(w, loose_pubkey(w[2]), "closechannel"@) {
        Some(fault) => step.answers(fault),
        None => step matches Step::CloseChannel(c) && channel_id(w[1]) == Some(c.channel_id@)
            && loose_pubkey(w[2]) == Some(c.peer@),
    }
}

/// `forceclosechannel <channel_id> <peer_pubkey>`
pub open spec fn force_close_channel_step(w: Seq<Chars>, step: Step) -> bool {
    match channel_fault(w, loose_pubkey(w[2]), "forceclosechannel"@) {
        Some(fault) => step.answers(fault),
        None => step matches Step::ForceCloseChannel(c) && channel_id(w[1]) == Some(c.channel_id@)
            && loose_pubkey(w[2]) == Some(c.peer@),
    }
}

/// Begins to close a channel.
pub fn close_channel(words: &Vec<String>) -> (step: Step)
    ensures
        close_channel_step(words.deep_view(), step),
{
    match read_channel(words, "closechannel") {
        Ok(c) => Step::CloseChannel(c),
        Err(fault) => answer(&fault),
    }
}

/// Begins to close a channel without the peer.
pub fn force_close_channel(words: &Vec<String>) -> (step: Step)
    ensures
        force_close_channel_step(words.deep_view(), step),
{
    match read_channel(words, "forceclosechannel") {
        Ok(c) => Step::ForceCloseChannel(c),
        Err(fault) => answer(&fault),
    }
}

/// What is shown once a channel is being closed, or could not be; nothing is replied.
pub open spec fn closed_step(outcome: Result<(), Chars>, step: Step) -> bool {
    step.replies(
        match outcome {
            Ok(_) => "EVENT: initiating channel close\n"@,
            Err(e) => "ERROR: failed to close channel: "@ + e + "\n"@,
        },
        seq![],
    )
}

/// What is replied once a channel is being closed without the peer, or could not be.
pub open spec fn force_closed_step(outcome: Result<(), Chars>, step: Step) -> bool {
    step.answers(
        match outcome {
            Ok(_) => "EVENT: initiating channel force-close"@,
            Err(e) => "ERROR: failed to force-close channel: "@ + e,
        },
    )
}

impl ChannelOfPeer {
    /// Goes on once the channel is being closed, or could not be. What happened
    /// is shown only.
    pub fn closed(self, outcome: Result<(), String>) -> (step: Step)
        ensures
            closed_step(with_chars(outcome), step),
    {
        let printed = match outcome {
            Ok(_) => "EVENT: initiating channel close\n".to_string(),
            Err(e) => join3("ERROR: failed to close channel: ", &e, "\n"),
        };
        Step::Reply(Reply { printed, response: String::new() })
    }

    /// Goes on once the channel is being closed without the peer, or could not
    /// be.
    pub fn force_closed(self, outcome: Result<(), String>) -> (step: Step)
        ensures
            force_closed_step(with_chars(outcome), step),
    {
        match outcome {
            Ok(_) => answer("EVENT: initiating channel force-close"),
            Err(e) => answer(&join2("ERROR: failed to force-close channel: ", &e)),
        }
    }
}

/// A channel is named by the id that it is listed with.
pub proof fn law_listed_channel_is_taken(id: Seq<u8>)
    requires
        id.len() == 32,
    ensures
        channel_id(hex(id)) == Some(id),
{
    law_hex_reads_back(id);
}

/// Whether some words name a channel and a peer.
pub open spec fn names_a_channel(w: Seq<Chars>) -> bool {
    &&& w.len() >= 3
    &&& loose_unhex(w[1]) matches Some(id) && id.len() == 32
    &&& loose_pubkey(w[2]) is Some
}

/// A line with `closechannel` or `forceclosechannel` has a channel closed if and only if
/// it names one and a peer: the channel and the peer that it names, with the peer on the
/// first command and without it on the second.
pub proof fn law_channels_are_closed_as_named(
    line: Chars,
    w: Seq<Chars>,
    settings: Settings,
    asked: Step,
)
    requires
        words(line) == w,
        w.len() > 0,
        w[0] == "closechannel"@ || w[0] == "forceclosechannel"@,
        request_step(line, settings, asked),
    ensures
        asked is CloseChannel <==> w[0] == "closechannel"@ && names_a_channel(w),
        asked is ForceCloseChannel <==> w[0] == "forceclosechannel"@ && names_a_channel(w),
        asked !is CloseChannel && asked !is ForceCloseChannel ==> asked is Reply,
        asked matches Step::CloseChannel(c) ==> loose_unhex(w[1]) == Some(c.channel_id@)
            && loose_pubkey(w[2]) == Some(c.peer@),
        asked matches Step::ForceCloseChannel(c) ==> loose_unhex(w[1]) == Some(c.channel_id@)
            && loose_pubkey(w[2]) == Some(c.peer@),
{
    law_words_stand_for_commands(w[0]);
}

/// A channel that is listed is closed by the id and the key that it is listed with.
pub proof fn law_listed_channels_can_be_closed(
    id: [u8; 32],
    peer: [u8; 33],
    line: Chars,
    settings: Settings,
    asked: Step,
)
    requires
        crate::trusted::public_key(peer@) == Some(peer@),
        words(line) == seq!["closechannel"@, hex(id@), hex(peer@)] || words(line) == seq![
            "forceclosechannel"@,
            hex(id@),
            hex(peer@),
        ],
        request_step(line, settings, asked),
    ensures
        words(line)[0] == "closechannel"@ ==> (asked matches Step::CloseChannel(c) && c.channel_id@
            == id@ && c.peer@ == peer@),
        words(line)[0] == "forceclosechannel"@ ==> (asked matches Step::ForceCloseChannel(c)
            && c.channel_id@ == id@ && c.peer@ == peer@),
{
    law_hex_reads_back(id@);
    crate::hex_utils::law_shown_key_is_taken(peer@);
    law_channels_are_closed_as_named(line, words(line), settings, asked);
}

/// What comes of closing a channel is told: with the peer it is shown, and nothing is
/// replied; without the peer it is replied.
pub proof fn law_closing_is_told(outcome: Result<(), Chars>, closed: Step, forced: Step)
    requires
        closed_step(outcome, closed),
        force_closed_step(outcome, forced),
    ensures
        match outcome {
            Ok(_) => closed.replies("EVENT: initiating channel close\n"@, seq![])
                && forced.answers("EVENT: initiating channel force-close"@),
            Err(e) => closed.replies("ERROR: failed to close channel: "@ + e + "\n"@, seq![])
                && forced.answers("ERROR: failed to force-close channel: "@ + e),
        },
{
}

} // verus!
