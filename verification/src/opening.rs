//! The request that opens a channel.
use vstd::prelude::*;

use crate::channels::RgbInfo;
use crate::hex_utils::{compressed_pubkey, hex, hex_str};
use crate::number::{decimal, decimal_text, number, parse_number};
use crate::paying::HTLC_MIN_MSAT;
use crate::peers::{find_host, parse_peer_info, peer_host, peer_info, quote, quoted};
use crate::request::{law_words_stand_for_commands, request_step};
use crate::run::{comes_next, is_run};
use crate::step::{abort, answer, Reply, Settings, Step};
use crate::text::{join2, join3, maybe_chars, same_text, split_on, with_chars, words, Chars};
use crate::trusted::{contract_id, hex_encode, parse_consignment_endpoint, parse_contract_id};
use crate::types::maybe32;

verus! {

pub const OPENCHANNEL_MIN_SAT: u64 = 5000;

pub const OPENCHANNEL_MAX_SAT: u64 = 16777215;

pub const DUST_LIMIT_MSAT: u64 = 546000;

/// The longest delay that a peer may ask for, as other nodes have it.
pub const THEIR_TO_SELF_DELAY: u16 = 2016;

/// A channel asked for, before the address of the peer is known: the words of the
/// request.
#[derive(Debug, PartialEq, Eq)]
pub struct OpenResolve {
    pub peer_info: String,
    /// Host and port.
    pub host: String,
    pub channel_value_sat: String,
    pub push_value_msat: String,
    pub contract_id: String,
    pub channel_value_rgb: String,
    pub public: Option<String>,
}

/// A channel asked for, with everything read but whether it is public.
#[derive(Debug, PartialEq, Eq)]
pub struct OpenRequest {
    pub peer_info: String,
    pub pubkey: [u8; 33],
    pub address: String,
    pub chan_amt_sat: u64,
    pub push_amt_msat: u64,
    pub contract_id: [u8; 32],
    pub chan_amt_rgb: u64,
    pub public: Option<String>,
}

/// A channel to be proposed.
#[derive(Debug, PartialEq, Eq)]
pub struct ChannelOffer {
    pub request: OpenRequest,
    pub announced_channel: bool,
    pub our_htlc_minimum_msat: u64,
    pub their_to_self_delay: u16,
    pub user_channel_id: u128,
    /// Where the consignment is exchanged.
    pub consignment_endpoint: String,
}

/// A channel that was proposed: what to show, and what to write down where.
#[derive(Debug, PartialEq, Eq)]
pub struct RecordChannel {
    pub printed: String,
    pub peer_data_path: String,
    pub peer_info: String,
    pub info_path: String,
    pub info: RgbInfo,
}

/// `openchannel pubkey@host:port <chan_amt_satoshis> <push_amt_msatoshis>
/// <rgb_contract_id> <chan_amt_rgb> [--public]`
pub open spec fn open_channel_step(w: Seq<Chars>, step: Step) -> bool {
    if w.len() < 6 {
        step.answers(
            "ERROR: openchannel has 5 required arguments: `openchannel pubkey@host:port chan_amt_satoshis push_amt_msatoshis rgb_contract_id chan_amt_rgb` [--public]"@,
        )
    } else {
        match peer_host(w[1]) {
            Some(host) => step matches Step::OpenResolve(o) && {
                &&& o.peer_info@ == w[1]
                &&& o.host@ == host
                &&& o.channel_value_sat@ == w[2]
                &&& o.push_value_msat@ == w[3]
                &&& o.contract_id@ == w[4]
                &&& o.channel_value_rgb@ == w[5]
                &&& match o.public {
                    Some(p) => w.len() > 6 && p@ == w[6],
                    None => w.len() == 6,
                }
            },
            None => step.answers(quoted(peer_info(w[1], None)->Err_0)),
        }
    }
}

/// Begins to open a channel.
pub fn open_channel(words: &Vec<String>) -> (step: Step)
    ensures
        open_channel_step(words.deep_view(), step),
{
    if words.len() < 6 {
        return answer(
            "ERROR: openchannel has 5 required arguments: `openchannel pubkey@host:port chan_amt_satoshis push_amt_msatoshis rgb_contract_id chan_amt_rgb` [--public]",
        );
    }
    let host = match find_host(&words[1]) {
        Some(h) => h,
        None => {
            return answer(
                &quote(
                    "ERROR: incorrectly formatted peer info. Should be formatted as: `pubkey@host:port`",
                ),
            );
        },
    };
    let public: Option<String> = if words.len() > 6 {
        Some(words[6].clone())
    } else {
        None
    };
    Step::OpenResolve(
        OpenResolve {
            peer_info: words[1].clone(),
            host,
            channel_value_sat: words[2].clone(),
            push_value_msat: words[3].clone(),
            contract_id: words[4].clone(),
            channel_value_rgb: words[5].clone(),
            public,
        },
    )
}

/// What is wrong with the amounts of a channel and its asset, if anything is; the
/// first fault counts. `id` is what the contract id denotes.
pub open spec fn terms_fault(
    channel_value_sat: Chars,
    push_value_msat: Chars,
    id: Option<Seq<u8>>,
    channel_value_rgb: Chars,
) -> Option<Chars> {
    let sat = number(channel_value_sat, u64::MAX as nat);
    let push = number(push_value_msat, u64::MAX as nat);
    if sat is Err {
        Some("ERROR: channel amount must be a number"@)
    } else if sat->Ok_0 < OPENCHANNEL_MIN_SAT {
        Some(
            "ERROR: channel amount must be equal or higher than "@ + decimal(
                OPENCHANNEL_MIN_SAT as nat,
            ),
        )
    } else if sat->Ok_0 > OPENCHANNEL_MAX_SAT {
        Some(
            "ERROR: channel amount must be equal or less than "@ + decimal(
                OPENCHANNEL_MAX_SAT as nat,
            ),
        )
    } else if push is Err {
        Some("ERROR: push amount must be a number"@)
    } else if push->Ok_0 < DUST_LIMIT_MSAT {
        Some(
            "ERROR: push amount must be equal or higher than the dust limit ("@ + decimal(
                DUST_LIMIT_MSAT as nat,
            ) + ")"@,
        )
    } else if id is None {
        Some("ERROR: contract_id must be a valid RGB asset ID"@)
    } else if number(channel_value_rgb, u64::MAX as nat) is Err {
        Some("ERROR: channel RGB amount must be a number"@)
    } else {
        None
    }
}

/// The amounts of a channel and its asset: satoshis, millisatoshis to push,
/// contract id and amount of the asset.
pub fn read_terms(
    channel_value_sat: &str,
    push_value_msat: &str,
    id: Option<[u8; 32]>,
    channel_value_rgb: &str,
) -> (r: Result<(u64, u64, [u8; 32], u64), String>)
    ensures
        match (
            r,
            terms_fault(channel_value_sat@, push_value_msat@, maybe32(id), channel_value_rgb@),
        ) {
            (Ok((sat, push, contract_id, rgb)), None) => {
                &&& sat == number(channel_value_sat@, u64::MAX as nat)->Ok_0
                &&& push == number(push_value_msat@, u64::MAX as nat)->Ok_0
                &&& id == Some(contract_id)
                &&& rgb == number(channel_value_rgb@, u64::MAX as nat)->Ok_0
            },
            (Err(e), Some(fault)) => e@ == fault,
            _ => false,
        },
{
    let sat: u64 = match parse_number(channel_value_sat, u64::MAX) {
        Ok(n) => n,
        Err(_) => {
            return Err("ERROR: channel amount must be a number".to_string());
        },
    };
    if sat < OPENCHANNEL_MIN_SAT {
        return Err(
            join2(
                "ERROR: channel amount must be equal or higher than ",
                &decimal_text(OPENCHANNEL_MIN_SAT),
            ),
        );
    }
    if sat > OPENCHANNEL_MAX_SAT {
        return Err(
            join2(
                "ERROR: channel amount must be equal or less than ",
                &decimal_text(OPENCHANNEL_MAX_SAT),
            ),
        );
    }
    let push: u64 = match parse_number(push_value_msat, u64::MAX) {
        Ok(n) => n,
        Err(_) => {
            return Err("ERROR: push amount must be a number".to_string());
        },
    };
    if push < DUST_LIMIT_MSAT {
        return Err(
            join3(
                "ERROR: push amount must be equal or higher than the dust limit (",
                &decimal_text(DUST_LIMIT_MSAT),
                ")",
            ),
        );
    }
    let id: [u8; 32] = match id {
        Some(id) => id,
        None => {
            return Err("ERROR: contract_id must be a valid RGB asset ID".to_string());
        },
    };
    match parse_number(channel_value_rgb, u64::MAX) {
        Ok(rgb) => Ok((sat, push, id, rgb)),
        Err(_) => Err("ERROR: channel RGB amount must be a number".to_string()),
    }
}

/// What becomes of a channel asked for once the peer is known, or it is known what
/// is wrong with it. `id` is what the contract id denotes.
pub open spec fn known_step(
    o: OpenResolve,
    peer: Result<(Seq<u8>, Chars), Chars>,
    id: Option<Seq<u8>>,
    step: Step,
) -> bool {
    match peer {
        Ok((key, a)) => match terms_fault(
            o.channel_value_sat@,
            o.push_value_msat@,
            id,
            o.channel_value_rgb@,
        ) {
            Some(fault) => step.answers(fault),
            None => step matches Step::OpenTotal(r) && {
                &&& r.peer_info == o.peer_info
                &&& r.pubkey@ == key
                &&& r.address@ == a
                &&& r.chan_amt_sat == number(o.channel_value_sat@, u64::MAX as nat)->Ok_0
                &&& r.push_amt_msat == number(o.push_value_msat@, u64::MAX as nat)->Ok_0
                &&& id == Some(r.contract_id@)
                &&& r.chan_amt_rgb == number(o.channel_value_rgb@, u64::MAX as nat)->Ok_0
                &&& r.public == o.public
            },
        },
        Err(e) => step.answers(quoted(e)),
    }
}

impl OpenResolve {
    /// Goes on once an address was found for the host, or was not.
    pub fn resolved(self, address: Option<String>) -> (step: Step)
        ensures
            known_step(
                self,
                peer_info(self.peer_info@, maybe_chars(address)),
                contract_id(self.contract_id@),
                step,
            ),
    {
        let peer = parse_peer_info(&self.peer_info, address);
        let id = parse_contract_id(&self.contract_id);
        self.known(peer, id)
    }

    /// Goes on once the peer is known, or it is known what is wrong with it, and
    /// the contract id is read.
    pub fn known(
        self,
        peer: Result<([u8; 33], String), String>,
        id: Option<[u8; 32]>,
    ) -> (step: Step)
        ensures
            known_step(
                self,
                match peer {
                    Ok((key, a)) => Ok((key@, a@)),
                    Err(e) => Err(e@),
                },
                maybe32(id),
                step,
            ),
    {
        let (pubkey, address) = match peer {
            Ok(p) => p,
            Err(e) => {
                return answer(&quote(&e));
            },
        };
        match read_terms(
            &self.channel_value_sat,
            &self.push_value_msat,
            id,
            &self.channel_value_rgb,
        ) {
            Ok((chan_amt_sat, push_amt_msat, contract_id, chan_amt_rgb)) => Step::OpenTotal(
                OpenRequest {
                    peer_info: self.peer_info,
                    pubkey,
                    address,
                    chan_amt_sat,
                    push_amt_msat,
                    contract_id,
                    chan_amt_rgb,
                    public: self.public,
                },
            ),
            Err(fault) => answer(&fault),
        }
    }
}

/// Whether a channel is announced, by the last word of the request.
pub open spec fn announced(public: Option<Chars>) -> Option<bool> {
    match public {
        None => Some(false),
        Some(p) => if p == "--public"@ || p == "--public=true"@ {
            Some(true)
        } else if p == "--public=false"@ {
            Some(false)
        } else {
            None
        },
    }
}

/// Reads whether a channel is announced.
pub fn read_announced(public: &Option<String>) -> (r: Option<bool>)
    ensures
        r == announced(maybe_chars(*public)),
{
    match public {
        None => Some(false),
        Some(p) => if same_text(p, "--public") || same_text(p, "--public=true") {
            Some(true)
        } else if same_text(p, "--public=false") {
            Some(false)
        } else {
            None
        },
    }
}

/// What becomes of a channel asked for once the peer is connected, or cannot be.
pub open spec fn connected_step(
    request: OpenRequest,
    success: bool,
    proxy_url: Chars,
    step: Step,
) -> bool {
    if !success {
        step.answers(""@)
    } else {
        match announced(maybe_chars(request.public)) {
            Some(public) => step matches Step::OpenChannel(o) && {
                &&& o.request == request
                &&& o.announced_channel == public
                &&& o.our_htlc_minimum_msat == HTLC_MIN_MSAT
                &&& o.their_to_self_delay == THEIR_TO_SELF_DELAY
                &&& o.user_channel_id == 0
                &&& o.consignment_endpoint@ == "rgbhttpjsonrpc:"@ + proxy_url
            },
            None => step.answers(
                "ERROR: invalid `--public` command format. Valid formats: `--public`, `--public=true` `--public=false`"@,
            ),
        }
    }
}

/// What becomes of a channel asked for once it is known how much there is of its
/// asset.
pub open spec fn open_counted_step(
    request: OpenRequest,
    amount: Result<u64, Chars>,
    step: Step,
) -> bool {
    match amount {
        Ok(n) => if request.chan_amt_rgb > n {
            step.answers("ERROR: do not have enough RGB assets"@)
        } else {
            step == Step::OpenConnect(request)
        },
        Err(e) => step.answers("ERROR: "@ + e),
    }
}

impl OpenRequest {
    /// Goes on once it is known how much there is of the asset, or why it is
    /// not.
    pub fn counted(self, amount: Result<u64, String>) -> (step: Step)
        ensures
            open_counted_step(self, with_chars(amount), step),
    {
        match amount {
            Ok(n) => if self.chan_amt_rgb > n {
                answer("ERROR: do not have enough RGB assets")
            } else {
                Step::OpenConnect(self)
            },
            Err(e) => answer(&join2("ERROR: ", &e)),
        }
    }

    /// Goes on once the peer is connected, or cannot be.
    pub fn connected(self, success: bool, settings: &Settings) -> (step: Step)
        ensures
            connected_step(self, success, settings.proxy_url@, step),
    {
        if !success {
            return answer("");
        }
        let announced_channel = match read_announced(&self.public) {
            Some(b) => b,
            None => {
                return answer(
                    "ERROR: invalid `--public` command format. Valid formats: `--public`, `--public=true` `--public=false`",
                );
            },
        };
        let endpoint = join2("rgbhttpjsonrpc:", &settings.proxy_url);
        proof {
            let prefix = "rgbhttpjsonrpc:"@;
            assert(endpoint@.subrange(0, prefix.len() as int) == prefix);
        }
        match parse_consignment_endpoint(&endpoint) {
            Some(address) => Step::OpenChannel(
                ChannelOffer {
                    request: self,
                    announced_channel,
                    our_htlc_minimum_msat: HTLC_MIN_MSAT,
                    their_to_self_delay: THEIR_TO_SELF_DELAY,
                    user_channel_id: 0,
                    consignment_endpoint: join2("rgbhttpjsonrpc:", &address),
                },
            ),
            None => abort("invalid consignment endpoint"),
        }
    }
}

/// What becomes of a channel that was proposed.
pub open spec fn opened_step(
    request: OpenRequest,
    id: Result<[u8; 32], Chars>,
    dir: Chars,
    step: Step,
) -> bool {
    match id {
        Ok(id) => step matches Step::RecordChannel(r) && {
            &&& r.printed@ == "EVENT: initiated channel with peer "@ + hex(request.pubkey@)
                + ". \n"@
            &&& r.peer_data_path@ == dir + "/channel_peer_data"@
            &&& r.peer_info == request.peer_info
            &&& r.info_path@ == dir + "/"@ + hex(id@)
            &&& r.info == RgbInfo {
                contract_id: request.contract_id,
                local_rgb_amount: request.chan_amt_rgb,
                remote_rgb_amount: 0,
            }
        },
        Err(e) => step.replies("ERROR: failed to open channel: "@ + e + "\n"@, "ERROR: ()"@),
    }
}

impl ChannelOffer {
    /// Goes on once the channel was proposed and has a temporary id, or could not
    /// be proposed.
    pub fn opened(self, id: Result<[u8; 32], String>, settings: &Settings) -> (step: Step)
        ensures
            opened_step(self.request, with_chars(id), settings.ldk_data_dir@, step),
    {
        match id {
            Ok(id) => Step::RecordChannel(
                RecordChannel {
                    printed: join3(
                        "EVENT: initiated channel with peer ",
                        &hex_str(self.request.pubkey.as_slice()),
                        ". \n",
                    ),
                    peer_data_path: join2(&settings.ldk_data_dir, "/channel_peer_data"),
                    peer_info: self.request.peer_info,
                    info_path: join3(&settings.ldk_data_dir, "/", &hex_encode(id.as_slice())),
                    info: RgbInfo {
                        contract_id: self.request.contract_id,
                        local_rgb_amount: self.request.chan_amt_rgb,
                        remote_rgb_amount: 0,
                    },
                },
            ),
            Err(e) => Step::Reply(
                Reply {
                    printed: join3("ERROR: failed to open channel: ", &e, "\n"),
                    response: "ERROR: ()".to_string(),
                },
            ),
        }
    }
}

/// What is replied once peer and asset of a channel are written down.
pub open spec fn recorded_step(r: RecordChannel, step: Step) -> bool {
    step.answers("Wrote RGB channel info to "@ + r.info_path@)
}

impl RecordChannel {
    /// Goes on once peer and asset are written down.
    pub fn recorded(self) -> (step: Step)
        ensures
            recorded_step(self, step),
    {
        answer(&join2("Wrote RGB channel info to ", &self.info_path))
    }
}

/// A request for a channel goes on to its asset only within the limits that are
/// set for channels.
pub proof fn law_channels_are_within_limits(
    o: OpenResolve,
    peer: Result<(Seq<u8>, Chars), Chars>,
    id: Option<Seq<u8>>,
    request: OpenRequest,
)
    requires
        known_step(o, peer, id, Step::OpenTotal(request)),
    ensures
        OPENCHANNEL_MIN_SAT <= request.chan_amt_sat <= OPENCHANNEL_MAX_SAT,
        request.push_amt_msat >= DUST_LIMIT_MSAT,
{
}

/// Whether some words name a channel that may be proposed: a peer, amounts within the
/// limits, an asset, an amount of it, and at most a word on whether it is public.
pub open spec fn names_a_channel(w: Seq<Chars>) -> bool {
    &&& w.len() >= 6
    &&& split_on(w[1], '@').len() >= 2
    &&& compressed_pubkey(split_on(w[1], '@')[0]) is Some
    &&& number(w[2], u64::MAX as nat) matches Ok(sat) && 5000 <= sat <= 16777215
    &&& number(w[3], u64::MAX as nat) matches Ok(push) && push >= 546000
    &&& contract_id(w[4]) is Some
    &&& number(w[5], u64::MAX as nat) is Ok
    &&& w.len() > 6 ==> w[6] == "--public"@ || w[6] == "--public=true"@ || w[6]
        == "--public=false"@
}

/// Whether a channel is proposed as some words name it.
pub open spec fn is_named(o: ChannelOffer, w: Seq<Chars>) -> bool {
    &&& o.request.peer_info@ == w[1]
    &&& compressed_pubkey(split_on(w[1], '@')[0]) == Some(o.request.pubkey@)
    &&& number(w[2], u64::MAX as nat) matches Ok(sat) && sat == o.request.chan_amt_sat
    &&& number(w[3], u64::MAX as nat) matches Ok(push) && push == o.request.push_amt_msat
    &&& contract_id(w[4]) == Some(o.request.contract_id@)
    &&& number(w[5], u64::MAX as nat) matches Ok(rgb) && rgb == o.request.chan_amt_rgb
    &&& o.announced_channel <==> w.len() > 6 && (w[6] == "--public"@ || w[6]
        == "--public=true"@)
}

/// A line with `openchannel` has a channel proposed if and only if it names one within
/// the limits, the host has an address, there is enough of the asset, and the peer can
/// be connected to. The channel is proposed as named, to the address of the host that is
/// named, and is announced if and only if the line says so.
pub proof fn law_channels_are_proposed_as_named(
    line: Chars,
    w: Seq<Chars>,
    settings: Settings,
    address: Option<Chars>,
    have: u64,
    success: bool,
    s0: Step,
    s1: Step,
    s2: Step,
    s3: Step,
)
    requires
        words(line) == w,
        w.len() > 0,
        w[0] == "openchannel"@,
        request_step(line, settings, s0),
        s0 matches Step::OpenResolve(o) ==> known_step(
            o,
            peer_info(o.peer_info@, address),
            contract_id(o.contract_id@),
            s1,
        ),
        s0 !is OpenResolve ==> s1 == s0,
        s1 matches Step::OpenTotal(r) ==> open_counted_step(r, Ok(have), s2),
        s1 !is OpenTotal ==> s2 == s1,
        s2 matches Step::OpenConnect(r) ==> connected_step(r, success, settings.proxy_url@, s3),
        s2 !is OpenConnect ==> s3 == s2,
    ensures
        s3 is OpenChannel <==> names_a_channel(w) && address is Some && number(
            w[5],
            u64::MAX as nat,
        )->Ok_0 <= have && success,
        s3 !is OpenChannel ==> s3 is Reply,
        s0 matches Step::OpenResolve(o) ==> o.host@ == split_on(w[1], '@')[1],
        s1 matches Step::OpenTotal(r) ==> contract_id(w[4]) == Some(r.contract_id@),
        s2 matches Step::OpenConnect(r) ==> {
            &&& compressed_pubkey(split_on(w[1], '@')[0]) == Some(r.pubkey@)
            &&& address == Some(r.address@)
        },
        s3 matches Step::OpenChannel(o) ==> {
            &&& is_named(o, w)
            &&& address == Some(o.request.address@)
            &&& o.our_htlc_minimum_msat == 3000000
            &&& o.their_to_self_delay == 2016
            &&& o.user_channel_id == 0
            &&& o.consignment_endpoint@ == "rgbhttpjsonrpc:"@ + settings.proxy_url@
        },
{
    law_words_stand_for_commands(w[0]);
}

/// A step of opening a channel comes after the step before it and after no other.
proof fn lemma_before_a_channel(settings: Settings, before: Step, after: Step)
    requires
        comes_next(settings, before, after),
    ensures
        after !is OpenResolve,
        after is OpenTotal ==> before is OpenResolve,
        after is OpenConnect ==> before is OpenTotal,
        after is OpenChannel ==> before is OpenConnect,
        after is RecordChannel ==> before is OpenChannel,
{
}

proof fn lemma_steps_of_a_channel(line: Chars, settings: Settings, steps: Seq<Step>, i: int)
    requires
        is_run(line, settings, steps),
        0 <= i < steps.len(),
    ensures
        steps[i] is OpenResolve ==> i == 0,
        steps[i] is OpenTotal ==> i == 1 && steps[0] is OpenResolve,
        steps[i] is OpenConnect ==> i == 2 && steps[0] is OpenResolve && steps[1] is OpenTotal,
        steps[i] is OpenChannel ==> i == 3 && steps[0] is OpenResolve && steps[1] is OpenTotal
            && steps[2] is OpenConnect,
        steps[i] is RecordChannel ==> i == 4 && steps[0] is OpenResolve && steps[1] is OpenTotal
            && steps[2] is OpenConnect && steps[3] is OpenChannel,
    decreases i,
{
    if i > 0 {
        lemma_steps_of_a_channel(line, settings, steps, i - 1);
        assert(comes_next(settings, steps[i - 1], steps[i - 1 + 1]));
        lemma_before_a_channel(settings, steps[i - 1], steps[i]);
    }
}

/// Over a whole run, every channel that is proposed is one that the line asks for, word
/// by word; in particular it is announced if and only if the line says so.
pub proof fn law_only_named_channels_are_proposed(
    line: Chars,
    settings: Settings,
    steps: Seq<Step>,
    o: ChannelOffer,
)
    requires
        is_run(line, settings, steps),
        steps.last() == Step::OpenChannel(o),
    ensures
        words(line).len() >= 6,
        words(line)[0] == "openchannel"@,
        names_a_channel(words(line)),
        is_named(o, words(line)),
{
    lemma_steps_of_a_channel(line, settings, steps, steps.len() - 1);
    law_words_stand_for_commands(words(line)[0]);
    assert(comes_next(settings, steps[0], steps[1]));
    assert(comes_next(settings, steps[1], steps[2]));
    assert(comes_next(settings, steps[2], steps[3]));
}

/// Of a channel that was proposed, the peer is written down as it was named, and the
/// asset with all that was put in on this side, under the id of the channel. Of one that
/// could not be proposed nothing is written down.
pub proof fn law_proposed_channels_are_written_down(
    o: ChannelOffer,
    w: Seq<Chars>,
    id: Result<[u8; 32], Chars>,
    dir: Chars,
    opened: Step,
    shown: Step,
)
    requires
        is_named(o, w),
        opened_step(o.request, id, dir, opened),
        opened matches Step::RecordChannel(r) ==> recorded_step(r, shown),
        opened !is RecordChannel ==> shown == opened,
    ensures
        opened is RecordChannel <==> id is Ok,
        shown is Reply,
        opened matches Step::RecordChannel(r) ==> {
            &&& r.peer_info@ == w[1]
            &&& r.peer_data_path@ == dir + "/channel_peer_data"@
            &&& r.info_path@ == dir + "/"@ + hex(id->Ok_0@)
            &&& contract_id(w[4]) == Some(r.info.contract_id@)
            &&& number(w[5], u64::MAX as nat) matches Ok(rgb) && rgb == r.info.local_rgb_amount
            &&& r.info.remote_rgb_amount == 0
            &&& shown.answers("Wrote RGB channel info to "@ + dir + "/"@ + hex(id->Ok_0@))
            &&& r.printed@ == "EVENT: initiated channel with peer "@ + hex(o.request.pubkey@)
                + ". \n"@
        },
{
    if id is Ok {
        assert("Wrote RGB channel info to "@ + (dir + "/"@ + hex(id->Ok_0@))
            == "Wrote RGB channel info to "@ + dir + "/"@ + hex(id->Ok_0@));
    }
}

/// Where the asset of a channel cannot be counted, it is told why, and where there is too
/// little of it, the channel is not gone on with.
pub proof fn law_channels_without_assets_are_refused(
    request: OpenRequest,
    have: Result<u64, Chars>,
    counted: Step,
)
    requires
        open_counted_step(request, have, counted),
    ensures
        match have {
            Ok(n) => if request.chan_amt_rgb <= n {
                counted == Step::OpenConnect(request)
            } else {
                counted.answers("ERROR: do not have enough RGB assets"@)
            },
            Err(e) => counted.answers("ERROR: "@ + e),
        },
{
}

} // verus!
