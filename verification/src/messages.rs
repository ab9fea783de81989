//! Requests about messages: signing them, and sending them over onion routes.
use vstd::prelude::*;
use vstd::utf8::encode_utf8;

use crate::hex_utils::{loose_pubkey, loose_unhex, to_pubkey, to_vec};
use crate::number::{number, parse_number};
use crate::request::{law_words_stand_for_commands, request_step};
use crate::step::{abort, announce, answer, Reply, Settings, Step};
use crate::text::{
    is_white, join2, law_a_word_is_itself, law_words_around_white_space, split_at_char, split_on,
    with_chars, words, Chars,
};
use crate::trusted::{reads_as_result, sign_message, signed_chars};

verus! {

/// Where the message begins in `signmessage <message>`.
pub const MSG_STARTPOS: usize = 12;

/// The least type of a message that is not of the protocol itself.
pub const MIN_TLV_TYPE: u64 = 64;

/// A message to be signed.
#[derive(Debug, PartialEq, Eq)]
pub struct SignMessage {
    pub message: Vec<u8>,
}

/// An onion message to be sent, and the nodes on its way.
#[derive(Debug, PartialEq, Eq)]
pub struct OnionMessage {
    pub path: Vec<[u8; 33]>,
    pub destination: [u8; 33],
    pub tlv_type: u64,
    pub data: Vec<u8>,
}

/// `signmessage <message>`: the message is all that follows one character behind
/// the command, were the command to stand at the beginning of the line.
pub open spec fn sign_message_step(line: Chars, step: Step) -> bool {
    let bytes = encode_utf8(line);
    if bytes.len() <= MSG_STARTPOS {
        step.replies(
            "ERROR: signmessage requires a message"@ + "\n"@,
            "ERROR: signmessage requires a message"@,
        )
    } else {
        step matches Step::SignMessage(s) && s.message@ == bytes.skip(MSG_STARTPOS as int)
    }
}

/// Begins to sign a message.
pub fn begin_sign_message(line: &str) -> (step: Step)
    ensures
        sign_message_step(line@, step),
{
    let bytes = line.as_bytes();
    if bytes.len() <= MSG_STARTPOS {
        return announce("ERROR: signmessage requires a message");
    }
    let mut message: Vec<u8> = Vec::new();
    let mut i: usize = MSG_STARTPOS;
    while i < bytes.len()
        invariant
            MSG_STARTPOS <= i <= bytes@.len(),
            message@ == bytes@.subrange(MSG_STARTPOS as int, i as int),
        decreases bytes@.len() - i,
    {
        message.push(bytes[i]);
        assert(bytes@.subrange(MSG_STARTPOS as int, i as int).push(bytes@[i as int])
            == bytes@.subrange(MSG_STARTPOS as int, i + 1));
        i += 1;
    }
    Step::SignMessage(SignMessage { message })
}

/// What is replied on a message to be signed, by how the outcome of signing is
/// written, which is as a result is.
pub open spec fn signed_step(text: Option<Chars>, step: Step) -> bool {
    match text {
        Some(text) => step.replies(text + "\n"@, text) && reads_as_result(text),
        None => step.aborts("invalid secret key"@),
    }
}

impl SignMessage {
    /// Goes on with the secret key of the node.
    pub fn signed(self, secret: &[u8; 32]) -> (step: Step)
        ensures
            signed_step(signed_chars(self.message@, secret@), step),
    {
        match sign_message(self.message.as_slice(), secret) {
            Some(text) => announce(&text),
            None => abort("invalid secret key"),
        }
    }
}

/// Whether every piece of text denotes a public key.
pub open spec fn all_keys(pieces: Seq<Chars>) -> bool {
    forall|i: int| 0 <= i < pieces.len() ==> loose_pubkey(#[trigger] pieces[i]) is Some
}

/// The public keys that pieces of text denote, if each of them denotes one.
pub open spec fn keys_of(pieces: Seq<Chars>) -> Option<Seq<Seq<u8>>> {
    if all_keys(pieces) {
        Some(Seq::new(pieces.len(), |i: int| loose_pubkey(pieces[i])->0))
    } else {
        None
    }
}

/// The bytes of some keys.
pub open spec fn key_bytes(keys: Seq<[u8; 33]>) -> Seq<Seq<u8>> {
    Seq::new(keys.len(), |i: int| keys[i]@)
}

/// The bytes of some keys, if there are any.
pub open spec fn maybe_keys(keys: Option<Vec<[u8; 33]>>) -> Option<Seq<Seq<u8>>> {
    match keys {
        Some(k) => Some(key_bytes(k@)),
        None => None,
    }
}

fn read_keys(pieces: &Vec<String>) -> (r: Option<Vec<[u8; 33]>>)
    ensures
        maybe_keys(r) == keys_of(pieces.deep_view()),
        r matches Some(keys) ==> keys.len() == pieces.len(),
{
    let mut keys: Vec<[u8; 33]> = Vec::new();
    let mut i: usize = 0;
    let ghost all = pieces.deep_view();
    while i < pieces.len()
        invariant
            i <= pieces.len(),
            keys.len() == i,
            all == pieces.deep_view(),
            forall|j: int| 0 <= j < i ==> loose_pubkey(#[trigger] all[j]) == Some(keys@[j]@),
        decreases pieces.len() - i,
    {
        match to_pubkey(&pieces[i]) {
            Some(key) => keys.push(key),
            None => {
                assert(loose_pubkey(all[i as int]) is None);
                return None;
            },
        }
        i += 1;
    }
    assert(all_keys(all));
    assert(key_bytes(keys@) == keys_of(all)->0);
    Some(keys)
}

/// `sendonionmessage <node_id_1,node_id_2,..,destination_node_id> <type>
/// <hex_bytes>`, where `keys` are what the node ids denote.
pub open spec fn send_onion_message_step(
    w: Seq<Chars>,
    keys: Option<Seq<Seq<u8>>>,
    step: Step,
) -> bool {
    if w.len() < 2 {
        step.replies(
            "ERROR: sendonionmessage requires at least one node id for the path"@ + "\n"@,
            "ERROR: sendonionmessage requires at least one node id for the path"@,
        )
    } else if keys is None {
        step.replies("ERROR: couldn't parse peer_pubkey\n"@, seq![])
    } else if w.len() < 3 || number(w[2], u64::MAX as nat) is Err || number(
        w[2],
        u64::MAX as nat,
    )->Ok_0 < MIN_TLV_TYPE {
        step.answers("ERROR: need an integral message type above 64"@)
    } else if w.len() < 4 || loose_unhex(w[3]) is None {
        step.answers("ERROR: need a hex data string"@)
    } else {
        step matches Step::SendOnionMessage(m) && {
            &&& keys == Some(key_bytes(m.path@).push(m.destination@))
            &&& m.tlv_type == number(w[2], u64::MAX as nat)->Ok_0
            &&& loose_unhex(w[3]) == Some(m.data@)
        }
    }
}

/// Begins to send an onion message.
pub fn send_onion_message(words: &Vec<String>) -> (step: Step)
    ensures
        send_onion_message_step(
            words.deep_view(),
            keys_of(split_on(words.deep_view()[1], ',')),
            step,
        ),
{
    let keys: Option<Vec<[u8; 33]>> = if words.len() > 1 {
        read_keys(&split_at_char(&words[1], ','))
    } else {
        None
    };
    send_onion_message_over(words, keys)
}

/// Begins to send an onion message over the nodes that the words denote; the last
/// is where it goes.
pub fn send_onion_message_over(words: &Vec<String>, keys: Option<Vec<[u8; 33]>>) -> (step: Step)
    requires
        keys matches Some(k) ==> k.len() > 0,
    ensures
        send_onion_message_step(words.deep_view(), maybe_keys(keys), step),
{
    if words.len() < 2 {
        return announce("ERROR: sendonionmessage requires at least one node id for the path");
    }
    let mut keys = match keys {
        Some(k) => k,
        None => {
            return Step::Reply(
                Reply {
                    printed: "ERROR: couldn't parse peer_pubkey\n".to_string(),
                    response: String::new(),
                },
            );
        },
    };
    if words.len() < 3 {
        return answer("ERROR: need an integral message type above 64");
    }
    let tlv_type: u64 = match parse_number(&words[2], u64::MAX) {
        Ok(n) => n,
        Err(_) => {
            return answer("ERROR: need an integral message type above 64");
        },
    };
    if tlv_type < MIN_TLV_TYPE {
        return answer("ERROR: need an integral message type above 64");
    }
    if words.len() < 4 {
        return answer("ERROR: need a hex data string");
    }
    let data = match to_vec(&words[3]) {
        Some(bytes) => bytes,
        None => {
            return answer("ERROR: need a hex data string");
        },
    };
    let ghost all = keys@;
    match keys.pop() {
        Some(destination) => {
            assert(key_bytes(all) == key_bytes(keys@).push(destination@));
            Step::SendOnionMessage(OnionMessage { path: keys, destination, tlv_type, data })
        },
        None => abort("called `Option::unwrap()` on a `None` value"),
    }
}

/// What is replied once an onion message is on its way, or could not be sent.
pub open spec fn forwarded_step(outcome: Result<(), Chars>, step: Step) -> bool {
    step.answers(
        match outcome {
            Ok(_) => "SUCCESS: forwarded onion message to first hop"@,
            Err(e) => "ERROR: failed to send onion message: "@ + e,
        },
    )
}

impl OnionMessage {
    /// Goes on once the message is on its way, or could not be sent.
    pub fn forwarded(self, outcome: Result<(), String>) -> (step: Step)
        ensures
            forwarded_step(with_chars(outcome), step),
    {
        match outcome {
            Ok(_) => answer("SUCCESS: forwarded onion message to first hop"),
            Err(e) => answer(&join2("ERROR: failed to send onion message: ", &e)),
        }
    }
}

/// An onion message goes out only with a type that is not of the protocol
/// itself, and every node on its way was named.
pub proof fn law_onion_messages_are_named(
    w: Seq<Chars>,
    keys: Option<Seq<Seq<u8>>>,
    m: OnionMessage,
)
    requires
        send_onion_message_step(w, keys, Step::SendOnionMessage(m)),
    ensures
        m.tlv_type >= MIN_TLV_TYPE,
        keys matches Some(k) && k.len() == m.path@.len() + 1 && k.last() == m.destination@,
{
}

/// Texts one behind the other are encoded one behind the other.
proof fn lemma_encoded_in_turn(a: Chars, b: Chars)
    ensures
        encode_utf8(a + b) == encode_utf8(a) + encode_utf8(b),
    decreases a.len(),
{
    if a.len() == 0 {
        assert(a + b == b);
        assert(encode_utf8(a) + encode_utf8(b) == encode_utf8(b));
    } else {
        lemma_encoded_in_turn(a.drop_first(), b);
        assert((a + b).drop_first() == a.drop_first() + b);
        assert((a + b)[0] == a[0]);
    }
}

/// What stands behind the command and one space in a line with `signmessage` is the
/// message that is signed, to the last byte, and what comes of signing it is replied.
pub proof fn law_messages_are_signed_whole(
    message: Chars,
    line: Chars,
    settings: Settings,
    secret: Seq<u8>,
    asked: Step,
    shown: Step,
)
    requires
        message.len() > 0,
        line == "signmessage"@ + seq![' '] + message,
        request_step(line, settings, asked),
        asked matches Step::SignMessage(s) ==> signed_step(signed_chars(s.message@, secret), shown),
    ensures
        asked matches Step::SignMessage(s) && s.message@ == encode_utf8(message),
        match signed_chars(encode_utf8(message), secret) {
            Some(text) => shown.replies(text + "\n"@, text),
            None => shown is Abort,
        },
{
    let command = "signmessage"@;
    reveal_strlit("signmessage");
    assert forall|i: int| 0 <= i < command.len() implies !is_white(#[trigger] command[i]) by {}
    law_a_word_is_itself(command);
    law_words_around_white_space(command, ' ', message);
    assert(words(line)[0] == command);
    law_words_stand_for_commands(command);
    let before = command + seq![' '];
    assert(before.len() == 12);
    assert(vstd::utf8::is_ascii_chars(before));
    vstd::utf8::is_ascii_chars_encode_utf8(before);
    lemma_encoded_in_turn(before, message);
    assert(line == before + message);
    vstd::utf8::encode_utf8_first_scalar(message);
    assert(encode_utf8(message).len() > 0);
    assert((encode_utf8(before) + encode_utf8(message)).skip(12) == encode_utf8(message));
}

/// A line with `sendonionmessage` has a message sent if and only if it names a way of
/// keys, a type that is not of the protocol itself, and data. The message goes over these
/// nodes in this order to the last of them, with this type and this data.
pub proof fn law_onion_messages_are_sent_as_named(
    line: Chars,
    w: Seq<Chars>,
    nodes: Seq<Chars>,
    settings: Settings,
    asked: Step,
)
    requires
        words(line) == w,
        w.len() > 0,
        w[0] == "sendonionmessage"@,
        w.len() > 1 ==> split_on(w[1], ',') == nodes,
        request_step(line, settings, asked),
    ensures
        asked is SendOnionMessage <==> {
            &&& w.len() >= 4
            &&& forall|i: int| 0 <= i < nodes.len() ==> loose_pubkey(#[trigger] nodes[i]) is Some
            &&& number(w[2], u64::MAX as nat) matches Ok(n) && n >= 64
            &&& loose_unhex(w[3]) is Some
        },
        asked !is SendOnionMessage ==> asked is Reply,
        asked matches Step::SendOnionMessage(m) ==> {
            let n = nodes.len() as int;
            &&& n >= 1
            &&& m.path@.len() == n - 1
            &&& forall|i: int|
                0 <= i < n - 1 ==> loose_pubkey(#[trigger] nodes[i]) == Some(m.path@[i]@)
            &&& loose_pubkey(nodes[n - 1]) == Some(m.destination@)
            &&& number(w[2], u64::MAX as nat)->Ok_0 == m.tlv_type
            &&& loose_unhex(w[3]) == Some(m.data@)
        },
{
    law_words_stand_for_commands(w[0]);
    if asked is SendOnionMessage {
        let m = asked->SendOnionMessage_0;
        let all = key_bytes(m.path@).push(m.destination@);
        assert(keys_of(nodes) == Some(all));
        assert(all.len() == nodes.len());
        assert(key_bytes(m.path@).len() == m.path@.len());
        assert forall|i: int| 0 <= i < nodes.len() - 1 implies loose_pubkey(#[trigger] nodes[i])
            == Some(m.path@[i]@) by {
            assert(all[i] == loose_pubkey(nodes[i])->0);
            assert(key_bytes(m.path@)[i] == m.path@[i]@);
        }
        assert(all[nodes.len() - 1] == loose_pubkey(nodes[nodes.len() - 1])->0);
    }
}

/// What comes of sending a message is replied.
pub proof fn law_forwarding_is_told(outcome: Result<(), Chars>, shown: Step)
    requires
        forwarded_step(outcome, shown),
    ensures
        match outcome {
            Ok(_) => shown.answers("SUCCESS: forwarded onion message to first hop"@),
            Err(e) => shown.answers("ERROR: failed to send onion message: "@ + e),
        },
{
}

} // verus!
