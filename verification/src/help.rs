//! The list of commands.
use vstd::prelude::*;

use crate::request::{command, law_words_stand_for_commands, request_step, Command};
use crate::step::{Reply, Settings, Step};
use crate::text::{join4, stands_in, words, Chars};

verus! {

/// How many commands are listed.
pub const NUM_LISTED: usize = 26;

/// What the list says of a command: what stands before its word, the word, and what
/// stands behind it.
pub open spec fn entry(i: int) -> (Chars, Chars, Chars) {
    if i == 0 {
        ("  "@, "help"@, "\tShows a list of commands.\n"@)
    } else if i == 1 {
        ("  "@, "quit"@, "\tClose the application.\n"@)
    } else if i == 2 {
        ("\n  Channels:\n      "@, "openchannel"@, " pubkey@host:port <chan_amt_satoshis> <push_amt_msatoshis> <rgb_contract_id> <chan_amt_rgb> [--public]\n"@)
    } else if i == 3 {
        ("      "@, "closechannel"@, " <channel_id> <peer_pubkey>\n"@)
    } else if i == 4 {
        ("      "@, "forceclosechannel"@, " <channel_id> <peer_pubkey>\n"@)
    } else if i == 5 {
        ("      "@, "listchannels"@, "\n"@)
    } else if i == 6 {
        ("\n  Peers:\n      "@, "connectpeer"@, " pubkey@host:port\n"@)
    } else if i == 7 {
        ("      "@, "disconnectpeer"@, " <peer_pubkey>\n"@)
    } else if i == 8 {
        ("      "@, "listpeers"@, "\n"@)
    } else if i == 9 {
        ("\n  Payments:\n      "@, "sendpayment"@, " <invoice>\n"@)
    } else if i == 10 {
        ("      "@, "keysend"@, " <dest_pubkey> <amt_msats> <rgb_contract_id> <amt_rgb>\n"@)
    } else if i == 11 {
        ("      "@, "listpayments"@, "\n"@)
    } else if i == 12 {
        ("\n  Invoices:\n      "@, "getinvoice"@, " <amt_msats> <expiry_secs> <rgb_contract_id> <amt_rgb>\n"@)
    } else if i == 13 {
        ("      "@, "invoicestatus"@, " <invoice>\n"@)
    } else if i == 14 {
        ("\n  Onchain:\n      "@, "getaddress"@, "\n"@)
    } else if i == 15 {
        ("      "@, "listunspent"@, "\n"@)
    } else if i == 16 {
        ("\n  RGB:\n      "@, "createutxos"@, "\n"@)
    } else if i == 17 {
        ("      "@, "issueasset"@, " <supply> <ticker> <name> <precision>\n"@)
    } else if i == 18 {
        ("      "@, "assetbalance"@, " <contract_id>\n"@)
    } else if i == 19 {
        ("      "@, "sendasset"@, " <rgb_contract_id> <amt_rgb>\n"@)
    } else if i == 20 {
        ("      "@, "receiveasset"@, "\n"@)
    } else if i == 21 {
        ("      "@, "refresh"@, "\n"@)
    } else if i == 22 {
        ("\n  Other:\n      "@, "mine"@, " <num_blocks>\n"@)
    } else if i == 23 {
        ("      "@, "signmessage"@, " <message>\n"@)
    } else if i == 24 {
        ("      "@, "sendonionmessage"@, " <node_id_1,node_id_2,..,destination_node_id> <type> <hex_bytes>\n"@)
    } else {
        ("      "@, "nodeinfo"@, "\n"@)
    }
}

/// The words of the commands that are listed, in order.
pub open spec fn listed() -> Seq<Chars> {
    Seq::new(NUM_LISTED as nat, |i: int| entry(i).1)
}

/// The first entries of the list.
pub open spec fn entries_chars(n: nat) -> Chars
    decreases n,
{
    if n == 0 {
        seq![]
    } else {
        let e = entry(n - 1);
        entries_chars((n - 1) as nat) + (e.0 + e.1 + e.2)
    }
}

/// The list of commands, below name and version.
pub open spec fn help_chars(name: Chars, version: Chars) -> Chars {
    "\nVERSION:\n  "@ + name + " v"@ + version
        + "\n\nUSAGE:\n  Command [arguments]\n\nCOMMANDS:\n"@ + entries_chars(NUM_LISTED as nat)
}

fn entry_text(i: usize) -> (r: (&'static str, &'static str, &'static str))
    requires
        i < NUM_LISTED,
    ensures
        (r.0@, r.1@, r.2@) == entry(i as int),
{
    if i == 0 {
        ("  ", "help", "\tShows a list of commands.\n")
    } else if i == 1 {
        ("  ", "quit", "\tClose the application.\n")
    } else if i == 2 {
        ("\n  Channels:\n      ", "openchannel", " pubkey@host:port <chan_amt_satoshis> <push_amt_msatoshis> <rgb_contract_id> <chan_amt_rgb> [--public]\n")
    } else if i == 3 {
        ("      ", "closechannel", " <channel_id> <peer_pubkey>\n")
    } else if i == 4 {
        ("      ", "forceclosechannel", " <channel_id> <peer_pubkey>\n")
    } else if i == 5 {
        ("      ", "listchannels", "\n")
    } else if i == 6 {
        ("\n  Peers:\n      ", "connectpeer", " pubkey@host:port\n")
    } else if i == 7 {
        ("      ", "disconnectpeer", " <peer_pubkey>\n")
    } else if i == 8 {
        ("      ", "listpeers", "\n")
    } else if i == 9 {
        ("\n  Payments:\n      ", "sendpayment", " <invoice>\n")
    } else if i == 10 {
        ("      ", "keysend", " <dest_pubkey> <amt_msats> <rgb_contract_id> <amt_rgb>\n")
    } else if i == 11 {
        ("      ", "listpayments", "\n")
    } else if i == 12 {
        ("\n  Invoices:\n      ", "getinvoice", " <amt_msats> <expiry_secs> <rgb_contract_id> <amt_rgb>\n")
    } else if i == 13 {
        ("      ", "invoicestatus", " <invoice>\n")
    } else if i == 14 {
        ("\n  Onchain:\n      ", "getaddress", "\n")
    } else if i == 15 {
        ("      ", "listunspent", "\n")
    } else if i == 16 {
        ("\n  RGB:\n      ", "createutxos", "\n")
    } else if i == 17 {
        ("      ", "issueasset", " <supply> <ticker> <name> <precision>\n")
    } else if i == 18 {
        ("      ", "assetbalance", " <contract_id>\n")
    } else if i == 19 {
        ("      ", "sendasset", " <rgb_contract_id> <amt_rgb>\n")
    } else if i == 20 {
        ("      ", "receiveasset", "\n")
    } else if i == 21 {
        ("      ", "refresh", "\n")
    } else if i == 22 {
        ("\n  Other:\n      ", "mine", " <num_blocks>\n")
    } else if i == 23 {
        ("      ", "signmessage", " <message>\n")
    } else if i == 24 {
        ("      ", "sendonionmessage", " <node_id_1,node_id_2,..,destination_node_id> <type> <hex_bytes>\n")
    } else {
        ("      ", "nodeinfo", "\n")
    }
}

/// Shows the list of commands.
pub fn help(settings: &Settings) -> (step: Step)
    ensures
        step.replies(
            help_chars(settings.package_name@, settings.package_version@),
            "help"@,
        ),
{
    let mut s = join4("\nVERSION:\n  ", &settings.package_name, " v", &settings.package_version);
    s.append("\n\nUSAGE:\n  Command [arguments]\n\nCOMMANDS:\n");
    let ghost above = s@;
    let mut i: usize = 0;
    assert(above + entries_chars(0) == above);
    while i < NUM_LISTED
        invariant
            i <= NUM_LISTED,
            s@ == above + entries_chars(i as nat),
        decreases NUM_LISTED - i,
    {
        let ghost before = s@;
        let (indent, word, rest) = entry_text(i);
        s.append(indent);
        s.append(word);
        s.append(rest);
        proof {
            let e = entry(i as int);
            assert(s@ == before + (e.0 + e.1 + e.2));
            assert(s@ == above + entries_chars((i + 1) as nat));
        }
        i += 1;
    }
    Step::Reply(Reply { printed: s, response: "help".to_string() })
}

/// Every command that is listed is known.
pub proof fn law_listed_commands_are_known(i: int)
    requires
        0 <= i < NUM_LISTED,
    ensures
        command(listed()[i]) != Command::Unknown,
{
}

/// Where the word of a listed command stands in the list, by its length and one of
/// its characters.
spec fn place(w: Chars) -> int {
    if w.len() == 4 {
        if w[0] == 'h' {
            0
        } else if w[0] == 'q' {
            1
        } else {
            22
        }
    } else if w.len() == 7 {
        if w[0] == 'k' {
            10
        } else {
            21
        }
    } else if w.len() == 8 {
        25
    } else if w.len() == 9 {
        if w[0] == 'l' {
            8
        } else {
            19
        }
    } else if w.len() == 10 {
        if w[3] == 'i' {
            12
        } else if w[3] == 'a' {
            14
        } else {
            17
        }
    } else if w.len() == 11 {
        if w[4] == 'c' {
            2
        } else if w[4] == 'e' {
            6
        } else if w[4] == 'p' {
            9
        } else if w[4] == 'u' {
            15
        } else if w[4] == 't' {
            16
        } else {
            23
        }
    } else if w.len() == 12 {
        if w[4] == 'e' {
            3
        } else if w[4] == 'c' {
            5
        } else if w[4] == 'p' {
            11
        } else if w[4] == 't' {
            18
        } else {
            20
        }
    } else if w.len() == 13 {
        13
    } else if w.len() == 14 {
        7
    } else if w.len() == 16 {
        24
    } else if w.len() == 17 {
        4
    } else {
        -1
    }
}

/// No command is listed twice.
pub proof fn law_no_command_is_listed_twice(i: int, j: int)
    requires
        0 <= i < j < NUM_LISTED,
    ensures
        listed()[i] != listed()[j],
{
    reveal_strlit("help");
    assert(place("help"@) == 0);
    reveal_strlit("quit");
    assert(place("quit"@) == 1);
    reveal_strlit("openchannel");
    assert(place("openchannel"@) == 2);
    reveal_strlit("closechannel");
    assert(place("closechannel"@) == 3);
    reveal_strlit("forceclosechannel");
    assert(place("forceclosechannel"@) == 4);
    reveal_strlit("listchannels");
    assert(place("listchannels"@) == 5);
    reveal_strlit("connectpeer");
    assert(place("connectpeer"@) == 6);
    reveal_strlit("disconnectpeer");
    assert(place("disconnectpeer"@) == 7);
    reveal_strlit("listpeers");
    assert(place("listpeers"@) == 8);
    reveal_strlit("sendpayment");
    assert(place("sendpayment"@) == 9);
    reveal_strlit("keysend");
    assert(place("keysend"@) == 10);
    reveal_strlit("listpayments");
    assert(place("listpayments"@) == 11);
    reveal_strlit("getinvoice");
    assert(place("getinvoice"@) == 12);
    reveal_strlit("invoicestatus");
    assert(place("invoicestatus"@) == 13);
    reveal_strlit("getaddress");
    assert(place("getaddress"@) == 14);
    reveal_strlit("listunspent");
    assert(place("listunspent"@) == 15);
    reveal_strlit("createutxos");
    assert(place("createutxos"@) == 16);
    reveal_strlit("issueasset");
    assert(place("issueasset"@) == 17);
    reveal_strlit("assetbalance");
    assert(place("assetbalance"@) == 18);
    reveal_strlit("sendasset");
    assert(place("sendasset"@) == 19);
    reveal_strlit("receiveasset");
    assert(place("receiveasset"@) == 20);
    reveal_strlit("refresh");
    assert(place("refresh"@) == 21);
    reveal_strlit("mine");
    assert(place("mine"@) == 22);
    reveal_strlit("signmessage");
    assert(place("signmessage"@) == 23);
    reveal_strlit("sendonionmessage");
    assert(place("sendonionmessage"@) == 24);
    reveal_strlit("nodeinfo");
    assert(place("nodeinfo"@) == 25);
    assert(place(listed()[i]) == i);
    assert(place(listed()[j]) == j);
}

/// The list of commands begins with name and version, and holds the word of every command
/// that is listed.
pub proof fn law_every_command_is_listed(
    line: Chars,
    settings: Settings,
    shown: Step,
    i: int,
)
    requires
        0 <= i < NUM_LISTED,
        words(line).len() > 0,
        words(line)[0] == "help"@,
        request_step(line, settings, shown),
    ensures
        shown is Reply,
        (shown->Reply_0).response@ == "help"@,
        ("\nVERSION:\n  "@ + settings.package_name@ + " v"@ + settings.package_version@
            + "\n"@).is_prefix_of((shown->Reply_0).printed@),
        stands_in(listed()[i], (shown->Reply_0).printed@),
{
    law_words_stand_for_commands(words(line)[0]);
    let name = settings.package_name@;
    let version = settings.package_version@;
    let text = help_chars(name, version);
    let before = "\nVERSION:\n  "@ + name + " v"@ + version;
    reveal_strlit("\n\nUSAGE:\n  Command [arguments]\n\nCOMMANDS:\n");
    reveal_strlit("\n");
    let usage = "\n\nUSAGE:\n  Command [arguments]\n\nCOMMANDS:\n"@;
    assert(usage.take(1) == "\n"@);
    assert(text.subrange(0, before.len() as int + 1) == before + "\n"@);
    lemma_entry_stands(i, NUM_LISTED as nat);
    let word = listed()[i];
    let entries = entries_chars(NUM_LISTED as nat);
    let (a, b) = choose|a: Chars, b: Chars| entries == #[trigger] (a + word + b);
    assert(text == (before + usage + a) + word + b);
}

/// The word of an entry stands in every list that is long enough.
proof fn lemma_entry_stands(i: int, n: nat)
    requires
        0 <= i < n <= NUM_LISTED,
    ensures
        stands_in(listed()[i], entries_chars(n)),
    decreases n,
{
    let e = entry(n - 1);
    let shorter = entries_chars((n - 1) as nat);
    let text = entries_chars(n);
    let word = listed()[i];
    if i == n - 1 {
        assert(text == (shorter + e.0) + word + e.2);
    } else {
        lemma_entry_stands(i, (n - 1) as nat);
        let (a, b) = choose|a: Chars, b: Chars| shorter == #[trigger] (a + word + b);
        assert(text == a + word + (b + (e.0 + e.1 + e.2)));
    }
}

} // verus!
