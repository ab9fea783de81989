//! The dialogue on the terminal.
use vstd::prelude::*;

use crate::hex_utils::{hex, hex_str};
use crate::text::{chars_of, join2, join3, result_chars, same_text, stands_in, Chars};

verus! {

/// What stands before the line that a user enters.
pub const PROMPT: &'static str = "> ";

/// What to do with what was read.
#[derive(Debug, PartialEq, Eq)]
pub enum Input {
    /// The dialogue is over; this is shown.
    Stop(String),
    /// Handle the line.
    Request(String),
}

/// What the user is greeted with.
pub open spec fn greeting_chars(node_id: Seq<u8>) -> Chars {
    "LDK startup successful. Enter \"help\" to view available commands. Press Ctrl-D to quit.\nLDK logs are available at <your-supplied-ldk-data-dir-path>/.ldk/logs\nLocal Node ID is "@
        + hex(node_id) + "\n"@
}

/// Greets the user.
pub fn greeting(node_id: &[u8; 33]) -> (r: String)
    ensures
        r@ == greeting_chars(node_id@),
{
    join3(
        "LDK startup successful. Enter \"help\" to view available commands. Press Ctrl-D to quit.\nLDK logs are available at <your-supplied-ldk-data-dir-path>/.ldk/logs\nLocal Node ID is ",
        &hex_str(node_id.as_slice()),
        "\n",
    )
}

/// What becomes of a line that was read, or could not be: a line without so much
/// as an end of line is the end of the input.
pub open spec fn input_step(read: Result<Chars, Chars>, input: Input) -> bool {
    match read {
        Ok(line) => if line.len() == 0 {
            input matches Input::Stop(shown) && shown@ == Seq::<char>::empty()
        } else {
            input matches Input::Request(l) && l@ == line
        },
        Err(e) => input matches Input::Stop(shown) && shown@ == "ERROR: "@ + e + "\n"@,
    }
}

/// Decides what to do with what was read.
pub fn on_input(read: Result<String, String>) -> (input: Input)
    ensures
        input_step(result_chars(read), input),
{
    match read {
        Ok(line) => if chars_of(&line).len() == 0 {
            Input::Stop(String::new())
        } else {
            Input::Request(line)
        },
        Err(e) => Input::Stop(join3("ERROR: ", &e, "\n")),
    }
}

/// How a response is shown: as a line.
pub open spec fn response_chars(response: Chars) -> Chars {
    response + "\n"@
}

/// How a response is shown, and whether it ends the dialogue.
pub fn on_response(response: &str) -> (r: (String, bool))
    ensures
        r.0@ == response_chars(response@),
        r.1 == (response@ == "quitting"@),
{
    (join2(response, "\n"), same_text(response, "quitting"))
}

/// Whether what was read is a request.
pub open spec fn asks(read: Result<Chars, Chars>) -> bool {
    read matches Ok(line) && line.len() > 0
}

/// How many requests are handled, where `reads` is what is read one after the other
/// and `responses` are the responses to it: reading stops with the first thing that is
/// no request, or with the first response that ends the dialogue.
pub open spec fn handled(reads: Seq<Result<Chars, Chars>>, responses: Seq<Chars>) -> nat
    decreases reads.len(),
{
    if reads.len() == 0 || !asks(reads[0]) {
        0
    } else if responses[0] == "quitting"@ {
        1
    } else {
        1 + handled(reads.skip(1), responses.skip(1))
    }
}

/// What is read is handled as a request if and only if it is one, and then as it was
/// read.
pub proof fn law_requests_are_handled_as_read(read: Result<Chars, Chars>, input: Input)
    requires
        input_step(read, input),
    ensures
        asks(read) <==> input is Request,
        input matches Input::Request(line) ==> read == Ok::<Chars, Chars>(line@),
{
}

/// Requests are handled one by one from the first: up to the end of input, a fault of
/// reading, or the first response that ends the dialogue, and not beyond.
pub proof fn law_dialogue_stops(reads: Seq<Result<Chars, Chars>>, responses: Seq<Chars>)
    requires
        responses.len() >= reads.len(),
    ensures
        ({
            let n = handled(reads, responses) as int;
            &&& n <= reads.len()
            &&& forall|i: int| 0 <= i < n ==> asks(#[trigger] reads[i])
            &&& forall|i: int| 0 <= i < n - 1 ==> (#[trigger] responses[i]) != "quitting"@
            &&& n < reads.len() ==> (n > 0 && responses[n - 1] == "quitting"@) || !asks(reads[n])
        }),
    decreases reads.len(),
{
    if reads.len() > 0 && asks(reads[0]) && responses[0] != "quitting"@ {
        let later = reads.skip(1);
        let answers = responses.skip(1);
        law_dialogue_stops(later, answers);
        let n = handled(reads, responses) as int;
        let m = handled(later, answers) as int;
        assert forall|i: int| 0 <= i < n implies asks(#[trigger] reads[i]) by {
            if i > 0 {
                assert(reads[i] == later[i - 1]);
            }
        }
        assert forall|i: int| 0 <= i < n - 1 implies (#[trigger] responses[i]) != "quitting"@ by {
            if i > 0 {
                assert(responses[i] == answers[i - 1]);
            }
        }
        if n < reads.len() {
            assert(reads[n] == later[m]);
            if m > 0 {
                assert(responses[n - 1] == answers[m - 1]);
            }
        }
    }
}

/// What is shown for one request: the prompt, what the request shows, and its
/// response.
pub open spec fn turn(printed: Chars, response: Chars) -> Chars {
    PROMPT@ + printed + response_chars(response)
}

/// What is shown for the first requests.
pub open spec fn turns(printed: Seq<Chars>, responses: Seq<Chars>, n: nat) -> Chars
    decreases n,
{
    if n == 0 {
        seq![]
    } else {
        turn(printed[0], responses[0]) + turns(printed.skip(1), responses.skip(1), (n - 1) as nat)
    }
}

/// What is shown behind the greeting, where `printed` is what the requests show
/// themselves. Each line is asked for with a prompt.
pub open spec fn shown(
    reads: Seq<Result<Chars, Chars>>,
    printed: Seq<Chars>,
    responses: Seq<Chars>,
) -> Chars
    decreases reads.len(),
{
    if reads.len() == 0 {
        PROMPT@
    } else {
        match reads[0] {
            Err(e) => PROMPT@ + ("ERROR: "@ + e + "\n"@),
            Ok(line) => if line.len() == 0 {
                PROMPT@
            } else if responses[0] == "quitting"@ {
                turn(printed[0], responses[0])
            } else {
                turn(printed[0], responses[0]) + shown(
                    reads.skip(1),
                    printed.skip(1),
                    responses.skip(1),
                )
            },
        }
    }
}

/// The response to a request is shown before the next line is asked for: what is shown
/// of the requests so far comes first, and what comes of the lines behind them after
/// it.
pub proof fn law_responses_are_shown_in_turn(
    reads: Seq<Result<Chars, Chars>>,
    printed: Seq<Chars>,
    responses: Seq<Chars>,
    n: nat,
)
    requires
        printed.len() >= reads.len(),
        responses.len() >= reads.len(),
        n <= handled(reads, responses),
    ensures
        shown(reads, printed, responses) == turns(printed, responses, n) + if n > 0
            && responses[n - 1] == "quitting"@ {
            seq![]
        } else {
            shown(reads.skip(n as int), printed.skip(n as int), responses.skip(n as int))
        },
    decreases n,
{
    law_dialogue_stops(reads, responses);
    let all = shown(reads, printed, responses);
    if n == 0 {
        assert(reads.skip(0) == reads && printed.skip(0) == printed && responses.skip(0)
            == responses);
        assert(Seq::<char>::empty() + all == all);
    } else if responses[0] == "quitting"@ {
        assert(turns(printed.skip(1), responses.skip(1), 0) == Seq::<char>::empty());
        assert(turns(printed, responses, 1) == turn(printed[0], responses[0]));
    } else {
        let m = (n - 1) as nat;
        law_responses_are_shown_in_turn(reads.skip(1), printed.skip(1), responses.skip(1), m);
        assert(reads.skip(1).skip(m as int) == reads.skip(n as int));
        assert(printed.skip(1).skip(m as int) == printed.skip(n as int));
        assert(responses.skip(1).skip(m as int) == responses.skip(n as int));
        let rest = if n > 0 && responses[n - 1] == "quitting"@ {
            seq![]
        } else {
            shown(reads.skip(n as int), printed.skip(n as int), responses.skip(n as int))
        };
        let first = turn(printed[0], responses[0]);
        let later = turns(printed.skip(1), responses.skip(1), m);
        if m > 0 {
            assert(responses.skip(1)[m - 1] == responses[n - 1]);
        }
        assert(first + (later + rest) == (first + later) + rest);
    }
}

/// A response is shown whole, and nothing but the end of the line stands behind it; what
/// is read but cannot be handled is shown with its reason; and the greeting names the
/// node by its key.
pub proof fn law_what_is_shown_is_whole(
    response: Chars,
    reason: Chars,
    input: Input,
    node_id: Seq<u8>,
)
    requires
        input_step(Err(reason), input),
    ensures
        response_chars(response).len() == response.len() + 1,
        response_chars(response).last() == '\n',
        response_chars(response).drop_last() == response,
        input matches Input::Stop(shown) && shown@ == "ERROR: "@ + reason + "\n"@,
        stands_in("Local Node ID is "@ + hex(node_id) + "\n"@, greeting_chars(node_id)),
{
    reveal_strlit("\n");
    assert(response_chars(response).drop_last() == response);
    let all = "LDK startup successful. Enter \"help\" to view available commands. Press Ctrl-D to quit.\nLDK logs are available at <your-supplied-ldk-data-dir-path>/.ldk/logs\nLocal Node ID is "@;
    let end = "Local Node ID is "@;
    reveal_strlit("LDK startup successful. Enter \"help\" to view available commands. Press Ctrl-D to quit.\nLDK logs are available at <your-supplied-ldk-data-dir-path>/.ldk/logs\nLocal Node ID is ");
    reveal_strlit("Local Node ID is ");
    let n = all.len() - end.len();
    assert(all.skip(n) == end);
    let piece = end + hex(node_id) + "\n"@;
    assert(greeting_chars(node_id) == all.take(n) + piece + Seq::<char>::empty());
}

} // verus!
