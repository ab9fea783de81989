//! Requests that come over HTTP.
use vstd::prelude::*;

verus! {

/// The body of such a request: one line, as it is entered on the terminal.
#[derive(Clone, Debug)]
pub struct CliCommands {
    pub commands: String,
}

} // verus!
