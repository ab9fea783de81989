//! The requests of a lightning node that carries RGB assets: what each line that
//! a user enters means, what the node has to do for it, and what is replied.
//!
//! A request begins with [`request::handle_request`] and goes on in steps. A
//! [`step::Step`] is either the end of the request or names work that is done
//! outside this library, on the wallet, the network or the disk; it carries all
//! that the work needs, and has a method that takes what came of the work and
//! gives the next step.
pub mod assets;
pub mod channels;
pub mod cli;
pub mod closing;
pub mod dialogue;
pub mod help;
pub mod hex_utils;
pub mod invoices;
pub mod json;
pub mod messages;
pub mod number;
pub mod onchain;
pub mod opening;
pub mod paying;
pub mod payments;
pub mod peers;
pub mod refresh;
pub mod request;
pub mod restapi;
pub mod run;
pub mod step;
pub mod text;
pub mod trusted;
pub mod types;
pub mod utxos;
