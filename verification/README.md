# rgb_lightning_sample

The requests of a lightning node that carries RGB assets, verified with Verus.

A user enters one line at a time, on the terminal or over HTTP. The library says
what the line means, what the node has to do for it and what is replied. It does
no input or output of its own: a request is a sequence of steps, each of which
names work to be done outside and takes what came of it.

- `src/request.rs` finds the command of a line and begins the request.
- `src/step.rs` lists the steps, and `src/run.rs` says which may follow which.
- `src/onchain.rs`, `src/assets.rs`, `src/refresh.rs`, `src/opening.rs`,
  `src/paying.rs`, `src/invoices.rs`, `src/peers.rs`, `src/closing.rs` and
  `src/messages.rs` hold the commands.
- `src/utxos.rs`, `src/payments.rs` and `src/channels.rs` hold what the node keeps
  track of, and how it is listed.
- `src/text.rs`, `src/number.rs`, `src/hex_utils.rs`, `src/json.rs` and
  `src/types.rs` hold the plain values that all of this is made of.
- `src/cli.rs` and `src/dialogue.rs` hold the dialogue on the terminal.
- `src/trusted.rs` holds the calls into other crates. What it says of them is not
  proved.

Functions whose names begin with `law_` state what holds of several commands
together.

`app/` does the work that the steps name.
