//! Requests about bitcoins: mining, addresses, and outputs set aside for
//! assets.
use vstd::prelude::*;

use crate::number::{decimal, decimal_text, number, parse_number};
use crate::request::{law_words_stand_for_commands, request_step};
use crate::step::{abort, answer, Reply, Settings, Step};
use crate::text::{join2, join3, words, Chars};
use crate::types::{Network, OutPoint, RgbUtxo};
use crate::utxos::{add_created, created, locked, locked_amount, utxo_outpoints, Unspent, UTXO_NUM};

verus! {

/// The satoshis that have to be there to create outputs.
pub const MIN_CREATE_UTXOS_SATS: u64 = 10000;

/// Blocks to be mined.
#[derive(Clone, Copy, Debug, PartialEq, Eq)]
pub struct MineBlocks {
    pub num_blocks: u16,
}

/// A transaction to be sent: it spends none of the given outputs and creates
/// `count` outputs of `value_sat` each, before any other.
#[derive(Debug, PartialEq, Eq)]
pub struct CreateUtxos {
    /// The outputs that are set aside so far.
    pub utxos: Vec<RgbUtxo>,
    pub unspendable: Vec<OutPoint>,
    pub count: u8,
    pub value_sat: u64,
}

/// Outputs to be written down as set aside.
#[derive(Debug, PartialEq, Eq)]
pub struct SaveUtxos {
    pub utxos: Vec<RgbUtxo>,
}

/// `mine num_blocks`, on a network of one's own only.
pub open spec fn mine_step(w: Seq<Chars>, network: Network, step: Step) -> bool {
    if network != Network::Regtest {
        step.answers("ERROR: mine command is available only on regtest"@)
    } else if w.len() < 2 {
        step.answers("ERROR: mine has 1 required argument: `mine num_blocks`"@)
    } else {
        match number(w[1], u16::MAX as nat) {
            Ok(n) => step matches Step::MineBlocks(m) && m.num_blocks == n,
            Err(_) => step.answers("ERROR: num_blocks must be a number"@),
        }
    }
}

/// Begins a request to mine.
pub fn mine(words: &Vec<String>, network: Network) -> (step: Step)
    ensures
        mine_step(words.deep_view(), network, step),
{
    if network != Network::Regtest {
        return answer("ERROR: mine command is available only on regtest");
    }
    if words.len() < 2 {
        return answer("ERROR: mine has 1 required argument: `mine num_blocks`");
    }
    match parse_number(&words[1], u16::MAX as u64) {
        Ok(n) => Step::MineBlocks(MineBlocks { num_blocks: n as u16 }),
        Err(_) => answer("ERROR: num_blocks must be a number"),
    }
}

/// What is replied once blocks are mined.
pub open spec fn mined_step(step: Step) -> bool {
    step.answers("mined"@)
}

impl MineBlocks {
    /// Goes on once the blocks are mined.
    pub fn mined(self) -> (step: Step)
        ensures
            mined_step(step),
    {
        answer("mined")
    }
}

/// One line for each output of the wallet.
pub open spec fn unspent_lines(unspents: Seq<Chars>) -> Chars
    decreases unspents.len(),
{
    if unspents.len() == 0 {
        seq![]
    } else {
        unspent_lines(unspents.drop_last()) + (" - "@ + unspents.last() + "\n"@)
    }
}

/// How the outputs of the wallet are listed, each as it is shown.
pub open spec fn unspents_step(unspents: Seq<Chars>, step: Step) -> bool {
    step.replies("Unspents:\n"@, "Unspents:\n"@ + unspent_lines(unspents))
}

/// Lists the outputs of the wallet, each as it is shown.
pub fn list_unspent(unspents: &Vec<String>) -> (step: Step)
    ensures
        unspents_step(unspents.deep_view(), step),
{
    let mut s = "Unspents:\n".to_string();
    let mut i: usize = 0;
    let ghost all = unspents.deep_view();
    assert(all.take(0).len() == 0);
    assert(s@ + unspent_lines(all.take(0)) == s@);
    while i < unspents.len()
        invariant
            i <= unspents.len(),
            all == unspents.deep_view(),
            s@ == "Unspents:\n"@ + unspent_lines(all.take(i as int)),
        decreases unspents.len() - i,
    {
        let line = join3(" - ", &unspents[i], "\n");
        s.append(&line);
        proof {
            assert(all.take(i + 1).drop_last() == all.take(i as int));
            assert(s@ == "Unspents:\n"@ + unspent_lines(all.take(i + 1)));
        }
        i += 1;
    }
    assert(all.take(all.len() as int) == all);
    Step::Reply(Reply { printed: "Unspents:\n".to_string(), response: s })
}

/// How a new address is shown.
pub open spec fn address_step(address: Chars, step: Step) -> bool {
    step.answers("Address: "@ + address)
}

/// Shows a new address.
pub fn get_address(address: &str) -> (step: Step)
    ensures
        address_step(address@, step),
{
    answer(&join2("Address: ", address))
}

/// Whether the funds suffice to create outputs: what is on outputs that are set
/// aside already does not count.
pub open spec fn funds_step(
    utxos: Seq<RgbUtxo>,
    unspents: Seq<Unspent>,
    balance: u64,
    value_sat: u64,
    step: Step,
) -> bool {
    let locked = locked(unspents, utxos);
    if locked > u64::MAX {
        step.aborts("attempt to add with overflow"@)
    } else if locked > balance {
        step.aborts("attempt to subtract with overflow"@)
    } else if balance - locked < MIN_CREATE_UTXOS_SATS {
        step.answers(
            "ERROR: not enough funds, call getaddress and send "@ + decimal(
                (MIN_CREATE_UTXOS_SATS - (balance - locked)) as nat,
            ) + " satoshis"@,
        )
    } else {
        step matches Step::CreateUtxos(c) && {
            &&& c.utxos@ == utxos
            &&& c.unspendable@ == utxos.map_values(|u: RgbUtxo| u.outpoint)
            &&& c.count == UTXO_NUM
            &&& c.value_sat == value_sat
        }
    }
}

/// Goes on with `createutxos` once the funds are known.
pub fn create_utxos(
    utxos: Vec<RgbUtxo>,
    unspents: &Vec<Unspent>,
    balance: u64,
    settings: &Settings,
) -> (step: Step)
    ensures
        funds_step(utxos@, unspents@, balance, settings.utxo_size_sat, step),
{
    let locked: u64 = match locked_amount(unspents, &utxos) {
        Some(n) => n,
        None => {
            return abort("attempt to add with overflow");
        },
    };
    if locked > balance {
        return abort("attempt to subtract with overflow");
    }
    let available: u64 = balance - locked;
    if available < MIN_CREATE_UTXOS_SATS {
        let missing: u64 = MIN_CREATE_UTXOS_SATS - available;
        return answer(
            &join3(
                "ERROR: not enough funds, call getaddress and send ",
                &decimal_text(missing),
                " satoshis",
            ),
        );
    }
    let unspendable = utxo_outpoints(&utxos);
    Step::CreateUtxos(
        CreateUtxos { utxos, unspendable, count: UTXO_NUM, value_sat: settings.utxo_size_sat },
    )
}

/// The outputs of a transaction that was sent are set aside behind the others.
pub open spec fn created_step(c: CreateUtxos, txid: [u8; 32], step: Step) -> bool {
    step matches Step::SaveUtxos(s) && s.utxos@ == c.utxos@ + created(txid, c.count as nat)
}

impl CreateUtxos {
    /// Goes on once the transaction is sent: its first outputs are set aside
    /// too.
    pub fn sent(self, txid: [u8; 32]) -> (step: Step)
        ensures
            created_step(self, txid, step),
    {
        Step::SaveUtxos(SaveUtxos { utxos: add_created(self.utxos, txid, self.count) })
    }
}

/// What is replied once created outputs are written down.
pub open spec fn utxos_saved_step(step: Step) -> bool {
    step.answers("UTXO creation complete"@)
}

impl SaveUtxos {
    /// Goes on once the outputs are written down.
    pub fn saved(self) -> (step: Step)
        ensures
            utxos_saved_step(step),
    {
        answer("UTXO creation complete")
    }
}

/// Outputs that are set aside are not spent to create new ones.
pub proof fn law_set_aside_is_not_spent(
    utxos: Seq<RgbUtxo>,
    unspents: Seq<Unspent>,
    balance: u64,
    value_sat: u64,
    c: CreateUtxos,
    i: int,
)
    requires
        funds_step(utxos, unspents, balance, value_sat, Step::CreateUtxos(c)),
        0 <= i < utxos.len(),
    ensures
        c.unspendable@.contains(utxos[i].outpoint),
        balance >= locked(unspents, utxos) + MIN_CREATE_UTXOS_SATS,
{
    assert(c.unspendable@[i] == utxos[i].outpoint);
}

/// Blocks are mined only on a network of one's own.
pub proof fn law_mines_only_on_regtest(w: Seq<Chars>, network: Network, step: Step)
    requires
        mine_step(w, network, step),
        step is MineBlocks,
    ensures
        network == Network::Regtest,
{
}

/// A line with `mine` has blocks mined if and only if the network is one of one's own and
/// the line names how many, and then as many as it names.
pub proof fn law_blocks_are_mined_as_named(
    line: Chars,
    w: Seq<Chars>,
    settings: Settings,
    asked: Step,
)
    requires
        words(line) == w,
        w.len() > 0,
        w[0] == "mine"@,
        request_step(line, settings, asked),
    ensures
        asked is MineBlocks <==> settings.network == Network::Regtest && w.len() >= 2 && number(
            w[1],
            65535,
        ) is Ok,
        asked !is MineBlocks ==> asked is Reply,
        asked matches Step::MineBlocks(m) ==> number(w[1], 65535)->Ok_0 == m.num_blocks,
{
    law_words_stand_for_commands(w[0]);
}

/// The outputs of the wallet are listed one behind the other: the lines of two groups of
/// outputs are the lines of the first and behind them those of the second, and one
/// output has one line.
pub proof fn law_unspents_are_listed_in_turn(a: Seq<Chars>, b: Seq<Chars>, one: Chars)
    ensures
        unspent_lines(a + b) == unspent_lines(a) + unspent_lines(b),
        unspent_lines(seq![one]) == " - "@ + one + "\n"@,
    decreases b.len(),
{
    if b.len() == 0 {
        assert(a + b == a);
        assert(unspent_lines(a) + unspent_lines(b) == unspent_lines(a));
    } else {
        law_unspents_are_listed_in_turn(a, b.drop_last(), one);
        assert((a + b).drop_last() == a + b.drop_last());
        assert((a + b).last() == b.last());
        let line = " - "@ + b.last() + "\n"@;
        assert(unspent_lines(a) + (unspent_lines(b.drop_last()) + line) == unspent_lines(a)
            + unspent_lines(b.drop_last()) + line);
    }
    let line = " - "@ + one + "\n"@;
    assert(seq![one].drop_last().len() == 0);
    assert(unspent_lines(seq![one].drop_last()) + line == line);
}

/// Every output of the wallet is listed as it is shown, between those before it and those
/// behind it.
pub proof fn law_every_unspent_is_listed(unspents: Seq<Chars>, i: int, step: Step)
    requires
        unspents_step(unspents, step),
        0 <= i < unspents.len(),
    ensures
        step is Reply,
        (step->Reply_0).response@ == "Unspents:\n"@ + unspent_lines(unspents.take(i)) + (" - "@
            + unspents[i] + "\n"@) + unspent_lines(unspents.skip(i + 1)),
{
    let one = seq![unspents[i]];
    let before = unspents.take(i);
    let behind = unspents.skip(i + 1);
    assert(unspents == before + one + behind);
    law_unspents_are_listed_in_turn(before, one, unspents[i]);
    law_unspents_are_listed_in_turn(before + one, behind, unspents[i]);
    assert((step->Reply_0).response@ == "Unspents:\n"@ + unspent_lines(before) + unspent_lines(one)
        + unspent_lines(behind));
}

/// A line with `createutxos` has outputs created if and only if there are enough satoshis
/// beside those that are set aside. Where there are too few, it is said how many are
/// missing.
pub proof fn law_missing_funds_are_told(
    line: Chars,
    w: Seq<Chars>,
    settings: Settings,
    utxos: Seq<RgbUtxo>,
    unspents: Seq<Unspent>,
    balance: u64,
    missing: nat,
    asked: Step,
    funded: Step,
)
    requires
        words(line) == w,
        w.len() > 0,
        w[0] == "createutxos"@,
        request_step(line, settings, asked),
        asked is ReadFunds ==> funds_step(
            utxos,
            unspents,
            balance,
            settings.utxo_size_sat,
            funded,
        ),
    ensures
        funded is CreateUtxos <==> balance >= locked(unspents, utxos) + 10000,
        balance < locked(unspents, utxos) ==> funded is Abort,
        0 < missing <= 10000 && balance + missing == locked(unspents, utxos) + 10000
            ==> funded.answers(
            "ERROR: not enough funds, call getaddress and send "@ + decimal(missing)
                + " satoshis"@,
        ),
{
    law_words_stand_for_commands(w[0]);
}

/// Where there are enough satoshis, ten outputs of the size that is set are created,
/// without spending any that is set aside. They are set aside behind the others, each
/// under its own number and without an asset.
pub proof fn law_created_outputs_are_set_aside(
    line: Chars,
    w: Seq<Chars>,
    settings: Settings,
    utxos: Seq<RgbUtxo>,
    unspents: Seq<Unspent>,
    balance: u64,
    txid: [u8; 32],
    asked: Step,
    funded: Step,
    sent: Step,
)
    requires
        words(line) == w,
        w.len() > 0,
        w[0] == "createutxos"@,
        balance >= locked(unspents, utxos) + 10000,
        request_step(line, settings, asked),
        asked is ReadFunds ==> funds_step(
            utxos,
            unspents,
            balance,
            settings.utxo_size_sat,
            funded,
        ),
        funded matches Step::CreateUtxos(c) ==> created_step(c, txid, sent),
    ensures
        funded matches Step::CreateUtxos(c) && {
            &&& c.utxos@ == utxos
            &&& c.count == 10
            &&& c.value_sat == settings.utxo_size_sat
            &&& c.unspendable@.len() == utxos.len()
            &&& forall|i: int|
                0 <= i < utxos.len() ==> #[trigger] c.unspendable@[i] == utxos[i].outpoint
        },
        sent matches Step::SaveUtxos(s) && {
            &&& s.utxos@.len() == utxos.len() + 10
            &&& forall|i: int| 0 <= i < utxos.len() ==> #[trigger] s.utxos@[i] == utxos[i]
            &&& forall|i: int|
                utxos.len() <= i < utxos.len() + 10 ==> (#[trigger] s.utxos@[i]) == (RgbUtxo {
                    outpoint: OutPoint { txid, vout: (i - utxos.len()) as u32 },
                    colored: false,
                })
        },
{
    law_words_stand_for_commands(w[0]);
}

} // verus!
