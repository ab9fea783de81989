//! The outputs that are set aside for assets, and choosing among outputs.
use vstd::prelude::*;

use crate::types::{same_outpoint, OutPoint, RgbUtxo};

verus! {

/// How many outputs one transaction sets aside.
pub const UTXO_NUM: u8 = 10;

/// What can be wrong with the outputs that are set aside.
#[derive(Clone, Copy, Debug, PartialEq, Eq, Structural)]
pub enum Error {
    /// Every output already carries an asset.
    NoAvailableUtxos,
}

/// An output of the wallet with its value in satoshis.
#[derive(Clone, Copy, Debug, PartialEq, Eq)]
pub struct Unspent {
    pub outpoint: OutPoint,
    pub value: u64,
}

/// An output with the amount of an asset that it carries.
#[derive(Clone, Copy, Debug, PartialEq, Eq)]
pub struct OwnedValue {
    pub outpoint: OutPoint,
    pub value: u64,
}

/// The first output without an asset.
pub open spec fn first_uncolored(utxos: Seq<RgbUtxo>) -> Option<RgbUtxo>
    decreases utxos.len(),
{
    if utxos.len() == 0 {
        None
    } else if !utxos[0].colored {
        Some(utxos[0])
    } else {
        first_uncolored(utxos.skip(1))
    }
}

/// The same outputs, the first one at `outpoint` colored.
pub open spec fn colored_at(utxos: Seq<RgbUtxo>, outpoint: OutPoint) -> Seq<RgbUtxo>
    decreases utxos.len(),
{
    if utxos.len() == 0 {
        utxos
    } else if utxos[0].outpoint == outpoint {
        utxos.update(0, RgbUtxo { outpoint, colored: true })
    } else {
        seq![utxos[0]] + colored_at(utxos.skip(1), outpoint)
    }
}

/// The output that an asset is put on next, and the outputs once it is colored.
pub open spec fn reserved(utxos: Seq<RgbUtxo>) -> Option<(OutPoint, Seq<RgbUtxo>)> {
    match first_uncolored(utxos) {
        Some(u) => Some((u.outpoint, colored_at(utxos, u.outpoint))),
        None => None,
    }
}

/// Whether an output is one of those set aside.
pub open spec fn set_aside(utxos: Seq<RgbUtxo>, outpoint: OutPoint) -> bool {
    exists|i: int| 0 <= i < utxos.len() && (#[trigger] utxos[i]).outpoint == outpoint
}

/// The satoshis on outputs of the wallet that are set aside.
pub open spec fn locked(unspents: Seq<Unspent>, utxos: Seq<RgbUtxo>) -> nat
    decreases unspents.len(),
{
    if unspents.len() == 0 {
        0
    } else {
        let u = unspents.last();
        locked(unspents.drop_last(), utxos) + if set_aside(utxos, u.outpoint) {
            u.value as nat
        } else {
            0
        }
    }
}

/// The outputs that a transaction sets aside: its first `n`, without assets.
pub open spec fn created(txid: [u8; 32], n: nat) -> Seq<RgbUtxo> {
    Seq::new(
        n,
        |i: int| RgbUtxo { outpoint: OutPoint { txid, vout: i as u32 }, colored: false },
    )
}

/// The amount of an asset on some outputs.
pub open spec fn total(owned: Seq<OwnedValue>) -> nat
    decreases owned.len(),
{
    if owned.len() == 0 {
        0
    } else {
        total(owned.drop_last()) + owned.last().value as nat
    }
}

/// How many outputs are taken, from the first on, until they carry `amount`; all
/// of them where they do not carry as much.
pub open spec fn needed(owned: Seq<OwnedValue>, amount: int) -> nat
    decreases owned.len(),
{
    if amount <= 0 || owned.len() == 0 {
        0
    } else {
        1 + needed(owned.skip(1), amount - owned[0].value)
    }
}

/// The outputs among some amounts of an asset.
pub open spec fn outpoints(owned: Seq<OwnedValue>) -> Seq<OutPoint> {
    owned.map_values(|o: OwnedValue| o.outpoint)
}

/// Whether some output is left to put an asset on.
pub fn check_uncolored_utxos(utxos: &Vec<RgbUtxo>) -> (r: Result<(), Error>)
    ensures
        r == match first_uncolored(utxos@) {
            Some(_) => Ok::<(), Error>(()),
            None => Err(Error::NoAvailableUtxos),
        },
{
    match find_uncolored(utxos) {
        Some(_) => Ok(()),
        None => Err(Error::NoAvailableUtxos),
    }
}

/// The first output without an asset.
pub fn get_utxo(utxos: &Vec<RgbUtxo>) -> (r: RgbUtxo)
    requires
        first_uncolored(utxos@) is Some,
    ensures
        first_uncolored(utxos@) == Some(r),
{
    match find_uncolored(utxos) {
        Some(u) => u,
        None => utxos[0],
    }
}

fn find_uncolored(utxos: &Vec<RgbUtxo>) -> (r: Option<RgbUtxo>)
    ensures
        r == first_uncolored(utxos@),
{
    let mut i: usize = 0;
    assert(utxos@.skip(0) == utxos@);
    while i < utxos.len()
        invariant
            i <= utxos.len(),
            first_uncolored(utxos@) == first_uncolored(utxos@.skip(i as int)),
        decreases utxos.len() - i,
    {
        assert(utxos@.skip(i as int)[0] == utxos@[i as int]);
        assert(utxos@.skip(i as int).skip(1) == utxos@.skip(i + 1));
        if !utxos[i].colored {
            return Some(utxos[i]);
        }
        i += 1;
    }
    None
}

/// Colors the first output at `outpoint`.
pub fn color_utxo(utxos: &mut Vec<RgbUtxo>, outpoint: &OutPoint)
    ensures
        final(utxos)@ == colored_at(old(utxos)@, *outpoint),
{
    let ghost all = utxos@;
    let mut i: usize = 0;
    assert(all.take(0) + colored_at(all.skip(0), *outpoint) == colored_at(all, *outpoint)) by {
        assert(all.skip(0) == all);
    }
    while i < utxos.len()
        invariant
            i <= utxos.len(),
            utxos@ == all,
            all == old(utxos)@,
            all.take(i as int) + colored_at(all.skip(i as int), *outpoint) == colored_at(
                all,
                *outpoint,
            ),
        decreases utxos.len() - i,
    {
        let ghost rest = all.skip(i as int);
        assert(rest[0] == all[i as int]);
        assert(rest.skip(1) == all.skip(i + 1));
        if same_outpoint(&utxos[i].outpoint, outpoint) {
            utxos.set(i, RgbUtxo { outpoint: *outpoint, colored: true });
            assert(utxos@ == all.take(i as int) + rest.update(
                0,
                RgbUtxo { outpoint: *outpoint, colored: true },
            ));
            return;
        }
        proof {
            let later = colored_at(all.skip(i + 1), *outpoint);
            assert(all.take(i as int) + (seq![rest[0]] + later) == all.take(i + 1) + later);
        }
        i += 1;
    }
    assert(all.take(i as int) + colored_at(all.skip(i as int), *outpoint) == all);
}

/// Takes the output that an asset is put on next, and colors it.
pub fn reserve_utxo(utxos: Vec<RgbUtxo>) -> (r: Option<(OutPoint, Vec<RgbUtxo>)>)
    ensures
        match (r, reserved(utxos@)) {
            (Some((o, after)), Some((p, colored))) => o == p && after@ == colored,
            (None, None) => true,
            _ => false,
        },
{
    match check_uncolored_utxos(&utxos) {
        Ok(_) => {
            let outpoint = get_utxo(&utxos).outpoint;
            let mut after = utxos;
            color_utxo(&mut after, &outpoint);
            Some((outpoint, after))
        },
        Err(_) => None,
    }
}

fn is_set_aside(utxos: &Vec<RgbUtxo>, outpoint: &OutPoint) -> (r: bool)
    ensures
        r == set_aside(utxos@, *outpoint),
{
    let mut i: usize = 0;
    while i < utxos.len()
        invariant
            i <= utxos.len(),
            forall|j: int| 0 <= j < i ==> (#[trigger] utxos@[j]).outpoint != *outpoint,
        decreases utxos.len() - i,
    {
        if same_outpoint(&utxos[i].outpoint, outpoint) {
            return true;
        }
        i += 1;
    }
    false
}

/// The satoshis that are set aside, or nothing where they cannot be counted.
pub fn locked_amount(unspents: &Vec<Unspent>, utxos: &Vec<RgbUtxo>) -> (r: Option<u64>)
    ensures
        match r {
            Some(n) => n == locked(unspents@, utxos@),
            None => locked(unspents@, utxos@) > u64::MAX,
        },
{
    let mut sum: u64 = 0;
    let mut i: usize = 0;
    assert(unspents@.take(0).len() == 0);
    while i < unspents.len()
        invariant
            i <= unspents.len(),
            sum == locked(unspents@.take(i as int), utxos@),
        decreases unspents.len() - i,
    {
        proof {
            assert(unspents@.take(i + 1).drop_last() == unspents@.take(i as int));
        }
        if is_set_aside(utxos, &unspents[i].outpoint) {
            match sum.checked_add(unspents[i].value) {
                Some(n) => {
                    sum = n;
                },
                None => {
                    proof {
                        lemma_locked_grows(unspents@, utxos@, i + 1, unspents@.len() as int);
                        assert(unspents@.take(unspents@.len() as int) == unspents@);
                    }
                    return None;
                },
            }
        }
        i += 1;
    }
    assert(unspents@.take(unspents@.len() as int) == unspents@);
    Some(sum)
}

proof fn lemma_locked_grows(unspents: Seq<Unspent>, utxos: Seq<RgbUtxo>, i: int, j: int)
    requires
        0 <= i <= j <= unspents.len(),
    ensures
        locked(unspents.take(i), utxos) <= locked(unspents.take(j), utxos),
    decreases j - i,
{
    if i < j {
        lemma_locked_grows(unspents, utxos, i, j - 1);
        assert(unspents.take(j).drop_last() == unspents.take(j - 1));
    }
}

/// The outputs among those set aside.
pub fn utxo_outpoints(utxos: &Vec<RgbUtxo>) -> (r: Vec<OutPoint>)
    ensures
        r@ == utxos@.map_values(|u: RgbUtxo| u.outpoint),
{
    let mut out: Vec<OutPoint> = Vec::new();
    let mut i: usize = 0;
    while i < utxos.len()
        invariant
            i <= utxos.len(),
            out.len() == i,
            forall|j: int| 0 <= j < i ==> out@[j] == (#[trigger] utxos@[j]).outpoint,
        decreases utxos.len() - i,
    {
        out.push(utxos[i].outpoint);
        i += 1;
    }
    assert(out@ == utxos@.map_values(|u: RgbUtxo| u.outpoint));
    out
}

/// The outputs, and behind them the first `n` of a transaction that sets them
/// aside.
pub fn add_created(utxos: Vec<RgbUtxo>, txid: [u8; 32], n: u8) -> (r: Vec<RgbUtxo>)
    ensures
        r@ == utxos@ + created(txid, n as nat),
{
    let mut out = utxos;
    let mut i: u8 = 0;
    while i < n
        invariant
            i <= n,
            out@ == utxos@ + created(txid, i as nat),
        decreases n - i,
    {
        out.push(RgbUtxo { outpoint: OutPoint { txid, vout: i as u32 }, colored: false });
        assert(created(txid, (i + 1) as nat) == created(txid, i as nat).push(
            RgbUtxo { outpoint: OutPoint { txid, vout: i as u32 }, colored: false },
        ));
        i += 1;
    }
    out
}

/// Takes outputs, from the first on, until they carry `amount` of the asset.
/// Returns them and what they carry, or nothing where that cannot be counted.
pub fn select_inputs(owned: &Vec<OwnedValue>, amount: u64) -> (r: Option<(Vec<OutPoint>, u64)>)
    ensures
        ({
            let taken = owned@.take(needed(owned@, amount as int) as int);
            match r {
                Some((inputs, sum)) => inputs@ == outpoints(taken) && sum == total(taken),
                None => total(taken) > u64::MAX,
            }
        }),
{
    let mut inputs: Vec<OutPoint> = Vec::new();
    let mut sum: u64 = 0;
    let mut i: usize = 0;
    proof {
        lemma_needed(owned@, amount as int);
        assert(owned@.skip(0) == owned@);
        assert(owned@.take(0).len() == 0);
        assert(inputs@ == outpoints(owned@.take(0)));
    }
    while i < owned.len() && sum < amount
        invariant
            i <= owned.len(),
            needed(owned@, amount as int) <= owned.len(),
            sum == total(owned@.take(i as int)),
            inputs@ == outpoints(owned@.take(i as int)),
            needed(owned@, amount as int) == i + needed(owned@.skip(i as int), amount - sum),
        decreases owned.len() - i,
    {
        inputs.push(owned[i].outpoint);
        proof {
            assert(owned@.skip(i as int)[0] == owned@[i as int]);
            assert(owned@.skip(i as int).skip(1) == owned@.skip(i + 1));
            assert(owned@.take(i + 1).drop_last() == owned@.take(i as int));
            assert(inputs@ == outpoints(owned@.take(i + 1)));
        }
        match sum.checked_add(owned[i].value) {
            Some(n) => {
                sum = n;
            },
            None => {
                proof {
                    lemma_needed(owned@.skip(i + 1), amount - sum - owned@[i as int].value);
                    assert(needed(owned@, amount as int) == i + 1);
                }
                return None;
            },
        }
        i += 1;
    }
    Some((inputs, sum))
}

/// No more outputs are taken than there are.
pub proof fn lemma_needed(owned: Seq<OwnedValue>, amount: int)
    ensures
        needed(owned, amount) <= owned.len(),
    decreases owned.len(),
{
    if amount > 0 && owned.len() > 0 {
        lemma_needed(owned.skip(1), amount - owned[0].value);
    }
}

/// No output is set aside twice.
pub open spec fn distinct(utxos: Seq<RgbUtxo>) -> bool {
    forall|i: int, j: int|
        0 <= i < j < utxos.len() ==> (#[trigger] utxos[i]).outpoint != (
        #[trigger] utxos[j]).outpoint
}

/// Where the first output without an asset stands.
proof fn lemma_first_uncolored(utxos: Seq<RgbUtxo>) -> (k: int)
    ensures
        match first_uncolored(utxos) {
            Some(u) => {
                &&& 0 <= k < utxos.len()
                &&& utxos[k] == u
                &&& !u.colored
                &&& forall|j: int| 0 <= j < k ==> (#[trigger] utxos[j]).colored
            },
            None => forall|j: int| 0 <= j < utxos.len() ==> (#[trigger] utxos[j]).colored,
        },
    decreases utxos.len(),
{
    if utxos.len() == 0 || !utxos[0].colored {
        0
    } else {
        let rest = utxos.skip(1);
        let k = lemma_first_uncolored(rest);
        assert forall|j: int| 0 < j < utxos.len() implies #[trigger] utxos[j] == rest[j - 1] by {}
        k + 1
    }
}

/// Coloring keeps every output in its place and takes no color away; where the
/// output is there, the first of its name is colored.
proof fn lemma_colored_at(utxos: Seq<RgbUtxo>, outpoint: OutPoint)
    ensures
        colored_at(utxos, outpoint).len() == utxos.len(),
        forall|j: int|
            0 <= j < utxos.len() ==> (#[trigger] colored_at(utxos, outpoint)[j]).outpoint
                == utxos[j].outpoint,
        forall|j: int|
            0 <= j < utxos.len() && utxos[j].outpoint != outpoint ==> #[trigger] colored_at(
                utxos,
                outpoint,
            )[j] == utxos[j],
        forall|j: int|
            0 <= j < utxos.len() && utxos[j].colored ==> (#[trigger] colored_at(
                utxos,
                outpoint,
            )[j]).colored,
        forall|k: int|
            0 <= k < utxos.len() && utxos[k].outpoint == outpoint && (forall|j: int|
                0 <= j < k ==> (#[trigger] utxos[j]).outpoint != outpoint) ==> (
            #[trigger] colored_at(utxos, outpoint)[k]).colored,
    decreases utxos.len(),
{
    if utxos.len() > 0 && utxos[0].outpoint != outpoint {
        let rest = utxos.skip(1);
        lemma_colored_at(rest, outpoint);
        let after = colored_at(utxos, outpoint);
        assert forall|j: int| 0 < j < utxos.len() implies #[trigger] after[j] == colored_at(
            rest,
            outpoint,
        )[j - 1] && utxos[j] == rest[j - 1] by {}
        assert forall|k: int|
            0 <= k < utxos.len() && utxos[k].outpoint == outpoint && (forall|j: int|
                0 <= j < k ==> (#[trigger] utxos[j]).outpoint != outpoint) implies (
        #[trigger] after[k]).colored by {
            assert(forall|j: int| 0 <= j < k - 1 ==> (#[trigger] rest[j]) == utxos[j + 1]);
            assert(colored_at(rest, outpoint)[k - 1].colored);
        }
    }
}

/// Reserving an output takes one that is set aside and carries no asset. It
/// keeps every output in its place and every color, and colors no other.
pub proof fn law_reserve_takes_uncolored(utxos: Seq<RgbUtxo>)
    requires
        reserved(utxos) is Some,
    ensures
        ({
            let (outpoint, after) = reserved(utxos)->0;
            &&& exists|k: int|
                0 <= k < utxos.len() && (#[trigger] utxos[k]).outpoint == outpoint
                    && !utxos[k].colored
            &&& after.len() == utxos.len()
            &&& forall|j: int|
                0 <= j < utxos.len() ==> (#[trigger] after[j]).outpoint == utxos[j].outpoint
            &&& forall|j: int|
                0 <= j < utxos.len() && utxos[j].colored ==> (#[trigger] after[j]).colored
            &&& forall|j: int|
                0 <= j < utxos.len() && utxos[j].outpoint != outpoint ==> #[trigger] after[j]
                    == utxos[j]
        }),
{
    let (outpoint, after) = reserved(utxos)->0;
    let k = lemma_first_uncolored(utxos);
    assert(utxos[k].outpoint == outpoint);
    lemma_colored_at(utxos, outpoint);
}

/// An output that was reserved is not reserved again, as long as no output is
/// set aside twice.
pub proof fn law_reserve_takes_once(utxos: Seq<RgbUtxo>)
    requires
        distinct(utxos),
        reserved(utxos) is Some,
        reserved((reserved(utxos)->0).1) is Some,
    ensures
        distinct((reserved(utxos)->0).1),
        (reserved((reserved(utxos)->0).1)->0).0 != (reserved(utxos)->0).0,
{
    let (outpoint, after) = reserved(utxos)->0;
    let k = lemma_first_uncolored(utxos);
    lemma_colored_at(utxos, outpoint);
    assert(after[k].colored) by {
        assert(forall|j: int| 0 <= j < k ==> (#[trigger] utxos[j]).outpoint != outpoint);
    }
    let next = lemma_first_uncolored(after);
    if next != k {
        assert(after[next].outpoint == utxos[next].outpoint);
        assert(utxos[next].outpoint != utxos[k].outpoint);
    }
}

/// Reserving fails exactly when every output carries an asset.
pub proof fn law_reserve_fails_when_all_colored(utxos: Seq<RgbUtxo>)
    ensures
        reserved(utxos) is None <==> forall|j: int|
            0 <= j < utxos.len() ==> (#[trigger] utxos[j]).colored,
{
    let k = lemma_first_uncolored(utxos);
    if reserved(utxos) is Some {
        assert(!utxos[k].colored);
    }
}

/// Once a transaction has set outputs aside, one can be reserved.
pub proof fn law_created_can_be_reserved(utxos: Seq<RgbUtxo>, txid: [u8; 32], n: nat)
    requires
        n > 0,
    ensures
        reserved(utxos + created(txid, n)) is Some,
{
    let all = utxos + created(txid, n);
    let k = lemma_first_uncolored(all);
    assert(all[utxos.len() as int] == created(txid, n)[0]);
}

/// The outputs that a transaction sets aside are different ones.
pub proof fn law_created_are_distinct(txid: [u8; 32], n: u8)
    ensures
        distinct(created(txid, n as nat)),
{
}

/// Where the outputs carry enough, those taken do, and without the last of them
/// they do not; what they carry beyond the amount is the change.
pub proof fn law_selection_is_enough_and_least(owned: Seq<OwnedValue>, amount: nat)
    requires
        total(owned) >= amount,
    ensures
        ({
            let n = needed(owned, amount as int) as int;
            &&& n <= owned.len()
            &&& total(owned.take(n)) >= amount
            &&& n > 0 ==> total(owned.take(n - 1)) < amount
        }),
{
    lemma_selection(owned, amount as int);
    assert(owned.take(owned.len() as int) == owned);
    if needed(owned, amount as int) == owned.len() {
        assert(total(owned.take(owned.len() as int)) >= amount);
    }
}

proof fn lemma_total_first(owned: Seq<OwnedValue>)
    requires
        owned.len() > 0,
    ensures
        total(owned) == owned[0].value + total(owned.skip(1)),
    decreases owned.len(),
{
    if owned.len() == 1 {
        assert(total(owned.drop_last()) == 0);
        assert(total(owned.skip(1)) == 0);
    } else {
        lemma_total_first(owned.drop_last());
        assert(owned.skip(1).last() == owned.last());
        assert(owned.drop_last().skip(1) == owned.skip(1).drop_last());
    }
}

proof fn lemma_selection(owned: Seq<OwnedValue>, amount: int)
    ensures
        ({
            let n = needed(owned, amount) as int;
            &&& n <= owned.len()
            &&& n < owned.len() ==> total(owned.take(n)) >= amount
            &&& n > 0 ==> total(owned.take(n - 1)) < amount
        }),
    decreases owned.len(),
{
    if amount > 0 && owned.len() > 0 {
        let rest = owned.skip(1);
        lemma_selection(rest, amount - owned[0].value);
        let n = needed(owned, amount) as int;
        lemma_total_first(owned.take(n));
        assert(owned.take(n).skip(1) == rest.take(n - 1));
        if n > 1 {
            lemma_total_first(owned.take(n - 1));
            assert(owned.take(n - 1).skip(1) == rest.take(n - 2));
        } else {
            assert(owned.take(0).len() == 0);
        }
    }
}

/// What outputs carry adds up: together two groups carry what each of them carries, and
/// one output carries its value.
pub proof fn law_total_adds_up(a: Seq<OwnedValue>, b: Seq<OwnedValue>, one: OwnedValue)
    ensures
        total(a + b) == total(a) + total(b),
        total(seq![one]) == one.value,
    decreases b.len(),
{
    if b.len() == 0 {
        assert(a + b == a);
    } else {
        law_total_adds_up(a, b.drop_last(), one);
        assert((a + b).drop_last() == a + b.drop_last());
        assert((a + b).last() == b.last());
    }
    assert(seq![one].drop_last().len() == 0);
    assert(total(seq![one].drop_last()) == 0);
}

/// What is locked adds up: of two groups of outputs it is what is locked of each, and
/// of one output all that is on it if it is set aside, else nothing.
pub proof fn law_locked_adds_up(
    a: Seq<Unspent>,
    b: Seq<Unspent>,
    one: Unspent,
    utxos: Seq<RgbUtxo>,
)
    ensures
        locked(a + b, utxos) == locked(a, utxos) + locked(b, utxos),
        (exists|i: int| 0 <= i < utxos.len() && (#[trigger] utxos[i]).outpoint == one.outpoint)
            ==> locked(seq![one], utxos) == one.value,
        (forall|i: int| 0 <= i < utxos.len() ==> (#[trigger] utxos[i]).outpoint != one.outpoint)
            ==> locked(seq![one], utxos) == 0,
    decreases b.len(),
{
    if b.len() == 0 {
        assert(a + b == a);
    } else {
        law_locked_adds_up(a, b.drop_last(), one, utxos);
        assert((a + b).drop_last() == a + b.drop_last());
        assert((a + b).last() == b.last());
    }
    assert(seq![one].drop_last().len() == 0);
    assert(locked(seq![one].drop_last(), utxos) == 0);
}

/// Whether position `free` is the first without an asset, and position `mark` the first
/// at which the same output stands.
pub open spec fn comes_first(utxos: Seq<RgbUtxo>, free: int, mark: int) -> bool {
    &&& 0 <= mark <= free < utxos.len()
    &&& !utxos[free].colored
    &&& forall|j: int| 0 <= j < free ==> (#[trigger] utxos[j]).colored
    &&& utxos[mark].outpoint == utxos[free].outpoint
    &&& forall|j: int| 0 <= j < mark ==> (#[trigger] utxos[j]).outpoint != utxos[free].outpoint
}

/// The output that is reserved is the first without an asset. It is marked where it
/// first stands, and nothing else changes.
pub proof fn law_the_first_is_reserved(utxos: Seq<RgbUtxo>, free: int, mark: int)
    requires
        comes_first(utxos, free, mark),
    ensures
        reserved(utxos) == Some(
            (
                utxos[free].outpoint,
                utxos.update(mark, RgbUtxo { outpoint: utxos[free].outpoint, colored: true }),
            ),
        ),
{
    let k = lemma_first_uncolored(utxos);
    assert(first_uncolored(utxos) is Some) by {
        if first_uncolored(utxos) is None {
            assert(utxos[free].colored);
        }
    }
    assert(k == free) by {
        if k < free {
            assert(utxos[k].colored);
        }
        if free < k {
            assert(utxos[free].colored);
        }
    }
    lemma_colored_is_update(utxos, utxos[free].outpoint, mark);
}

proof fn lemma_colored_is_update(utxos: Seq<RgbUtxo>, outpoint: OutPoint, mark: int)
    requires
        0 <= mark < utxos.len(),
        utxos[mark].outpoint == outpoint,
        forall|j: int| 0 <= j < mark ==> (#[trigger] utxos[j]).outpoint != outpoint,
    ensures
        colored_at(utxos, outpoint) == utxos.update(mark, RgbUtxo { outpoint, colored: true }),
    decreases utxos.len(),
{
    if mark > 0 {
        let rest = utxos.skip(1);
        assert(utxos[0].outpoint != outpoint);
        assert forall|j: int| 0 <= j < mark - 1 implies (#[trigger] rest[j]).outpoint
            != outpoint by {
            assert(rest[j] == utxos[j + 1]);
        }
        lemma_colored_is_update(rest, outpoint, mark - 1);
        assert(seq![utxos[0]] + rest.update(mark - 1, RgbUtxo { outpoint, colored: true })
            == utxos.update(mark, RgbUtxo { outpoint, colored: true }));
    }
}

} // verus!
