//! Sequences of operations applied one after another, and what holds of
//! every such sequence.
//!
//! Every access to the counter is exclusive, so whatever callers do at the
//! same time, the counter sees their operations in some order, one at a
//! time. A history is that order.

use crate::decimal::{decimal_text, decimal_value, lemma_decimal_round_trip};
use crate::operation::{greeting_text, Operation};
use vstd::prelude::*;

verus! {

/// The counter after `ops` were applied in order to a counter that held
/// `start`.
pub open spec fn run(start: int, ops: Seq<Operation>) -> int
    decreases ops.len(),
{
    if ops.len() == 0 {
        start
    } else {
        ops.last().next_value(run(start, ops.drop_last()))
    }
}

/// The counter at the moment operation `i` of `ops` is applied.
pub open spec fn value_before(start: int, ops: Seq<Operation>, i: int) -> int {
    run(start, ops.take(i))
}

/// The text of the reply to operation `i` of `ops`.
pub open spec fn reply_at(start: int, ops: Seq<Operation>, i: int) -> Seq<char> {
    ops[i].reply_text(value_before(start, ops, i))
}

/// The index of the last operation before `i` that writes, or `-1` if none
/// of them does.
pub open spec fn last_write_before(ops: Seq<Operation>, i: int) -> int
    decreases i,
{
    if i <= 0 {
        -1
    } else if ops[i - 1].writes() {
        i - 1
    } else {
        last_write_before(ops, i - 1)
    }
}

/// How often `op` occurs in `ops`.
pub open spec fn occurrences(ops: Seq<Operation>, op: Operation) -> int {
    ops.to_multiset().count(op) as int
}

/// Applying one more operation to a history applies it to the history's
/// result.
pub proof fn lemma_run_step(start: int, ops: Seq<Operation>, i: int)
    requires
        0 <= i < ops.len(),
    ensures
        value_before(start, ops, i + 1) == ops[i].next_value(value_before(start, ops, i)),
{
    assert(ops.take(i + 1).drop_last() =~= ops.take(i));
    assert(ops.take(i + 1).last() == ops[i]);
}

/// The counter at step `i` is what the last write before `i` left, or the
/// starting value if there was none.
pub proof fn lemma_value_since_last_write(start: int, ops: Seq<Operation>, i: int)
    requires
        0 <= i <= ops.len(),
    ensures
        -1 <= last_write_before(ops, i) < i,
        last_write_before(ops, i) >= 0 ==> ops[last_write_before(ops, i)].writes()
            && value_before(start, ops, i) == value_before(
            start,
            ops,
            last_write_before(ops, i) + 1,
        ),
        last_write_before(ops, i) == -1 ==> value_before(start, ops, i) == start,
    decreases i,
{
    if i == 0 {
        assert(ops.take(0) =~= Seq::<Operation>::empty());
    } else {
        lemma_run_step(start, ops, i - 1);
        if !ops[i - 1].writes() {
            lemma_value_since_last_write(start, ops, i - 1);
        }
    }
}

/// The counter does not change over a stretch of operations none of which
/// writes.
pub proof fn lemma_unwritten_value_stays(start: int, ops: Seq<Operation>, i: int, j: int)
    requires
        0 <= i <= j <= ops.len(),
        forall|k: int| i <= k < j ==> !ops[k].writes(),
    ensures
        value_before(start, ops, i) == value_before(start, ops, j),
    decreases j - i,
{
    if i < j {
        lemma_unwritten_value_stays(start, ops, i, j - 1);
        lemma_run_step(start, ops, j - 1);
    }
}

/// No update is lost: in a history without a reset, the counter ends at its
/// start plus the number of increments minus the number of decrements.
pub proof fn lemma_net_effect(start: int, ops: Seq<Operation>)
    requires
        forall|i: int| 0 <= i < ops.len() ==> !(ops[i] is Reset),
    ensures
        run(start, ops) == start + occurrences(ops, Operation::Increment) - occurrences(
            ops,
            Operation::Decrement,
        ),
    decreases ops.len(),
{
    broadcast use vstd::seq_lib::group_to_multiset_ensures;

    if ops.len() == 0 {
        assert(ops.to_multiset().len() == 0);
    } else {
        let earlier = ops.drop_last();
        let op = ops.last();
        lemma_net_effect(start, earlier);
        assert(ops =~= earlier.push(op));
        assert(ops.to_multiset() =~= earlier.to_multiset().insert(op));
    }
}

/// The order of the calls does not matter: two histories without a reset
/// that hold the same operations, each as often, end at the same value.
pub proof fn lemma_order_is_irrelevant(start: int, first: Seq<Operation>, second: Seq<Operation>)
    requires
        forall|i: int| 0 <= i < first.len() ==> !(first[i] is Reset),
        forall|i: int| 0 <= i < second.len() ==> !(second[i] is Reset),
        first.to_multiset() == second.to_multiset(),
    ensures
        run(start, first) == run(start, second),
{
    lemma_net_effect(start, first);
    lemma_net_effect(start, second);
}

/// A read right after a reset answers `0`.
pub proof fn lemma_reset_then_get_value(start: int, ops: Seq<Operation>, i: int)
    requires
        0 <= i,
        i + 1 < ops.len(),
        ops[i] is Reset,
        ops[i + 1] is GetValue,
    ensures
        value_before(start, ops, i + 1) == 0,
        reply_at(start, ops, i + 1) == "0"@,
{
    lemma_run_step(start, ops, i);
    reveal_strlit("0");
    assert(decimal_text(0) =~= "0"@);
}

/// A read answers with the value of the last write before it, or with the
/// starting value if nothing was written yet; it never shows a value that
/// the counter did not hold. The reply writes that value in decimal
/// notation, and reading the reply gives the value back.
pub proof fn lemma_get_value_sees_last_write(start: int, ops: Seq<Operation>, i: int)
    requires
        0 <= i < ops.len(),
        ops[i] is GetValue,
    ensures
        reply_at(start, ops, i) == decimal_text(value_before(start, ops, i)),
        decimal_value(reply_at(start, ops, i)) == value_before(start, ops, i),
        -1 <= last_write_before(ops, i) < i,
        last_write_before(ops, i) >= 0 ==> ops[last_write_before(ops, i)].writes()
            && value_before(start, ops, i) == value_before(
            start,
            ops,
            last_write_before(ops, i) + 1,
        ),
        last_write_before(ops, i) == -1 ==> value_before(start, ops, i) == start,
{
    lemma_value_since_last_write(start, ops, i);
    lemma_decimal_round_trip(value_before(start, ops, i));
}

/// Reads agree while nothing is written: two reads with no write between
/// them give the same reply.
pub proof fn lemma_repeated_get_value_agrees(start: int, ops: Seq<Operation>, i: int, j: int)
    requires
        0 <= i <= j < ops.len(),
        ops[i] is GetValue,
        ops[j] is GetValue,
        forall|k: int| i <= k < j ==> !ops[k].writes(),
    ensures
        value_before(start, ops, i) == value_before(start, ops, j),
        reply_at(start, ops, i) == reply_at(start, ops, j),
{
    lemma_unwritten_value_stays(start, ops, i, j);
}

/// The greeting does not depend on the counter, and asking for it leaves the
/// counter as it was.
pub proof fn lemma_echo_is_independent(start: int, ops: Seq<Operation>, i: int)
    requires
        0 <= i < ops.len(),
        ops[i] is Echo,
    ensures
        reply_at(start, ops, i) == greeting_text(),
        value_before(start, ops, i + 1) == value_before(start, ops, i),
{
    lemma_run_step(start, ops, i);
}

} // verus!
