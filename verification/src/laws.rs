//! The laws of the generated builder's behaviour, proved over the semantic
//! model: what any sequence of setter calls leaves in the slots, and what
//! the build operation then returns.

use vstd::prelude::*;
use crate::semantics::all_set;
use crate::semantics::assembled;
use crate::semantics::first_unset_at;
use crate::semantics::fresh_slots;

verus! {

/// The slot state after a sequence of setter calls, applied in order; each
/// step is exactly one setter's effect: overwrite the slot at the written
/// position. The position and the value of one call, as a pair.
pub open spec fn apply_writes<V>(slots: Seq<Option<V>>, writes: Seq<(int, V)>) -> Seq<Option<V>>
    decreases writes.len(),
{
    if writes.len() == 0 {
        slots
    } else {
        apply_writes(slots, writes.drop_last()).update(writes.last().0, Some(writes.last().1))
    }
}

/// Whether some call in the sequence writes the field at position `i`.
pub open spec fn writes_field<V>(writes: Seq<(int, V)>, i: int) -> bool {
    exists|k: int| 0 <= k < writes.len() && (#[trigger] writes[k]).0 == i
}

/// The value of the last call that writes position `i`.
pub open spec fn last_write<V>(writes: Seq<(int, V)>, i: int) -> V
    recommends
        writes_field(writes, i),
    decreases writes.len(),
{
    if writes.len() == 0 {
        arbitrary()
    } else if writes.last().0 == i {
        writes.last().1
    } else {
        last_write(writes.drop_last(), i)
    }
}

/// Setter calls never change how many slots there are.
pub proof fn lemma_apply_writes_len<V>(slots: Seq<Option<V>>, writes: Seq<(int, V)>)
    requires
        forall|k: int| 0 <= k < writes.len() ==> 0 <= (#[trigger] writes[k]).0 < slots.len(),
    ensures
        apply_writes(slots, writes).len() == slots.len(),
    decreases writes.len(),
{
    if writes.len() > 0 {
        lemma_apply_writes_len(slots, writes.drop_last());
    }
}

/// What one slot holds after a sequence of setter calls: the last value
/// written to it, or its prior content if no call wrote it.
pub proof fn lemma_apply_writes_index<V>(slots: Seq<Option<V>>, writes: Seq<(int, V)>, i: int)
    requires
        0 <= i < slots.len(),
        forall|k: int| 0 <= k < writes.len() ==> 0 <= (#[trigger] writes[k]).0 < slots.len(),
    ensures
        apply_writes(slots, writes)[i] == if writes_field(writes, i) {
            Some(last_write(writes, i))
        } else {
            slots[i]
        },
    decreases writes.len(),
{
    lemma_apply_writes_len(slots, writes);
    if writes.len() == 0 {
    } else {
        let prior = writes.drop_last();
        lemma_apply_writes_index(slots, prior, i);
        lemma_apply_writes_len(slots, prior);
        if writes.last().0 == i {
            assert(writes[writes.len() - 1].0 == i);
        } else {
            if writes_field(writes, i) {
                let k = choose|k: int| 0 <= k < writes.len() && (#[trigger] writes[k]).0 == i;
                assert(k < writes.len() - 1);
                assert(prior[k].0 == i);
            }
            if writes_field(prior, i) {
                let k = choose|k: int| 0 <= k < prior.len() && (#[trigger] prior[k]).0 == i;
                assert(writes[k].0 == i);
            }
        }
    }
}

/// Law: an immediate build from the factory, with no setter called, fails
/// the very first check — the error reports the first declared field.
pub proof fn lemma_fresh_build_reports_first_field<V>(n: nat)
    requires
        n > 0,
    ensures
        !all_set(fresh_slots::<V>(n)),
        first_unset_at(fresh_slots::<V>(n), 0),
{
}

/// Law: the degenerate record with no fields — a fresh builder passes
/// every check at once and assembles the empty record.
pub proof fn lemma_fresh_build_empty_record<V>()
    ensures
        all_set(fresh_slots::<V>(0)),
        assembled(fresh_slots::<V>(0)) == Seq::<V>::empty(),
{
    assert(assembled(fresh_slots::<V>(0)) =~= Seq::<V>::empty());
}

/// Law: last write wins, order-independently. Any sequence of setter calls
/// on a fresh builder that covers every field — in whatever order, with
/// repetitions allowed — leaves every slot set, and the built record holds
/// in each field exactly the last value that field's setter received.
/// The record is a function of each field's last write alone, so two
/// covering sequences that agree on those agree on the record.
pub proof fn lemma_build_after_covering_writes<V>(n: nat, writes: Seq<(int, V)>)
    requires
        forall|k: int| 0 <= k < writes.len() ==> 0 <= (#[trigger] writes[k]).0 < n,
        forall|i: int| 0 <= i < n ==> writes_field(writes, i),
    ensures
        all_set(apply_writes(fresh_slots::<V>(n), writes)),
        assembled(apply_writes(fresh_slots::<V>(n), writes)) == Seq::new(
            n,
            |i: int| last_write(writes, i),
        ),
{
    let slots0 = fresh_slots::<V>(n);
    lemma_apply_writes_len(slots0, writes);
    assert forall|i: int| 0 <= i < n implies apply_writes(slots0, writes)[i] == Some(
        last_write(writes, i),
    ) by {
        lemma_apply_writes_index(slots0, writes, i);
    }
    assert(assembled(apply_writes(slots0, writes)) =~= Seq::new(
        n,
        |i: int| last_write(writes, i),
    ));
}

/// Law: setting one field twice keeps only the second value — the slots
/// after `v1` then `v2` are the slots after `v2` alone.
pub proof fn lemma_setter_overwrite<V>(slots: Seq<Option<V>>, i: int, v1: V, v2: V)
    requires
        0 <= i < slots.len(),
    ensures
        slots.update(i, Some(v1)).update(i, Some(v2)) == slots.update(i, Some(v2)),
{
    assert(slots.update(i, Some(v1)).update(i, Some(v2)) =~= slots.update(i, Some(v2)));
}

/// One setter call per field, in declaration order, with the given values.
pub open spec fn writes_in_order<V>(values: Seq<V>) -> Seq<(int, V)> {
    Seq::new(values.len(), |i: int| (i, values[i]))
}

/// The last write of an in-order covering sequence is the value at the
/// written position itself.
proof fn lemma_last_write_in_order<V>(values: Seq<V>, i: int)
    requires
        0 <= i < values.len(),
    ensures
        last_write(writes_in_order(values), i) == values[i],
    decreases values.len(),
{
    let writes = writes_in_order(values);
    if i < values.len() - 1 {
        assert(writes.drop_last() =~= writes_in_order(values.drop_last()));
        lemma_last_write_in_order(values.drop_last(), i);
    }
}

/// Law: round trip. Setting every field of a fresh builder once, to the
/// values of one's choice, and building yields the record holding exactly
/// those values, field for field.
pub proof fn lemma_round_trip<V>(values: Seq<V>)
    ensures
        all_set(apply_writes(fresh_slots::<V>(values.len()), writes_in_order(values))),
        assembled(apply_writes(fresh_slots::<V>(values.len()), writes_in_order(values)))
            == values,
{
    let writes = writes_in_order(values);
    assert forall|i: int| 0 <= i < values.len() implies writes_field(writes, i) by {
        assert(writes[i].0 == i);
    }
    lemma_build_after_covering_writes(values.len(), writes);
    assert forall|i: int| 0 <= i < values.len() implies last_write(writes, i) == values[i] by {
        lemma_last_write_in_order(values, i);
    }
    assert(Seq::new(values.len(), |i: int| last_write(writes, i)) =~= values);
}

/// Law: partial-failure retry. With every slot set except the one at `k`,
/// a build fails reporting exactly field `k`, and the failure leaves the
/// builder as it was; one setter call on `k` then leaves every slot set,
/// the already-set slots untouched, and the retried build yields the
/// record holding the new value at `k` and the already-set values
/// everywhere else.
pub proof fn lemma_retry_after_missing<V>(slots: Seq<Option<V>>, k: int, value: V)
    requires
        0 <= k < slots.len(),
        slots[k] is None,
        forall|j: int| 0 <= j < slots.len() && j != k ==> slots[j] is Some,
    ensures
        !all_set(slots),
        first_unset_at(slots, k),
        all_set(slots.update(k, Some(value))),
        forall|j: int|
            0 <= j < slots.len() && j != k ==> slots.update(k, Some(value))[j] == slots[j],
        assembled(slots.update(k, Some(value)))[k] == value,
        forall|j: int|
            0 <= j < slots.len() && j != k ==> assembled(slots.update(k, Some(value)))[j]
                == slots[j].unwrap(),
{
}

} // verus!
