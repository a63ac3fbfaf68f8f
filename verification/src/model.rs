//! The runtime behaviour of a generated builder.
//!
//! The emitted code is text; what that text *does* when compiled and run is
//! stated here over a slot model and proved.  A builder is a row of slots,
//! one per field in declaration order, each either absent or holding a
//! value; a setter overwrites exactly its own slot; finalizing is a pure
//! query that fails on the first required slot that is still absent and
//! otherwise returns every slot's current content unchanged.

use vstd::prelude::*;
use vstd::string::StringExecFns;
use crate::ast::FieldDecl;
use crate::classify::{is_option_shape, is_option_type};

verus! {

/// What the generated builder keeps per field: the field's name and
/// whether the field is required.
#[derive(Debug)]
pub struct SlotPlan {
    /// the field's name
    pub name: String,
    /// whether absence at finalize time is a failure
    pub required: bool,
}

/// The classification of a record's fields, in declaration order: one slot
/// per field, required exactly when the declared type is not the optional
/// wrapper.
pub fn plan_of(fields: &Vec<FieldDecl>) -> (r: Vec<SlotPlan>)
    ensures
        r@.len() == fields@.len(),
        forall|i: int|
            #![auto]
            0 <= i < fields@.len() ==> r@[i].name@ == fields@[i].name@ && r@[i].required
                == !is_option_shape(fields@[i].ty),
{
    let mut r: Vec<SlotPlan> = Vec::new();
    let n: usize = fields.len();
    for i in 0..n
        invariant
            n == fields@.len(),
            r@.len() == i,
            forall|k: int|
                #![auto]
                0 <= k < i ==> r@[k].name@ == fields@[k].name@ && r@[k].required
                    == !is_option_shape(fields@[k].ty),
    {
        let required = !is_option_type(&fields[i].ty);
        r.push(SlotPlan { name: fields[i].name.clone(), required });
    }
    r
}

/// The error a finalize call reports: the first required field, in
/// declaration order, whose slot is still absent.
#[derive(Debug)]
pub struct BuildError {
    /// the name of the field that was never set
    pub field: String,
}

/// The human-readable text of the finalize failure for a field name.
pub open spec fn missing_field_message(name: Seq<char>) -> Seq<char> {
    "field "@ + name + " is not set"@
}

impl BuildError {
    /// The human-readable message, `field <name> is not set`.
    pub fn message(&self) -> (r: String)
        ensures
            r@ == missing_field_message(self.field@),
    {
        let mut s = String::from_str("field ");
        s.append(self.field.as_str());
        s.append(" is not set");
        proof {
            assert(s@ =~= missing_field_message(self.field@));
        }
        s
    }
}

/// Slot `k` blocks finalizing: the field is required and its slot absent.
pub open spec fn unset_at<V>(plan: Seq<SlotPlan>, slots: Seq<Option<V>>, k: int) -> bool {
    plan[k].required && slots[k] is None
}

/// No required slot is absent.
pub open spec fn all_required_set<V>(plan: Seq<SlotPlan>, slots: Seq<Option<V>>) -> bool {
    forall|k: int| 0 <= k < plan.len() ==> !unset_at(plan, slots, k)
}

/// The position of the first required-but-absent slot, in declaration
/// order.
pub open spec fn first_unset_index<V>(plan: Seq<SlotPlan>, slots: Seq<Option<V>>) -> int {
    choose|j: int|
        0 <= j < plan.len() && #[trigger] unset_at(plan, slots, j) && (forall|k: int|
            0 <= k < j ==> !unset_at(plan, slots, k))
}

/// The field name a failing finalize call reports.
pub open spec fn first_unset_name<V>(plan: Seq<SlotPlan>, slots: Seq<Option<V>>) -> Seq<char> {
    plan[first_unset_index(plan, slots)].name@
}

/// What finalizing a builder in the given state returns: every slot's
/// current content when no required slot is absent, otherwise the name of
/// the first absent required field.
pub open spec fn build_result<V>(plan: Seq<SlotPlan>, slots: Seq<Option<V>>) -> Result<
    Seq<Option<V>>,
    Seq<char>,
> {
    if all_required_set(plan, slots) {
        Ok(slots)
    } else {
        Err(first_unset_name(plan, slots))
    }
}

/// When slot `i` is required-but-absent and no earlier slot is, the first
/// absent required slot is exactly `i`, and finalizing reports field `i`.
pub proof fn lemma_first_unset_index_is<V>(plan: Seq<SlotPlan>, slots: Seq<Option<V>>, i: int)
    requires
        0 <= i < plan.len(),
        unset_at(plan, slots, i),
        forall|k: int| 0 <= k < i ==> !unset_at(plan, slots, k),
    ensures
        first_unset_index(plan, slots) == i,
        build_result(plan, slots) == Err::<Seq<Option<V>>, Seq<char>>(plan[i].name@),
{
    assert(0 <= i < plan.len() && unset_at(plan, slots, i) && (forall|k: int|
        0 <= k < i ==> !unset_at(plan, slots, k)));
    let j = first_unset_index(plan, slots);
    assert(0 <= j < plan.len() && unset_at(plan, slots, j) && (forall|k: int|
        0 <= k < j ==> !unset_at(plan, slots, k)));
    if j < i {
        assert(!unset_at(plan, slots, j));
    }
    if i < j {
        assert(!unset_at(plan, slots, i));
    }
    assert(!all_required_set(plan, slots));
}

/// The state of one generated builder at the consuming program's runtime:
/// the per-field plan, and one slot per field.
pub struct BuilderState<V> {
    /// the per-field plan, fixed at construction
    pub plan: Vec<SlotPlan>,
    /// one slot per field, in declaration order
    pub slots: Vec<Option<V>>,
}

impl<V> BuilderState<V> {
    /// One slot per planned field.
    pub open spec fn wf(self) -> bool {
        self.slots@.len() == self.plan@.len()
    }

    /// A fresh builder: every slot absent.  This is what the generated
    /// zero-argument factory returns.
    pub fn new_fresh(plan: Vec<SlotPlan>) -> (b: BuilderState<V>)
        ensures
            b.plan@ == plan@,
            b.slots@ == fresh_slots::<V>(plan@.len() as nat),
            forall|i: int| 0 <= i < plan@.len() ==> b.slots@[i] is None,
            b.wf(),
    {
        let n: usize = plan.len();
        let mut slots: Vec<Option<V>> = Vec::new();
        for i in 0..n
            invariant
                slots@.len() == i,
                forall|k: int| 0 <= k < i ==> slots@[k] is None,
        {
            slots.push(None);
        }
        proof {
            assert(slots@ =~= fresh_slots::<V>(plan@.len() as nat));
        }
        BuilderState { plan, slots }
    }

    /// A setter: slot `i` now holds `v`, present; every other slot and the
    /// plan are untouched; whatever slot `i` held before is overwritten.
    pub fn set_field(&mut self, i: usize, v: V)
        requires
            old(self).wf(),
            i < old(self).plan@.len(),
        ensures
            final(self).plan == old(self).plan,
            final(self).slots@ == old(self).slots@.update(i as int, Some(v)),
            final(self).wf(),
    {
        self.slots[i] = Some(v);
        proof {
            assert(self.slots@ =~= old(self).slots@.update(i as int, Some(v)));
        }
    }
}

impl<V: Copy> BuilderState<V> {
    /// Finalize: a pure query of the current state.  Succeeds with every
    /// slot's current content — an absent optional slot is a legitimate
    /// value, never a failure — unless some required slot is absent, in
    /// which case it fails naming the first such field in declaration
    /// order.  The builder itself is untouched and remains usable.
    pub fn build(&self) -> (r: Result<Vec<Option<V>>, BuildError>)
        requires
            self.wf(),
        ensures
            match build_result(self.plan@, self.slots@) {
                Ok(vals) => r matches Ok(v) && v@ == vals,
                Err(name) => r matches Err(e) && e.field@ == name,
            },
    {
        let n: usize = self.plan.len();
        for i in 0..n
            invariant
                self.wf(),
                n == self.plan@.len(),
                forall|k: int| 0 <= k < i ==> !unset_at(self.plan@, self.slots@, k),
        {
            if self.plan[i].required {
                let slot: Option<V> = self.slots[i];
                if slot.is_none() {
                    proof {
                        lemma_first_unset_index_is(self.plan@, self.slots@, i as int);
                    }
                    return Err(BuildError { field: self.plan[i].name.clone() });
                }
            }
        }
        let mut vals: Vec<Option<V>> = Vec::new();
        for i in 0..n
            invariant
                self.wf(),
                n == self.plan@.len(),
                vals@ == self.slots@.take(i as int),
        {
            vals.push(self.slots[i]);
            proof {
                assert(vals@ =~= self.slots@.take(i as int + 1));
            }
        }
        proof {
            assert(self.slots@.take(n as int) =~= self.slots@);
        }
        Ok(vals)
    }
}

/// The slots of a fresh builder: `n` absent slots.
pub open spec fn fresh_slots<V>(n: nat) -> Seq<Option<V>> {
    Seq::new(n, |i: int| None)
}

/// The slots after a sequence of setter calls, applied left to right; each
/// pair is a slot position and the value the setter stored there.
pub open spec fn apply_sets<V>(slots: Seq<Option<V>>, ops: Seq<(int, V)>) -> Seq<Option<V>>
    decreases ops.len(),
{
    if ops.len() == 0 {
        slots
    } else {
        apply_sets(slots.update(ops[0].0, Some(ops[0].1)), ops.drop_first())
    }
}

/// The value the *last* setter call for slot `k` stored, if any: the
/// last-write-wins content a setter sequence leaves in slot `k`.
pub open spec fn write_of<V>(ops: Seq<(int, V)>, k: int) -> Option<V>
    decreases ops.len(),
{
    if ops.len() == 0 {
        None
    } else {
        match write_of(ops.drop_first(), k) {
            Some(v) => Some(v),
            None => if ops[0].0 == k {
                Some(ops[0].1)
            } else {
                None
            },
        }
    }
}

/// No two setter calls in the sequence touch the same slot.
pub open spec fn distinct_slots<V>(ops: Seq<(int, V)>) -> bool {
    forall|j1: int, j2: int|
        0 <= j1 < j2 < ops.len() ==> (#[trigger] ops[j1]).0 != (#[trigger] ops[j2]).0
}

/// Every setter call in the sequence addresses a slot below `n`.
pub open spec fn slots_below<V>(ops: Seq<(int, V)>, n: int) -> bool {
    forall|j: int| 0 <= j < ops.len() ==> 0 <= (#[trigger] ops[j]).0 < n
}

/// A setter sequence changes exactly the slots it addresses, each to the
/// value of its last write; every other slot keeps its content.
pub proof fn lemma_apply_sets_elem<V>(slots: Seq<Option<V>>, ops: Seq<(int, V)>)
    requires
        slots_below(ops, slots.len() as int),
    ensures
        apply_sets(slots, ops).len() == slots.len(),
        forall|k: int|
            0 <= k < slots.len() ==> #[trigger] apply_sets(slots, ops)[k] == (match write_of(
                ops,
                k,
            ) {
                Some(v) => Some(v),
                None => slots[k],
            }),
    decreases ops.len(),
{
    if ops.len() > 0 {
        let updated = slots.update(ops[0].0, Some(ops[0].1));
        assert(slots_below(ops.drop_first(), updated.len() as int));
        lemma_apply_sets_elem(updated, ops.drop_first());
        assert forall|k: int| 0 <= k < slots.len() implies #[trigger] apply_sets(slots, ops)[k]
            == (match write_of(ops, k) {
            Some(v) => Some(v),
            None => slots[k],
        }) by {
            assert(apply_sets(slots, ops) == apply_sets(updated, ops.drop_first()));
        }
    }
}

/// A last write of `v` to slot `k` means some setter call stored `v` there.
pub proof fn lemma_write_of_contains<V>(ops: Seq<(int, V)>, k: int, v: V)
    requires
        write_of(ops, k) == Some(v),
    ensures
        ops.contains((k, v)),
    decreases ops.len(),
{
    if write_of(ops.drop_first(), k) is Some {
        lemma_write_of_contains(ops.drop_first(), k, v);
        let i = choose|i: int| 0 <= i < ops.drop_first().len() && ops.drop_first()[i] == (k, v);
        assert(ops[i + 1] == (k, v));
    } else {
        assert(ops[0] == (k, v));
    }
}

/// When no setter call addresses slot `k`, the sequence leaves no write
/// there.
pub proof fn lemma_write_of_none<V>(ops: Seq<(int, V)>, k: int)
    requires
        forall|j: int| 0 <= j < ops.len() ==> (#[trigger] ops[j]).0 != k,
    ensures
        write_of(ops, k) is None,
    decreases ops.len(),
{
    if ops.len() > 0 {
        assert forall|j: int| 0 <= j < ops.drop_first().len() implies (#[trigger] ops.drop_first()[j]).0
            != k by {
            assert(ops.drop_first()[j] == ops[j + 1]);
        }
        lemma_write_of_none(ops.drop_first(), k);
        assert(ops[0].0 != k);
    }
}

/// When each slot is set at most once, a setter call that stored `v` in
/// slot `k` is also the last write to `k`.
pub proof fn lemma_contains_write_of<V>(ops: Seq<(int, V)>, k: int, v: V)
    requires
        distinct_slots(ops),
        ops.contains((k, v)),
    ensures
        write_of(ops, k) == Some(v),
    decreases ops.len(),
{
    let i = choose|i: int| 0 <= i < ops.len() && ops[i] == (k, v);
    if i == 0 {
        assert forall|j: int| 0 <= j < ops.drop_first().len() implies (#[trigger] ops.drop_first()[j]).0
            != k by {
            assert(ops.drop_first()[j] == ops[j + 1]);
        }
        lemma_write_of_none(ops.drop_first(), k);
        assert(ops[0].0 == k);
    } else {
        assert forall|j1: int, j2: int| 0 <= j1 < j2 < ops.drop_first().len() implies (
        #[trigger] ops.drop_first()[j1]).0 != (#[trigger] ops.drop_first()[j2]).0 by {
            assert(ops.drop_first()[j1] == ops[j1 + 1]);
            assert(ops.drop_first()[j2] == ops[j2 + 1]);
        }
        assert(ops.drop_first()[i - 1] == (k, v));
        assert(ops.drop_first().contains((k, v)));
        lemma_contains_write_of(ops.drop_first(), k, v);
    }
}

/// Setter order independence: two setter sequences that make the same
/// calls — the same set of (slot, value) pairs, each slot set at most once
/// in each — leave the builder in the same state, from any starting state.
pub proof fn lemma_setter_order_independent<V>(
    slots: Seq<Option<V>>,
    ops1: Seq<(int, V)>,
    ops2: Seq<(int, V)>,
)
    requires
        slots_below(ops1, slots.len() as int),
        distinct_slots(ops1),
        distinct_slots(ops2),
        ops1.to_multiset() == ops2.to_multiset(),
    ensures
        apply_sets(slots, ops1) == apply_sets(slots, ops2),
{
    broadcast use vstd::seq_lib::group_to_multiset_ensures;

    assert forall|j: int| 0 <= j < ops2.len() implies 0 <= (#[trigger] ops2[j]).0
        < slots.len() by {
        assert(ops2.contains(ops2[j]));
        assert(ops2.to_multiset().count(ops2[j]) > 0);
        assert(ops1.to_multiset().count(ops2[j]) > 0);
        assert(ops1.contains(ops2[j]));
        let i = choose|i: int| 0 <= i < ops1.len() && ops1[i] == ops2[j];
        assert(0 <= ops1[i].0 < slots.len());
    }
    lemma_apply_sets_elem(slots, ops1);
    lemma_apply_sets_elem(slots, ops2);
    assert forall|k: int| 0 <= k < slots.len() implies #[trigger] write_of(ops1, k) == write_of(
        ops2,
        k,
    ) by {
        if write_of(ops1, k) is Some {
            let v = write_of(ops1, k)->Some_0;
            lemma_write_of_contains(ops1, k, v);
            assert(ops1.to_multiset().count((k, v)) > 0);
            assert(ops2.to_multiset().count((k, v)) > 0);
            assert(ops2.contains((k, v)));
            lemma_contains_write_of(ops2, k, v);
        } else if write_of(ops2, k) is Some {
            let w = write_of(ops2, k)->Some_0;
            lemma_write_of_contains(ops2, k, w);
            assert(ops2.to_multiset().count((k, w)) > 0);
            assert(ops1.to_multiset().count((k, w)) > 0);
            assert(ops1.contains((k, w)));
            lemma_contains_write_of(ops1, k, w);
        }
    }
    assert(apply_sets(slots, ops1) =~= apply_sets(slots, ops2));
}

/// Round trip: take any record value of the planned shape — every required
/// field present, each optional field present or absent — and populate a
/// fresh builder with exactly its present field values, once each, in any
/// order.  Finalizing then succeeds and returns exactly that value.
pub proof fn lemma_round_trip<V>(plan: Seq<SlotPlan>, value: Seq<Option<V>>, ops: Seq<(int, V)>)
    requires
        value.len() == plan.len(),
        forall|i: int| 0 <= i < plan.len() && plan[i].required ==> value[i] is Some,
        slots_below(ops, plan.len() as int),
        forall|k: int| 0 <= k < plan.len() ==> #[trigger] write_of(ops, k) == value[k],
    ensures
        build_result(plan, apply_sets(fresh_slots(plan.len() as nat), ops)) == Ok::<
            Seq<Option<V>>,
            Seq<char>,
        >(value),
{
    let fresh = fresh_slots::<V>(plan.len() as nat);
    lemma_apply_sets_elem(fresh, ops);
    let after = apply_sets(fresh, ops);
    assert forall|k: int| 0 <= k < plan.len() implies after[k] == value[k] by {
        if write_of(ops, k) is None {
            assert(value[k] is None);
        }
    }
    assert(after =~= value);
    assert forall|k: int| 0 <= k < plan.len() implies !unset_at(plan, value, k) by {
        if plan[k].required {
            assert(value[k] is Some);
        }
    }
}

/// Last write wins: setting the same slot twice, first to `x` and then to
/// `y`, leaves exactly the state that setting it once to `y` leaves.
pub proof fn lemma_last_write_wins<V>(slots: Seq<Option<V>>, i: int, x: V, y: V)
    requires
        0 <= i < slots.len(),
    ensures
        slots.update(i, Some(x)).update(i, Some(y)) == slots.update(i, Some(y)),
{
    assert(slots.update(i, Some(x)).update(i, Some(y)) =~= slots.update(i, Some(y)));
}

/// Required-field gating: when slot `j` is the first required slot that is
/// still absent, finalizing fails and reports exactly field `j`'s name.
pub proof fn lemma_required_gating<V>(plan: Seq<SlotPlan>, slots: Seq<Option<V>>, j: int)
    requires
        0 <= j < plan.len(),
        plan[j].required,
        slots[j] is None,
        forall|k: int| 0 <= k < j ==> !(plan[k].required && slots[k] is None),
    ensures
        build_result(plan, slots) == Err::<Seq<Option<V>>, Seq<char>>(plan[j].name@),
{
    assert forall|k: int| 0 <= k < j implies !unset_at(plan, slots, k) by {}
    lemma_first_unset_index_is(plan, slots, j);
}

/// Optional passthrough: when every required slot is present, finalizing
/// succeeds and hands every slot's content through unchanged — an optional
/// slot's absence included, as a value and never as a failure.
pub proof fn lemma_optional_passthrough<V>(plan: Seq<SlotPlan>, slots: Seq<Option<V>>)
    requires
        forall|i: int| 0 <= i < plan.len() && plan[i].required ==> slots[i] is Some,
    ensures
        build_result(plan, slots) == Ok::<Seq<Option<V>>, Seq<char>>(slots),
{
    assert forall|k: int| 0 <= k < plan.len() implies !unset_at(plan, slots, k) by {
        if plan[k].required {
            assert(slots[k] is Some);
        }
    }
}

/// Finalize is a pure query: its outcome is a function of the builder's
/// state alone, so finalizing twice with no setter call in between gives
/// two equal results or two equal failures.
pub proof fn lemma_build_idempotent<V>(b1: BuilderState<V>, b2: BuilderState<V>)
    requires
        b1 == b2,
    ensures
        build_result(b1.plan@, b1.slots@) == build_result(b2.plan@, b2.slots@),
{
}

} // verus!
