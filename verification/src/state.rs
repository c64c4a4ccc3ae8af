//! The state of a builder while its chain of calls runs: one slot for
//! each field, filled by the field's setter, and the rule that decides
//! when the finishing call may be made.

use crate::field::{Field, FieldV};
use vstd::prelude::*;

verus! {

/// What a field asks of the chain of calls.
#[derive(Clone, Copy, Debug, PartialEq, Eq, Structural)]
pub enum SlotKind {
    /// Must be set before the finishing call.
    Mandatory,
    /// May be set or left out.
    Optional,
    /// Has no setter.
    Skipped,
}

pub open spec fn slot_kind(f: FieldV) -> SlotKind {
    if f.params.skip {
        SlotKind::Skipped
    } else if f.optional {
        SlotKind::Optional
    } else {
        SlotKind::Mandatory
    }
}

pub open spec fn slot_kinds(fs: Seq<FieldV>) -> Seq<SlotKind> {
    Seq::new(fs.len(), |i: int| slot_kind(fs[i]))
}

/// The slots of a builder that was just started: none is filled.
pub open spec fn initial_slots<V>(n: nat) -> Seq<Option<V>> {
    Seq::new(n, |i: int| None::<V>)
}

/// The finishing call may be made when every mandatory slot is filled.
pub open spec fn finishable<V>(kinds: Seq<SlotKind>, slots: Seq<Option<V>>) -> bool {
    forall|i: int|
        0 <= i < kinds.len() && 0 <= i < slots.len() && kinds[i] == SlotKind::Mandatory ==> (
        #[trigger] slots[i]) is Some
}

/// The slots after the setters named by `order` were called in that
/// order on a fresh builder of `n` fields, the setter of field `i`
/// being handed `vals[i]`.
pub open spec fn after_calls<V>(n: nat, order: Seq<int>, vals: Seq<V>) -> Seq<Option<V>>
    decreases order.len(),
{
    if order.len() == 0 {
        initial_slots(n)
    } else {
        after_calls(n, order.drop_last(), vals).update(order.last(), Some(vals[order.last()]))
    }
}

/// Whether the setter of field `i` was among the calls.
pub open spec fn called(order: Seq<int>, i: int) -> bool {
    exists|k: int| 0 <= k < order.len() && #[trigger] order[k] == i
}

/// After any run of setter calls a slot holds the value handed to its
/// setter if that setter was called, and nothing otherwise.
pub proof fn lemma_after_calls<V>(n: nat, order: Seq<int>, vals: Seq<V>)
    requires
        forall|k: int| 0 <= k < order.len() ==> 0 <= #[trigger] order[k] < n,
    ensures
        after_calls(n, order, vals).len() == n,
        forall|i: int|
            0 <= i < n ==> #[trigger] after_calls(n, order, vals)[i] == (if called(order, i) {
                Some(vals[i])
            } else {
                None
            }),
    decreases order.len(),
{
    if order.len() > 0 {
        let prev = order.drop_last();
        lemma_after_calls(n, prev, vals);
        assert forall|i: int| 0 <= i < n implies #[trigger] after_calls(n, order, vals)[i] == (
        if called(order, i) {
            Some(vals[i])
        } else {
            None
        }) by {
            if order.last() == i {
                assert(order[order.len() - 1] == i);
            } else if called(prev, i) {
                let k = choose|k: int| 0 <= k < prev.len() && #[trigger] prev[k] == i;
                assert(order[k] == i);
            } else if called(order, i) {
                let k = choose|k: int| 0 <= k < order.len() && #[trigger] order[k] == i;
                assert(prev[k] == i);
            }
        }
    }
}

/// Calling the setter of every field, in whatever order, and then
/// finishing gives exactly the values that were handed over, field by
/// field: what writing the value down directly would give.
pub proof fn lemma_any_order_builds_the_value<V>(
    kinds: Seq<SlotKind>,
    order: Seq<int>,
    vals: Seq<V>,
)
    requires
        vals.len() == kinds.len(),
        forall|k: int| 0 <= k < order.len() ==> 0 <= #[trigger] order[k] < kinds.len(),
        forall|i: int| 0 <= i < kinds.len() ==> called(order, i),
    ensures
        finishable(kinds, after_calls(kinds.len(), order, vals)),
        after_calls(kinds.len(), order, vals) == Seq::new(kinds.len(), |i: int| Some(vals[i])),
{
    lemma_after_calls(kinds.len(), order, vals);
    assert(after_calls(kinds.len(), order, vals) =~= Seq::new(
        kinds.len(),
        |i: int| Some(vals[i]),
    ));
}

/// The order of the calls does not matter: two runs that call the same
/// setters end in the same slots.
pub proof fn lemma_order_is_irrelevant<V>(n: nat, first: Seq<int>, second: Seq<int>, vals: Seq<V>)
    requires
        forall|k: int| 0 <= k < first.len() ==> 0 <= #[trigger] first[k] < n,
        forall|k: int| 0 <= k < second.len() ==> 0 <= #[trigger] second[k] < n,
        forall|i: int| 0 <= i < n ==> called(first, i) == called(second, i),
    ensures
        after_calls(n, first, vals) == after_calls(n, second, vals),
{
    lemma_after_calls(n, first, vals);
    lemma_after_calls(n, second, vals);
    assert(after_calls(n, first, vals) =~= after_calls(n, second, vals));
}

/// While the setter of one mandatory field, whichever it is, has not
/// been called, the finishing call cannot be made.
pub proof fn lemma_unset_mandatory_blocks_finish<V>(
    kinds: Seq<SlotKind>,
    order: Seq<int>,
    vals: Seq<V>,
    i: int,
)
    requires
        forall|k: int| 0 <= k < order.len() ==> 0 <= #[trigger] order[k] < kinds.len(),
        0 <= i < kinds.len(),
        kinds[i] == SlotKind::Mandatory,
        !called(order, i),
    ensures
        !finishable(kinds, after_calls(kinds.len(), order, vals)),
{
    lemma_after_calls(kinds.len(), order, vals);
    assert(after_calls(kinds.len(), order, vals)[i] is None);
}

/// Once the setter of every mandatory field was called the finishing
/// call can be made, whichever optional fields were left out; the slot
/// of a field that was left out is empty, and it is then that the
/// field's default, or absence, is taken.
pub proof fn lemma_optional_may_be_omitted<V>(kinds: Seq<SlotKind>, order: Seq<int>, vals: Seq<V>)
    requires
        forall|k: int| 0 <= k < order.len() ==> 0 <= #[trigger] order[k] < kinds.len(),
        forall|i: int|
            0 <= i < kinds.len() && #[trigger] kinds[i] == SlotKind::Mandatory ==> called(order, i),
    ensures
        finishable(kinds, after_calls(kinds.len(), order, vals)),
        forall|i: int|
            0 <= i < kinds.len() && !called(order, i) ==> (#[trigger] after_calls(
                kinds.len(),
                order,
                vals,
            )[i]) is None,
{
    lemma_after_calls(kinds.len(), order, vals);
}

/// A builder in the middle of its chain of calls.
#[derive(Debug, PartialEq, Eq)]
pub struct BuilderState<V> {
    pub kinds: Vec<SlotKind>,
    pub slots: Vec<Option<V>>,
}

impl<V> BuilderState<V> {
    /// There is one slot for each field.
    pub open spec fn wf(&self) -> bool {
        self.kinds.len() == self.slots.len()
    }

    /// The start method: a builder for the given fields with no slot
    /// filled.
    pub fn start(fields: &Vec<Field>) -> (b: BuilderState<V>)
        ensures
            b.wf(),
            b.kinds@ == slot_kinds(fields.deep_view()),
            b.slots@ == initial_slots::<V>(fields.len() as nat),
    {
        let mut kinds: Vec<SlotKind> = Vec::new();
        let mut slots: Vec<Option<V>> = Vec::new();
        let mut i: usize = 0;
        while i < fields.len()
            invariant
                i <= fields.len(),
                kinds.len() == i,
                slots.len() == i,
                forall|j: int| 0 <= j < i ==> kinds[j] == slot_kind(fields[j].deep_view()),
                forall|j: int| 0 <= j < i ==> slots[j] is None,
            decreases fields.len() - i,
        {
            let f = &fields[i];
            let kind = if f.params.skip {
                SlotKind::Skipped
            } else if f.optional {
                SlotKind::Optional
            } else {
                SlotKind::Mandatory
            };
            kinds.push(kind);
            slots.push(None);
            i += 1;
        }
        assert(kinds@ =~= slot_kinds(fields.deep_view()));
        assert(slots@ =~= initial_slots::<V>(fields.len() as nat));
        BuilderState { kinds, slots }
    }

    /// Whether the setter of field `i` may be called now: the field has
    /// a setter and its slot is still empty.
    pub fn can_set(&self, i: usize) -> (b: bool)
        requires
            self.wf(),
        ensures
            b == (i < self.slots.len() && self.kinds[i as int] != SlotKind::Skipped
                && self.slots[i as int] is None),
    {
        if i >= self.slots.len() {
            return false;
        }
        let has_setter = match self.kinds[i] {
            SlotKind::Skipped => false,
            _ => true,
        };
        has_setter && self.slots[i].is_none()
    }

    /// The setter of field `i`: fills its slot and leaves the others.
    pub fn set(self, i: usize, value: V) -> (b: BuilderState<V>)
        requires
            self.wf(),
            i < self.slots.len(),
            self.kinds[i as int] != SlotKind::Skipped,
            self.slots[i as int] is None,
        ensures
            b.wf(),
            b.kinds@ == self.kinds@,
            b.slots@ == self.slots@.update(i as int, Some(value)),
    {
        let BuilderState { kinds, mut slots } = self;
        slots.set(i, Some(value));
        BuilderState { kinds, slots }
    }

    /// Whether the finishing call may be made.
    pub fn can_finish(&self) -> (b: bool)
        requires
            self.wf(),
        ensures
            b == finishable(self.kinds@, self.slots@),
    {
        let mut i: usize = 0;
        while i < self.kinds.len()
            invariant
                i <= self.kinds.len(),
                self.wf(),
                forall|j: int|
                    0 <= j < i && self.kinds[j] == SlotKind::Mandatory ==> (
                    #[trigger] self.slots[j]) is Some,
            decreases self.kinds.len() - i,
        {
            let mandatory = match self.kinds[i] {
                SlotKind::Mandatory => true,
                _ => false,
            };
            if mandatory && self.slots[i].is_none() {
                assert(self.slots@[i as int] is None);
                return false;
            }
            i += 1;
        }
        true
    }

    /// The finishing call: hands out the slots as they are, an empty one
    /// standing for the default or the absence of its field.
    pub fn finish(self) -> (values: Vec<Option<V>>)
        requires
            self.wf(),
            finishable(self.kinds@, self.slots@),
        ensures
            values@ == self.slots@,
    {
        self.slots
    }

    /// The finishing call, tested while the program runs: it yields the
    /// slots exactly when every mandatory one is filled.
    pub fn try_finish(self) -> (r: Option<Vec<Option<V>>>)
        requires
            self.wf(),
        ensures
            match r {
                Some(values) => finishable(self.kinds@, self.slots@) && values@ == self.slots@,
                None => !finishable(self.kinds@, self.slots@),
            },
    {
        if self.can_finish() {
            Some(self.finish())
        } else {
            None
        }
    }
}

} // verus!
