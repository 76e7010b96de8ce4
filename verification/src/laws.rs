//! What holds of every builder that is planned and then run.

use crate::error::ErrorView;
use crate::field::{Assign, FieldView};
use crate::first::{lemma_first_is, lemma_first_sound};
use crate::record::{failing_fields, RecordDefView};
use crate::state::{empty_slots, setters_named, BuilderStateView, Call, SlotView, ValueView};
use vstd::prelude::*;

verus! {

impl<V> SlotView<V> {
    /// The slot after its setter ran on each of `args` in turn.
    pub open spec fn store_all(self, args: Seq<ValueView<V>>) -> SlotView<V>
        decreases args.len(),
    {
        if args.len() == 0 {
            self
        } else {
            self.store_all(args.drop_last()).store(args.last())
        }
    }
}

impl<V> BuilderStateView<V> {
    /// The arguments of those of `calls` that slot `i` accepts, in order.
    pub open spec fn received(self, calls: Seq<Call<V>>, i: int) -> Seq<ValueView<V>>
        decreases calls.len(),
    {
        if calls.len() == 0 {
            Seq::empty()
        } else {
            let rest = self.received(calls.drop_last(), i);
            if calls.last().slot == i && self.accepts(i, calls.last().arg) {
                rest.push(calls.last().arg)
            } else {
                rest
            }
        }
    }
}

/// The values that the calls to slot `i` carry, in order.
pub open spec fn elements<V>(calls: Seq<Call<V>>, i: int) -> Seq<V>
    decreases calls.len(),
{
    if calls.len() == 0 {
        Seq::empty()
    } else {
        let rest = elements(calls.drop_last(), i);
        if calls.last().slot == i && calls.last().arg is One {
            rest.push(calls.last().arg->One_0)
        } else {
            rest
        }
    }
}

/// The builder that the generated factory returns.
pub open spec fn factory<V>(def: RecordDefView) -> BuilderStateView<V> {
    BuilderStateView::fresh(def.generate()->Ok_0.fields)
}

/// A setter never changes what was planned for its slot.
proof fn lemma_store_all_plan<V>(slot: SlotView<V>, args: Seq<ValueView<V>>)
    ensures
        slot.store_all(args).plan == slot.plan,
    decreases args.len(),
{
    if args.len() > 0 {
        lemma_store_all_plan(slot, args.drop_last());
    }
}

/// A run leaves the number of slots as it was.
proof fn lemma_run_slot_len<V>(start: BuilderStateView<V>, calls: Seq<Call<V>>)
    ensures
        start.run(calls).slots.len() == start.slots.len(),
    decreases calls.len(),
{
    if calls.len() > 0 {
        lemma_run_slot_len(start, calls.drop_last());
    }
}

/// Every slot holds, after a run, what its own setter made of the arguments
/// that it accepted: calls to other slots leave it alone.
proof fn lemma_run_slot<V>(start: BuilderStateView<V>, calls: Seq<Call<V>>, i: int)
    requires
        0 <= i < start.slots.len(),
    ensures
        start.run(calls).slots.len() == start.slots.len(),
        start.run(calls).slots[i] == start.slots[i].store_all(start.received(calls, i)),
    decreases calls.len(),
{
    if calls.len() > 0 {
        let call = calls.last();
        let before = calls.drop_last();
        lemma_run_slot(start, before, i);
        lemma_store_all_plan(start.slots[i], start.received(before, i));
        if call.slot == i && start.accepts(i, call.arg) {
            assert(start.received(calls, i).drop_last() =~= start.received(before, i));
        }
    }
}

/// What a replacing setter leaves in its slot: the last argument.
proof fn lemma_store_all_replace<V>(slot: SlotView<V>, args: Seq<ValueView<V>>)
    requires
        slot.plan.setter.assign == Assign::Replace,
    ensures
        slot.store_all(args).value == if args.len() == 0 {
            slot.value
        } else {
            Some(args.last())
        },
{
    if args.len() > 0 {
        lemma_store_all_plan(slot, args.drop_last());
    }
}

/// What a wrapping setter leaves in its slot: the last argument, as present.
proof fn lemma_store_all_wrap<V>(slot: SlotView<V>, args: Seq<ValueView<V>>)
    requires
        slot.plan.setter.assign == Assign::WrapSome,
    ensures
        slot.store_all(args).value == if args.len() == 0 {
            slot.value
        } else {
            Some(ValueView::Maybe(Some(args.last()->One_0)))
        },
{
    if args.len() > 0 {
        lemma_store_all_plan(slot, args.drop_last());
    }
}

/// What an accumulator leaves in a slot that held a collection: the
/// collection, followed by the arguments in order.
proof fn lemma_store_all_push<V>(slot: SlotView<V>, items: Seq<V>, args: Seq<ValueView<V>>)
    requires
        slot.plan.setter.assign == Assign::Push,
        slot.value == Some(ValueView::Many(items)),
    ensures
        slot.store_all(args).value == Some(
            ValueView::Many(items + Seq::new(args.len(), |k: int| args[k]->One_0)),
        ),
    decreases args.len(),
{
    if args.len() > 0 {
        let before = args.drop_last();
        lemma_store_all_push(slot, items, before);
        lemma_store_all_plan(slot, before);
        assert((items + Seq::new(before.len(), |k: int| before[k]->One_0)).push(args.last()->One_0)
            =~= items + Seq::new(args.len(), |k: int| args[k]->One_0));
    }
}

/// A slot that no call names receives nothing.
proof fn lemma_received_none<V>(start: BuilderStateView<V>, calls: Seq<Call<V>>, i: int)
    requires
        forall|m: int| 0 <= m < calls.len() ==> (#[trigger] calls[m]).slot != i,
    ensures
        start.received(calls, i).len() == 0,
    decreases calls.len(),
{
    if calls.len() > 0 {
        lemma_received_none(start, calls.drop_last(), i);
    }
}

/// A slot that a call names and accepts receives something.
proof fn lemma_received_some<V>(start: BuilderStateView<V>, calls: Seq<Call<V>>, i: int, m: int)
    requires
        0 <= m < calls.len(),
        calls[m].slot == i,
        start.accepts(i, calls[m].arg),
    ensures
        start.received(calls, i).len() > 0,
    decreases calls.len(),
{
    if m < calls.len() - 1 {
        lemma_received_some(start, calls.drop_last(), i, m);
    }
}

/// The last thing that a slot receives is the argument of the last call that
/// names it, where the slot accepts that argument.
proof fn lemma_received_last<V>(start: BuilderStateView<V>, calls: Seq<Call<V>>, i: int, k: int)
    requires
        0 <= k < calls.len(),
        calls[k].slot == i,
        start.accepts(i, calls[k].arg),
        forall|m: int| k < m < calls.len() ==> (#[trigger] calls[m]).slot != i,
    ensures
        start.received(calls, i).len() > 0,
        start.received(calls, i).last() == calls[k].arg,
    decreases calls.len(),
{
    if k < calls.len() - 1 {
        lemma_received_last(start, calls.drop_last(), i, k);
    }
}

/// An accumulator's slot receives the values of the calls that name it.
proof fn lemma_received_elements<V>(start: BuilderStateView<V>, calls: Seq<Call<V>>, i: int)
    requires
        0 <= i < start.slots.len(),
        start.slots[i].plan.setter.assign == Assign::Push,
    ensures
        Seq::new(
            start.received(calls, i).len(),
            |k: int| start.received(calls, i)[k]->One_0,
        ) == elements(calls, i),
    decreases calls.len(),
{
    if calls.len() > 0 {
        lemma_received_elements(start, calls.drop_last(), i);
    }
}

/// What is planned for field `i` of a definition that has a plan.
proof fn lemma_planned<V>(def: RecordDefView, i: int)
    requires
        def.generate() is Ok,
        0 <= i < def.fields().len(),
    ensures
        def.body is Named,
        def.fields()[i].get_ident() is Ok,
        def.fields()[i].setter() is Ok,
        factory::<V>(def).slots.len() == def.fields().len(),
        factory::<V>(def).slots[i] == SlotView::<V>::fresh(def.fields()[i].plan()),
{
    lemma_first_sound(def.fields(), failing_fields());
}

/// Slot `i` after `calls` were made on the builder that the factory returned.
proof fn lemma_slot_after<V>(def: RecordDefView, calls: Seq<Call<V>>, i: int)
    requires
        def.generate() is Ok,
        0 <= i < def.fields().len(),
    ensures
        factory::<V>(def).run(calls).slots.len() == def.fields().len(),
        factory::<V>(def).run(calls).slots[i] == SlotView::<V>::fresh(
            def.fields()[i].plan(),
        ).store_all(factory::<V>(def).received(calls, i)),
        factory::<V>(def).run(calls).slots[i].plan == def.fields()[i].plan(),
{
    lemma_run_slot(factory::<V>(def), calls, i);
    lemma_store_all_plan(
        SlotView::<V>::fresh(def.fields()[i].plan()),
        factory::<V>(def).received(calls, i),
    );
}

/// Whatever is called, the slot of a field that is not plain is never empty
/// before `build`.
proof fn lemma_never_empty<V>(def: RecordDefView, calls: Seq<Call<V>>, i: int)
    requires
        def.generate() is Ok,
        0 <= i < def.fields().len(),
        !(def.fields()[i].typedef() is Plain),
    ensures
        factory::<V>(def).run(calls).slots[i].value is Some,
{
    let start = factory::<V>(def);
    let slot = SlotView::<V>::fresh(def.fields()[i].plan());
    let got = start.received(calls, i);
    lemma_slot_after(def, calls, i);
    lemma_planned::<V>(def, i);
    match slot.plan.setter.assign {
        Assign::Replace => lemma_store_all_replace(slot, got),
        Assign::WrapSome => lemma_store_all_wrap(slot, got),
        Assign::Push => lemma_store_all_push(slot, Seq::empty(), got),
    }
}

/// The slot of a field is filled after a run where the field is not plain, or
/// where one of the calls set it.
proof fn lemma_filled<V>(def: RecordDefView, calls: Seq<Call<V>>, j: int)
    requires
        def.generate() is Ok,
        0 <= j < def.fields().len(),
        def.fields()[j].typedef() is Plain ==> exists|m: int|
            0 <= m < calls.len() && (#[trigger] calls[m]).slot == j && calls[m].arg is One,
    ensures
        factory::<V>(def).run(calls).slots[j].value is Some,
{
    let start = factory::<V>(def);
    if def.fields()[j].typedef() is Plain {
        let m = choose|m: int|
            0 <= m < calls.len() && (#[trigger] calls[m]).slot == j && calls[m].arg is One;
        lemma_planned::<V>(def, j);
        lemma_slot_after(def, calls, j);
        lemma_received_some(start, calls, j, m);
        lemma_store_all_replace(SlotView::<V>::fresh(def.fields()[j].plan()), start.received(calls, j));
    } else {
        lemma_never_empty(def, calls, j);
    }
}

/// Where no slot is empty, `build` succeeds and returns what the slots hold.
proof fn lemma_all_present<V>(state: BuilderStateView<V>)
    requires
        forall|j: int| 0 <= j < state.slots.len() ==> (#[trigger] state.slots[j]).value is Some,
    ensures
        state.missing() is None,
        state.built() is Ok,
        state.built()->Ok_0.len() == state.slots.len(),
        forall|j: int|
            0 <= j < state.slots.len() ==> #[trigger] state.built()->Ok_0[j]
                == state.slots[j].value->Some_0,
{
    lemma_first_sound(state.slots, empty_slots::<V>());
}

/// A plan has one entry per field, in source order, and each entry's setter
/// fits its field.
pub proof fn law_plans_are_consistent(def: RecordDefView, i: int)
    requires
        def.generate() is Ok,
        0 <= i < def.fields().len(),
    ensures
        def.generate()->Ok_0.fields.len() == def.fields().len(),
        def.generate()->Ok_0.fields[i].name == def.fields()[i].ident,
        def.generate()->Ok_0.fields[i].ty == def.fields()[i].ty,
        def.generate()->Ok_0.fields[i].consistent(),
{
    lemma_planned::<int>(def, i);
}

/// Once every plain field was set, `build` succeeds, whatever else was
/// called: it returns one value per field, that which the field's slot holds.
pub proof fn law_build_succeeds_once_plain_fields_are_set<V>(def: RecordDefView, calls: Seq<Call<V>>)
    requires
        def.generate() is Ok,
        forall|j: int|
            0 <= j < def.fields().len() && (#[trigger] def.fields()[j]).typedef() is Plain
                ==> exists|m: int|
                0 <= m < calls.len() && (#[trigger] calls[m]).slot == j && calls[m].arg is One,
    ensures
        factory::<V>(def).run(calls).built() is Ok,
        factory::<V>(def).run(calls).built()->Ok_0.len() == def.fields().len(),
        forall|j: int|
            0 <= j < def.fields().len() ==> #[trigger] factory::<V>(def).run(calls).built()->Ok_0[j]
                == factory::<V>(def).run(calls).slots[j].value->Some_0,
{
    let end = factory::<V>(def).run(calls);
    lemma_run_slot_len(factory::<V>(def), calls);
    assert forall|j: int| 0 <= j < end.slots.len() implies (#[trigger] end.slots[j]).value is Some by {
        lemma_filled(def, calls, j);
    }
    lemma_all_present(end);
}

/// A record whose fields are all plain: however the setters are called, where
/// the last call on each field carries the field's value, `build` yields the
/// values field by field, as if the record had been written out. `last` gives,
/// for each field, the position of the last call on it.
pub proof fn law_plain_record_round_trip<V>(
    def: RecordDefView,
    values: Seq<V>,
    calls: Seq<Call<V>>,
    last: Seq<int>,
)
    requires
        def.generate() is Ok,
        values.len() == def.fields().len(),
        last.len() == def.fields().len(),
        forall|i: int| 0 <= i < def.fields().len() ==> (#[trigger] def.fields()[i]).typedef() is Plain,
        forall|i: int|
            0 <= i < last.len() ==> 0 <= #[trigger] last[i] < calls.len() && calls[last[i]] == (Call {
                slot: i,
                arg: ValueView::One(values[i]),
            }),
        forall|i: int, m: int|
            0 <= i < last.len() && #[trigger] last[i] < m < calls.len() ==> (#[trigger] calls[m]).slot
                != i,
    ensures
        factory::<V>(def).run(calls).built() == Ok::<Seq<ValueView<V>>, Seq<char>>(
            Seq::new(values.len(), |i: int| ValueView::One(values[i])),
        ),
{
    let start = factory::<V>(def);
    let end = start.run(calls);
    let record = Seq::new(values.len(), |i: int| ValueView::One(values[i]));
    lemma_run_slot_len(start, calls);
    assert forall|i: int| 0 <= i < values.len() implies (#[trigger] end.slots[i]).value == Some(
        record[i],
    ) by {
        lemma_slot_after(def, calls, i);
        lemma_planned::<V>(def, i);
        lemma_received_last(start, calls, i, last[i]);
    }
    lemma_all_present(end);
    assert(end.built()->Ok_0 =~= record);
}

/// The same for one call of each field's setter, in source order.
pub proof fn law_plain_record_round_trip_in_order<V>(def: RecordDefView, values: Seq<V>)
    requires
        def.generate() is Ok,
        values.len() == def.fields().len(),
        forall|i: int| 0 <= i < def.fields().len() ==> (#[trigger] def.fields()[i]).typedef() is Plain,
    ensures
        factory::<V>(def).run(
            Seq::new(values.len(), |i: int| Call { slot: i, arg: ValueView::One(values[i]) }),
        ).built() == Ok::<Seq<ValueView<V>>, Seq<char>>(
            Seq::new(values.len(), |i: int| ValueView::One(values[i])),
        ),
{
    let calls = Seq::new(values.len(), |i: int| Call { slot: i, arg: ValueView::One(values[i]) });
    law_plain_record_round_trip(def, values, calls, Seq::new(values.len(), |i: int| i));
}

/// A repeated field without an accumulator name: after the last call of its
/// setter, made with the collection `items`, the slot holds `items`, `build` does
/// not miss the field, and the record that it returns holds `items` in it.
pub proof fn law_repeated_field_holds_what_was_set<V>(
    def: RecordDefView,
    i: int,
    calls: Seq<Call<V>>,
    last: int,
    items: Seq<V>,
)
    requires
        def.generate() is Ok,
        0 <= i < def.fields().len(),
        def.fields()[i].typedef() is Repeated,
        def.fields()[i].get_ident() == Ok::<Option<Seq<char>>, ErrorView>(None),
        0 <= last < calls.len(),
        calls[last] == (Call { slot: i, arg: ValueView::Many(items) }),
        forall|m: int| last < m < calls.len() ==> (#[trigger] calls[m]).slot != i,
    ensures
        factory::<V>(def).run(calls).slots[i].value == Some(ValueView::Many(items)),
        factory::<V>(def).run(calls).missing() != Some(i),
        factory::<V>(def).run(calls).built() matches Ok(record) ==> record[i] == ValueView::Many(
            items,
        ),
{
    let start = factory::<V>(def);
    lemma_slot_after(def, calls, i);
    lemma_received_last(start, calls, i, last);
}

/// A repeated field whose setter or accumulator is never called holds the
/// empty collection: `build` does not miss it.
pub proof fn law_repeated_field_starts_empty<V>(def: RecordDefView, i: int, calls: Seq<Call<V>>)
    requires
        def.generate() is Ok,
        0 <= i < def.fields().len(),
        def.fields()[i].typedef() is Repeated,
        forall|m: int| 0 <= m < calls.len() ==> (#[trigger] calls[m]).slot != i,
    ensures
        factory::<V>(def).run(calls).slots[i].value == Some(ValueView::<V>::Many(Seq::empty())),
        factory::<V>(def).run(calls).missing() != Some(i),
        factory::<V>(def).run(calls).built() matches Ok(record) ==> record[i] == ValueView::<
            V,
        >::Many(Seq::empty()),
{
    let start = factory::<V>(def);
    lemma_slot_after(def, calls, i);
    lemma_received_none(start, calls, i);
}

/// A repeated field with the accumulator name `name`: its setter is called
/// `name`, and after any calls the slot holds the values of the calls that named
/// it, in the order of the calls. `build` does not miss the field, and the record
/// that it returns holds that collection in it.
pub proof fn law_accumulator_collects_in_order<V>(
    def: RecordDefView,
    i: int,
    name: Seq<char>,
    calls: Seq<Call<V>>,
)
    requires
        def.generate() is Ok,
        0 <= i < def.fields().len(),
        def.fields()[i].typedef() is Repeated,
        def.fields()[i].get_ident() == Ok::<Option<Seq<char>>, ErrorView>(Some(name)),
    ensures
        def.generate()->Ok_0.fields[i].setter.name == name,
        factory::<V>(def).run(calls).slots[i].value == Some(ValueView::Many(elements(calls, i))),
        factory::<V>(def).run(calls).missing() != Some(i),
        factory::<V>(def).run(calls).built() matches Ok(record) ==> record[i] == ValueView::Many(
            elements(calls, i),
        ),
{
    let start = factory::<V>(def);
    let got = start.received(calls, i);
    lemma_slot_after(def, calls, i);
    lemma_store_all_push(SlotView::<V>::fresh(def.fields()[i].plan()), Seq::empty(), got);
    lemma_received_elements(start, calls, i);
}

/// The values of `n` calls in a row to one slot are the values that were
/// passed, in order; of no call, none.
pub proof fn law_elements_of_calls_in_a_row<V>(i: int, values: Seq<V>)
    ensures
        elements(Seq::new(values.len(), |k: int| Call { slot: i, arg: ValueView::One(values[k]) }), i)
            == values,
    decreases values.len(),
{
    let calls = Seq::new(values.len(), |k: int| Call { slot: i, arg: ValueView::One(values[k]) });
    if values.len() > 0 {
        let fewer = values.drop_last();
        law_elements_of_calls_in_a_row(i, fewer);
        assert(calls.drop_last() =~= Seq::new(
            fewer.len(),
            |k: int| Call { slot: i, arg: ValueView::One(fewer[k]) },
        ));
    }
}

/// An optional field: after the last call of its setter, made with `value`,
/// the slot holds "present: `value`", `build` does not miss the field, and the
/// record that it returns holds that in it.
pub proof fn law_optional_field_holds_what_was_set<V>(
    def: RecordDefView,
    i: int,
    calls: Seq<Call<V>>,
    last: int,
    value: V,
)
    requires
        def.generate() is Ok,
        0 <= i < def.fields().len(),
        def.fields()[i].typedef() is Optional,
        0 <= last < calls.len(),
        calls[last] == (Call { slot: i, arg: ValueView::One(value) }),
        forall|m: int| last < m < calls.len() ==> (#[trigger] calls[m]).slot != i,
    ensures
        factory::<V>(def).run(calls).slots[i].value == Some(ValueView::Maybe(Some(value))),
        factory::<V>(def).run(calls).missing() != Some(i),
        factory::<V>(def).run(calls).built() matches Ok(record) ==> record[i] == ValueView::Maybe(
            Some(value),
        ),
{
    let start = factory::<V>(def);
    lemma_planned::<V>(def, i);
    lemma_slot_after(def, calls, i);
    lemma_received_last(start, calls, i, last);
}

/// An optional field whose setter is never called holds "absent": `build` does
/// not miss it.
pub proof fn law_optional_field_starts_absent<V>(def: RecordDefView, i: int, calls: Seq<Call<V>>)
    requires
        def.generate() is Ok,
        0 <= i < def.fields().len(),
        def.fields()[i].typedef() is Optional,
        forall|m: int| 0 <= m < calls.len() ==> (#[trigger] calls[m]).slot != i,
    ensures
        factory::<V>(def).run(calls).slots[i].value == Some(ValueView::<V>::Maybe(None)),
        factory::<V>(def).run(calls).missing() != Some(i),
        factory::<V>(def).run(calls).built() matches Ok(record) ==> record[i] == ValueView::<
            V,
        >::Maybe(None),
{
    let start = factory::<V>(def);
    lemma_slot_after(def, calls, i);
    lemma_received_none(start, calls, i);
}

/// A plain field whose setter is never called makes `build` fail. The error
/// names that field where every plain field before it, in source order, was
/// set: the first missing field is the one reported.
pub proof fn law_first_missing_field_is_named<V>(def: RecordDefView, i: int, calls: Seq<Call<V>>)
    requires
        def.generate() is Ok,
        0 <= i < def.fields().len(),
        def.fields()[i].typedef() is Plain,
        forall|m: int| 0 <= m < calls.len() ==> (#[trigger] calls[m]).slot != i,
        forall|j: int|
            0 <= j < i && (#[trigger] def.fields()[j]).typedef() is Plain ==> exists|m: int|
                0 <= m < calls.len() && (#[trigger] calls[m]).slot == j && calls[m].arg is One,
    ensures
        factory::<V>(def).run(calls).built() is Err,
        factory::<V>(def).run(calls).missing() == Some(i),
        factory::<V>(def).run(calls).built() == Err::<Seq<ValueView<V>>, Seq<char>>(
            def.fields()[i].ident,
        ),
{
    let start = factory::<V>(def);
    let end = start.run(calls);
    lemma_slot_after(def, calls, i);
    lemma_received_none(start, calls, i);
    assert forall|j: int| 0 <= j < i implies !empty_slots::<V>()(#[trigger] end.slots[j]) by {
        lemma_filled(def, calls, j);
    }
    lemma_first_is(end.slots, empty_slots::<V>(), i);
}

/// `build` misses plain fields only: the slot of an optional or a repeated
/// field is filled by the factory and stays filled, whatever is called.
pub proof fn law_only_plain_fields_are_missed<V>(def: RecordDefView, calls: Seq<Call<V>>)
    requires
        def.generate() is Ok,
    ensures
        factory::<V>(def).run(calls).missing() matches Some(k) ==> 0 <= k < def.fields().len()
            && def.fields()[k].typedef() is Plain,
{
    let end = factory::<V>(def).run(calls);
    if end.missing() is Some {
        let k = end.missing()->Some_0;
        lemma_run_slot_len(factory::<V>(def), calls);
        if !(def.fields()[k].typedef() is Plain) {
            lemma_never_empty(def, calls, k);
        }
    }
}

/// `build` consumes on success only. After a success every slot is empty, so
/// that a second `build` misses the first field. After a failure the builder is
/// as it was: nothing was taken.
pub proof fn law_build_consumes<V>(state: BuilderStateView<V>)
    ensures
        state.after_build().slots.len() == state.slots.len(),
        state.built() is Ok ==> forall|i: int|
            0 <= i < state.slots.len() ==> (#[trigger] state.after_build().slots[i]).value is None,
        state.built() is Ok && state.slots.len() > 0 ==> state.after_build().built() == Err::<
            Seq<ValueView<V>>,
            Seq<char>,
        >(state.slots[0].plan.name),
        state.built() is Err ==> state.after_build() == state,
{
    if state.built() is Ok && state.slots.len() > 0 {
        lemma_first_is(state.after_build().slots, empty_slots::<V>(), 0);
    }
}

/// A failed `build` can be made good: to set the field that it named and
/// build again gives what it would have given had the field been set before
/// the failed attempt, and leaves the same builder behind.
pub proof fn law_build_can_be_retried<V>(state: BuilderStateView<V>, i: int, arg: ValueView<V>)
    requires
        state.missing() == Some(i),
    ensures
        state.built() == Err::<Seq<ValueView<V>>, Seq<char>>(state.slots[i].plan.name),
        state.after_build().apply(i, arg).built() == state.apply(i, arg).built(),
        state.after_build().apply(i, arg).after_build() == state.apply(i, arg).after_build(),
{
}

/// Where one plain field alone was left out, `build` names it; once it is set,
/// a second `build` succeeds, with the value that was set in that field and
/// every other field as its slot held it before the failed attempt.
pub proof fn law_missing_field_can_be_filled<V>(
    def: RecordDefView,
    calls: Seq<Call<V>>,
    i: int,
    value: V,
)
    requires
        def.generate() is Ok,
        0 <= i < def.fields().len(),
        def.fields()[i].typedef() is Plain,
        forall|m: int| 0 <= m < calls.len() ==> (#[trigger] calls[m]).slot != i,
        forall|j: int|
            0 <= j < def.fields().len() && j != i && (#[trigger] def.fields()[j]).typedef() is Plain
                ==> exists|m: int|
                0 <= m < calls.len() && (#[trigger] calls[m]).slot == j && calls[m].arg is One,
    ensures
        factory::<V>(def).run(calls).built() == Err::<Seq<ValueView<V>>, Seq<char>>(
            def.fields()[i].ident,
        ),
        factory::<V>(def).run(calls).after_build().apply(i, ValueView::One(value)).built() is Ok,
        forall|j: int|
            0 <= j < def.fields().len() ==> #[trigger] factory::<V>(def).run(
                calls,
            ).after_build().apply(i, ValueView::One(value)).built()->Ok_0[j] == if j == i {
                ValueView::One(value)
            } else {
                factory::<V>(def).run(calls).slots[j].value->Some_0
            },
{
    let end = factory::<V>(def).run(calls);
    let again = end.after_build().apply(i, ValueView::One(value));
    law_first_missing_field_is_named(def, i, calls);
    lemma_planned::<V>(def, i);
    lemma_slot_after(def, calls, i);
    assert forall|j: int| 0 <= j < def.fields().len() implies (#[trigger] again.slots[j]).value
        is Some by {
        if j != i {
            lemma_filled(def, calls, j);
        }
    }
    lemma_all_present(again);
}

/// Setter calls compose from left to right: to make `calls` and then `more` is
/// to make the calls of both, in that order.
pub proof fn law_calls_compose<V>(start: BuilderStateView<V>, calls: Seq<Call<V>>, more: Seq<Call<V>>)
    ensures
        start.run(calls + more) == start.run(calls).run(more),
    decreases more.len(),
{
    if more.len() == 0 {
        assert(calls + more =~= calls);
    } else {
        law_calls_compose(start, calls, more.drop_last());
        assert((calls + more).drop_last() =~= calls + more.drop_last());
    }
}

/// A call by name reaches the slot whose setter has that name, where no
/// earlier setter has it too.
pub proof fn law_call_by_name_reaches_the_setter<V>(
    state: BuilderStateView<V>,
    i: int,
    arg: ValueView<V>,
)
    requires
        0 <= i < state.slots.len(),
        forall|j: int|
            0 <= j < i ==> (#[trigger] state.slots[j]).plan.setter.name
                != state.slots[i].plan.setter.name,
    ensures
        state.setter(state.slots[i].plan.setter.name) == Some(i),
        state.call(state.slots[i].plan.setter.name, arg) == state.apply(i, arg),
{
    lemma_first_is(state.slots, setters_named::<V>(state.slots[i].plan.setter.name), i);
}

/// A field whose directive is not well formed makes planning fail with a
/// directive error, whatever the other fields are: no declaration is planned.
pub proof fn law_malformed_directive_fails(def: RecordDefView, i: int)
    requires
        def.unsupported() is None,
        0 <= i < def.fields().len(),
        def.fields()[i].get_ident() is Err,
    ensures
        def.generate() matches Err(e) && e is DirectiveSyntax,
{
    lemma_first_sound(def.fields(), failing_fields());
}

/// A directive with an item whose key is not `each` is not well formed: the
/// field's directive is in error, at the directive's position.
pub proof fn law_unrecognised_key_is_an_error(field: FieldView, at: int, k: int)
    requires
        field.directive() == Some(at),
        field.attrs[at].items matches Some(items) && 0 <= k < items.len() && items[k].key()
            != "each"@,
    ensures
        field.get_ident() == Err::<Option<Seq<char>>, ErrorView>(
            ErrorView::DirectiveSyntax { field: field.ident, attr: at },
        ),
{
}

} // verus!
