//! What the generated builder does when it runs: its slots, its setters and
//! `build`, as operations on values.

use crate::field::Assign;
use crate::first::{first, lemma_first_is};
use crate::record::{BuilderCode, FieldPlan, FieldPlanView};
use crate::text::reads;
use crate::type_expr::{Initial, Shape};
use crate::views::view_all;
use vstd::prelude::*;
use vstd::string::*;

verus! {

/// The value of one field, or the argument of one setter call. A plain field
/// holds `One`, an optional field `Maybe` and a repeated field `Many`.
#[derive(Debug, PartialEq, Eq)]
pub enum Value<V> {
    One(V),
    Maybe(Option<V>),
    Many(Vec<V>),
}

/// `build` found the slot of `field` empty.
#[derive(Debug, PartialEq, Eq)]
pub struct MissingField {
    pub field: String,
}

/// One slot of a builder: what was planned for the field, and the slot's
/// content.
pub struct Slot<'a, V> {
    plan: &'a FieldPlan,
    value: Option<Value<V>>,
}

/// A builder at run time: one slot per field, in source order. The factory
/// fills the slot of every optional and of every repeated field, and no setter
/// empties a slot: until `build` takes them, only the slots of plain fields can
/// be empty, so only a plain field can be reported as missing.
pub struct BuilderState<'a, V> {
    slots: Vec<Slot<'a, V>>,
}

/// Mathematical model of [`Value`].
pub enum ValueView<V> {
    One(V),
    Maybe(Option<V>),
    Many(Seq<V>),
}

/// Mathematical model of [`Slot`].
pub struct SlotView<V> {
    pub plan: FieldPlanView,
    pub value: Option<ValueView<V>>,
}

/// Mathematical model of [`BuilderState`].
pub struct BuilderStateView<V> {
    pub slots: Seq<SlotView<V>>,
}

/// One call of a setter: the position of its slot, and the argument.
pub struct Call<V> {
    pub slot: int,
    pub arg: ValueView<V>,
}

impl<V> View for Value<V> {
    type V = ValueView<V>;

    open spec fn view(&self) -> ValueView<V> {
        match self {
            Value::One(v) => ValueView::One(*v),
            Value::Maybe(v) => ValueView::Maybe(*v),
            Value::Many(items) => ValueView::Many(items@),
        }
    }
}

impl View for MissingField {
    type V = Seq<char>;

    open spec fn view(&self) -> Seq<char> {
        self.field@
    }
}

impl<'a, V> View for Slot<'a, V> {
    type V = SlotView<V>;

    closed spec fn view(&self) -> SlotView<V> {
        SlotView {
            plan: self.plan@,
            value: match self.value {
                Some(v) => Some(v@),
                None => None,
            },
        }
    }
}

impl<'a, V> View for BuilderState<'a, V> {
    type V = BuilderStateView<V>;

    closed spec fn view(&self) -> BuilderStateView<V> {
        BuilderStateView { slots: view_all(self.slots@) }
    }
}

/// The slots whose setter is called `method`.
pub open spec fn setters_named<V>(method: Seq<char>) -> spec_fn(SlotView<V>) -> bool {
    |s: SlotView<V>| s.plan.setter.name == method
}

/// The slots that are empty.
pub open spec fn empty_slots<V>() -> spec_fn(SlotView<V>) -> bool {
    |s: SlotView<V>| s.value is None
}

impl<V> ValueView<V> {
    /// The shape of field that holds such a value.
    pub open spec fn shape(self) -> Shape {
        match self {
            ValueView::One(_) => Shape::Plain,
            ValueView::Maybe(_) => Shape::Optional,
            ValueView::Many(_) => Shape::Repeated,
        }
    }
}

impl<V> SlotView<V> {
    /// The slot as the factory leaves it: a plain field's slot is empty, an
    /// optional field's holds "no value", a repeated field's an empty collection.
    pub open spec fn fresh(plan: FieldPlanView) -> SlotView<V> {
        SlotView {
            plan,
            value: match plan.shape.initial_content() {
                Initial::Missing => None,
                Initial::Absent => Some(ValueView::Maybe(None)),
                Initial::Empty => Some(ValueView::Many(Seq::empty())),
            },
        }
    }

    /// Whether `arg` is of the type that the slot's setter takes: a value of
    /// the field's own shape where the setter replaces, one value where it wraps
    /// or appends.
    pub open spec fn accepts(self, arg: ValueView<V>) -> bool {
        match self.plan.setter.assign {
            Assign::Replace => arg.shape() == self.plan.shape,
            Assign::WrapSome => arg is One,
            Assign::Push => arg is One,
        }
    }

    /// The slot after its setter ran on an argument that it accepts.
    pub open spec fn store(self, arg: ValueView<V>) -> SlotView<V> {
        let value = match self.plan.setter.assign {
            Assign::Replace => Some(arg),
            Assign::WrapSome => Some(ValueView::Maybe(Some(arg->One_0))),
            Assign::Push => match self.value {
                Some(ValueView::Many(items)) => Some(ValueView::Many(items.push(arg->One_0))),
                other => other,
            },
        };
        SlotView { plan: self.plan, value }
    }

    /// The slot after `build` took its content.
    pub open spec fn taken(self) -> SlotView<V> {
        SlotView { plan: self.plan, value: None }
    }
}

impl<V> BuilderStateView<V> {
    /// The builder that the factory returns.
    pub open spec fn fresh(fields: Seq<FieldPlanView>) -> BuilderStateView<V> {
        BuilderStateView { slots: Seq::new(fields.len(), |i: int| SlotView::fresh(fields[i])) }
    }

    /// Whether slot `i` exists and its setter takes `arg`.
    pub open spec fn accepts(self, i: int, arg: ValueView<V>) -> bool {
        0 <= i < self.slots.len() && self.slots[i].accepts(arg)
    }

    /// The builder after the setter of slot `i` was called with `arg`. A call
    /// that is not accepted changes nothing.
    pub open spec fn apply(self, i: int, arg: ValueView<V>) -> BuilderStateView<V> {
        if self.accepts(i, arg) {
            BuilderStateView { slots: self.slots.update(i, self.slots[i].store(arg)) }
        } else {
            self
        }
    }

    /// The builder after `calls` were made on it, one after the other.
    pub open spec fn run(self, calls: Seq<Call<V>>) -> BuilderStateView<V>
        decreases calls.len(),
    {
        if calls.len() == 0 {
            self
        } else {
            self.run(calls.drop_last()).apply(calls.last().slot, calls.last().arg)
        }
    }

    /// The first slot whose setter is called `method`.
    pub open spec fn setter(self, method: Seq<char>) -> Option<int> {
        first(self.slots, setters_named(method))
    }

    /// The builder after the setter `method` was called with `arg`. A call of a
    /// name that no setter has changes nothing.
    pub open spec fn call(self, method: Seq<char>, arg: ValueView<V>) -> BuilderStateView<V> {
        match self.setter(method) {
            Some(i) => self.apply(i, arg),
            None => self,
        }
    }

    /// The first empty slot, in source order.
    pub open spec fn missing(self) -> Option<int> {
        first(self.slots, empty_slots())
    }

    /// The builder after `build` took the content of every slot.
    pub open spec fn spent(self) -> BuilderStateView<V> {
        BuilderStateView { slots: Seq::new(self.slots.len(), |i: int| self.slots[i].taken()) }
    }

    /// What `build` returns: the content of all slots in order, or the name of
    /// the field of the first empty slot.
    pub open spec fn built(self) -> Result<Seq<ValueView<V>>, Seq<char>> {
        match self.missing() {
            Some(k) => Err(self.slots[k].plan.name),
            None => Ok(Seq::new(self.slots.len(), |i: int| self.slots[i].value->Some_0)),
        }
    }

    /// The builder that `build` leaves behind: as it was where a slot is
    /// empty, so that the field can be set and `build` tried again; with every
    /// slot spent where none is.
    pub open spec fn after_build(self) -> BuilderStateView<V> {
        match self.missing() {
            Some(_) => self,
            None => self.spent(),
        }
    }
}

impl MissingField {
    /// The text shown to the user.
    pub fn message(&self) -> (text: String)
        ensures
            text@ == "`"@ + self@ + "` is required"@,
    {
        String::from_str("`").concat(self.field.as_str()).concat("` is required")
    }
}

impl<V> Value<V> {
    /// The shape of field that holds such a value.
    pub fn shape(&self) -> (shape: Shape)
        ensures
            shape == self@.shape(),
    {
        match self {
            Value::One(_) => Shape::Plain,
            Value::Maybe(_) => Shape::Optional,
            Value::Many(_) => Shape::Repeated,
        }
    }
}

impl<'a, V> Slot<'a, V> {
    fn fresh(plan: &'a FieldPlan) -> (slot: Self)
        ensures
            slot@ == SlotView::<V>::fresh(plan@),
    {
        let value = match plan.shape.initial() {
            Initial::Missing => None,
            Initial::Absent => Some(Value::Maybe(None)),
            Initial::Empty => Some(Value::Many(Vec::new())),
        };
        Slot { plan, value }
    }

    fn accepts(&self, arg: &Value<V>) -> (yes: bool)
        ensures
            yes == self@.accepts(arg@),
    {
        match self.plan.setter.assign {
            Assign::Replace => arg.shape() == self.plan.shape,
            Assign::WrapSome => arg.shape() == Shape::Plain,
            Assign::Push => arg.shape() == Shape::Plain,
        }
    }

    fn store(&mut self, arg: Value<V>)
        requires
            old(self)@.accepts(arg@),
        ensures
            final(self)@ == old(self)@.store(arg@),
    {
        match self.plan.setter.assign {
            Assign::Replace => {
                self.value = Some(arg);
            },
            Assign::WrapSome => {
                if let Value::One(v) = arg {
                    self.value = Some(Value::Maybe(Some(v)));
                }
            },
            Assign::Push => {
                if let Value::One(v) = arg {
                    if let Some(Value::Many(items)) = &mut self.value {
                        items.push(v);
                    }
                }
            },
        }
    }
}

impl<'a, V> BuilderState<'a, V> {
    /// The factory: a builder whose slots hold their initial content. The slot
    /// of a repeated field holds an empty collection, that of an optional field
    /// "no value", and that of a plain field is empty.
    pub fn new(code: &'a BuilderCode) -> (state: Self)
        ensures
            state@ == BuilderStateView::<V>::fresh(code@.fields),
    {
        let mut slots: Vec<Slot<'a, V>> = Vec::new();
        let mut i: usize = 0;
        while i < code.fields.len()
            invariant
                i <= code.fields.len(),
                slots.len() == i,
                forall|j: int| 0 <= j < i ==> (#[trigger] slots[j])@ == SlotView::<V>::fresh(code@.fields[j]),
            decreases code.fields.len() - i,
        {
            slots.push(Slot::fresh(&code.fields[i]));
            i += 1;
        }
        let state = BuilderState { slots };
        assert(state@.slots =~= BuilderStateView::<V>::fresh(code@.fields).slots);
        state
    }

    /// The number of slots.
    pub fn len(&self) -> (n: usize)
        ensures
            n == self@.slots.len(),
    {
        self.slots.len()
    }

    /// The content of slot `i`, if the slot exists and is not empty.
    pub fn value(&self, i: usize) -> (value: Option<&Value<V>>)
        ensures
            match value {
                Some(v) => i < self@.slots.len() && self@.slots[i as int].value == Some(v@),
                None => i >= self@.slots.len() || self@.slots[i as int].value is None,
            },
    {
        if i < self.slots.len() {
            self.slots[i].value.as_ref()
        } else {
            None
        }
    }

    /// The position of the first slot whose setter is called `method`.
    pub fn setter(&self, method: &str) -> (found: Option<usize>)
        ensures
            match found {
                Some(i) => self@.setter(method@) == Some(i as int),
                None => self@.setter(method@) is None,
            },
    {
        let ghost slots = self@.slots;
        let mut i: usize = 0;
        while i < self.slots.len()
            invariant
                i <= self.slots.len(),
                slots == self@.slots,
                forall|j: int| 0 <= j < i ==> !setters_named::<V>(method@)(#[trigger] slots[j]),
            decreases self.slots.len() - i,
        {
            if reads(self.slots[i].plan.setter.name.as_str(), method) {
                proof {
                    lemma_first_is(slots, setters_named::<V>(method@), i as int);
                }
                return Some(i);
            }
            i += 1;
        }
        None
    }

    /// Whether slot `i` exists and its setter takes `arg`.
    pub fn accepts(&self, i: usize, arg: &Value<V>) -> (yes: bool)
        ensures
            yes == self@.accepts(i as int, arg@),
    {
        i < self.slots.len() && self.slots[i].accepts(arg)
    }

    /// Calls the setter of slot `i` with `arg` and returns the builder, for the
    /// next call. A call that is not accepted changes nothing.
    pub fn apply(&mut self, i: usize, arg: Value<V>) -> (this: &mut Self)
        ensures
            this@ == old(self)@.apply(i as int, arg@),
            *final(self) == *final(this),
    {
        if i < self.slots.len() && self.slots[i].accepts(&arg) {
            self.slots[i].store(arg);
            assert(self@.slots =~= old(self)@.apply(i as int, arg@).slots);
        }
        self
    }

    /// Calls the setter `method` with `arg` and returns the builder, for the
    /// next call. A call of a name that no setter has, or with an argument that
    /// the setter does not take, changes nothing.
    pub fn call(&mut self, method: &str, arg: Value<V>) -> (this: &mut Self)
        ensures
            this@ == old(self)@.call(method@, arg@),
            *final(self) == *final(this),
    {
        match self.setter(method) {
            Some(i) => self.apply(i, arg),
            None => self,
        }
    }

    /// Assembles the record. Where a slot is empty, the field of the first
    /// empty slot in source order is named and nothing is taken: the builder is
    /// as it was, and `build` can be tried again once the field is set. Where
    /// none is empty, the content of every slot is moved out, in source order,
    /// into the record's field values, and every slot is left spent: a second
    /// `build` then misses the first field.
    pub fn build(&mut self) -> (result: Result<Vec<Value<V>>, MissingField>)
        ensures
            final(self)@ == old(self)@.after_build(),
            match result {
                Ok(record) => old(self)@.built() == Ok::<Seq<ValueView<V>>, Seq<char>>(
                    view_all(record@),
                ),
                Err(e) => old(self)@.built() == Err::<Seq<ValueView<V>>, Seq<char>>(e@),
            },
    {
        let ghost before = self@;
        let mut k: usize = 0;
        while k < self.slots.len()
            invariant
                k <= self.slots.len(),
                self@ == before,
                forall|j: int| 0 <= j < k ==> !empty_slots::<V>()(#[trigger] before.slots[j]),
            decreases self.slots.len() - k,
        {
            if self.slots[k].value.is_none() {
                proof {
                    lemma_first_is(before.slots, empty_slots::<V>(), k as int);
                }
                return Err(MissingField { field: self.slots[k].plan.name.clone() });
            }
            k += 1;
        }
        let mut record: Vec<Value<V>> = Vec::new();
        let mut i: usize = 0;
        while i < self.slots.len()
            invariant
                i <= self.slots.len(),
                self.slots.len() == before.slots.len(),
                record.len() == i,
                forall|j: int| 0 <= j < before.slots.len() ==> (#[trigger] before.slots[j]).value is Some,
                forall|j: int|
                    0 <= j < before.slots.len() ==> #[trigger] self@.slots[j] == if j < i {
                        before.slots[j].taken()
                    } else {
                        before.slots[j]
                    },
                forall|j: int| 0 <= j < i ==> (#[trigger] record[j])@ == before.slots[j].value->Some_0,
            decreases self.slots.len() - i,
        {
            let ghost entry = self@;
            assert(entry.slots[i as int] == self.slots[i as int]@);
            let value = self.slots[i].value.take().unwrap();
            record.push(value);
            assert forall|j: int| 0 <= j < before.slots.len() implies #[trigger] self@.slots[j]
                == if j < i + 1 {
                before.slots[j].taken()
            } else {
                before.slots[j]
            } by {
                assert(entry.slots[j] == if j < i {
                    before.slots[j].taken()
                } else {
                    before.slots[j]
                });
            }
            i += 1;
        }
        assert(self@.slots =~= before.spent().slots);
        assert(view_all(record@) =~= before.built()->Ok_0);
        Ok(record)
    }
}

} // verus!
