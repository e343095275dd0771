//! The state side of a form binding: how a model value creates its
//! parallel field state, and the detached mutable handles that edit the
//! two in step.

use core::marker::PhantomData;

use vstd::prelude::*;
use vstd::string::*;

use crate::field::{spec_field_new, spec_set_value, Field};
use crate::form_value::{FormValue, FormValueState, ValueWrapper};
use crate::model::ModelRelation;

verus! {

/// A model type that carries a parallel state type: one field per bound
/// control, in the same shape as the model.
pub trait StateProvider: Sized {
    /// The state that tracks this model: a [`Field`] for a single value,
    /// a parallel collection for a collection.
    type State;

    /// The detached handle that edits a model value and its state in step.
    type StateMut: StateMut<Self, Self::State>;

    /// Whether `s` is the state that freshly tracking this value creates.
    spec fn state_matches(&self, s: Self::State) -> bool;

    /// A fresh state for this value: clean, valid fields holding the
    /// value's notation.
    fn create_state(&self) -> (s: Self::State)
        ensures
            self.state_matches(s),
    ;

    /// Binds a model value and its state into one mutable handle.
    fn create_state_mut(model: Self, state: Self::State) -> (m: Self::StateMut)
        ensures
            m.model_spec() == model,
            m.state_spec() == state,
    ;
}

/// A detached handle holding a model value of type `T` and its state of
/// type `S`; splitting it hands both back.
pub trait StateMut<T, S>: Sized {
    /// The model value held.
    spec fn model_spec(&self) -> T;

    /// The state held.
    spec fn state_spec(&self) -> S;

    /// Hands the model value and the state back.
    fn split(self) -> (r: (T, S))
        ensures
            r.0 == self.model_spec(),
            r.1 == self.state_spec(),
    ;
}

/// A handle whose state is a single [`Field`], and which can therefore
/// take a new text from a control: the text is parsed into the model and
/// stored in the field.
pub trait ValueStateMut<T>: StateMut<T, Field> {
    /// The texts that `set` takes.
    spec fn set_allowed(s: Seq<char>) -> bool;

    /// How `set` changes the handle.
    spec fn set_spec(pre: Self, s: Seq<char>, post: Self) -> bool;

    /// Takes the text `value` from a control.
    fn set(&mut self, value: &str)
        requires
            Self::set_allowed(value@),
        ensures
            Self::set_spec(*old(self), value@, *final(self)),
    ;
}

impl<T: FormValue> StateMut<T, Field> for FormValueState<T> {
    open spec fn model_spec(&self) -> T {
        self.value
    }

    open spec fn state_spec(&self) -> Field {
        self.field
    }

    fn split(self) -> (r: (T, Field)) {
        (self.value, self.field)
    }
}

impl<T: FormValue> ValueStateMut<T> for FormValueState<T> {
    open spec fn set_allowed(s: Seq<char>) -> bool {
        T::parses(s)
    }

    open spec fn set_spec(pre: Self, s: Seq<char>, post: Self) -> bool {
        T::parsed_as(s, post.value) && spec_set_value(pre.field@, s, post.field@)
    }

    fn set(&mut self, value: &str) {
        FormValueState::set(self, value);
    }
}

impl StateProvider for u8 {
    type State = Field;

    type StateMut = FormValueState<u8>;

    /// The state of a plain value is one fresh field holding its notation.
    open spec fn state_matches(&self, s: Field) -> bool {
        s@ == spec_field_new(self.value_spec())
    }

    fn create_state(&self) -> (s: Field) {
        Field::new(self.value().as_str())
    }

    fn create_state_mut(model: Self, state: Field) -> (m: FormValueState<u8>) {
        FormValueState { value: model, field: state }
    }
}

impl StateProvider for u16 {
    type State = Field;

    type StateMut = FormValueState<u16>;

    /// The state of a plain value is one fresh field holding its notation.
    open spec fn state_matches(&self, s: Field) -> bool {
        s@ == spec_field_new(self.value_spec())
    }

    fn create_state(&self) -> (s: Field) {
        Field::new(self.value().as_str())
    }

    fn create_state_mut(model: Self, state: Field) -> (m: FormValueState<u16>) {
        FormValueState { value: model, field: state }
    }
}

impl StateProvider for u32 {
    type State = Field;

    type StateMut = FormValueState<u32>;

    /// The state of a plain value is one fresh field holding its notation.
    open spec fn state_matches(&self, s: Field) -> bool {
        s@ == spec_field_new(self.value_spec())
    }

    fn create_state(&self) -> (s: Field) {
        Field::new(self.value().as_str())
    }

    fn create_state_mut(model: Self, state: Field) -> (m: FormValueState<u32>) {
        FormValueState { value: model, field: state }
    }
}

impl StateProvider for u64 {
    type State = Field;

    type StateMut = FormValueState<u64>;

    /// The state of a plain value is one fresh field holding its notation.
    open spec fn state_matches(&self, s: Field) -> bool {
        s@ == spec_field_new(self.value_spec())
    }

    fn create_state(&self) -> (s: Field) {
        Field::new(self.value().as_str())
    }

    fn create_state_mut(model: Self, state: Field) -> (m: FormValueState<u64>) {
        FormValueState { value: model, field: state }
    }
}

impl StateProvider for u128 {
    type State = Field;

    type StateMut = FormValueState<u128>;

    /// The state of a plain value is one fresh field holding its notation.
    open spec fn state_matches(&self, s: Field) -> bool {
        s@ == spec_field_new(self.value_spec())
    }

    fn create_state(&self) -> (s: Field) {
        Field::new(self.value().as_str())
    }

    fn create_state_mut(model: Self, state: Field) -> (m: FormValueState<u128>) {
        FormValueState { value: model, field: state }
    }
}

impl StateProvider for usize {
    type State = Field;

    type StateMut = FormValueState<usize>;

    /// The state of a plain value is one fresh field holding its notation.
    open spec fn state_matches(&self, s: Field) -> bool {
        s@ == spec_field_new(self.value_spec())
    }

    fn create_state(&self) -> (s: Field) {
        Field::new(self.value().as_str())
    }

    fn create_state_mut(model: Self, state: Field) -> (m: FormValueState<usize>) {
        FormValueState { value: model, field: state }
    }
}

impl StateProvider for i8 {
    type State = Field;

    type StateMut = FormValueState<i8>;

    /// The state of a plain value is one fresh field holding its notation.
    open spec fn state_matches(&self, s: Field) -> bool {
        s@ == spec_field_new(self.value_spec())
    }

    fn create_state(&self) -> (s: Field) {
        Field::new(self.value().as_str())
    }

    fn create_state_mut(model: Self, state: Field) -> (m: FormValueState<i8>) {
        FormValueState { value: model, field: state }
    }
}

impl StateProvider for i16 {
    type State = Field;

    type StateMut = FormValueState<i16>;

    /// The state of a plain value is one fresh field holding its notation.
    open spec fn state_matches(&self, s: Field) -> bool {
        s@ == spec_field_new(self.value_spec())
    }

    fn create_state(&self) -> (s: Field) {
        Field::new(self.value().as_str())
    }

    fn create_state_mut(model: Self, state: Field) -> (m: FormValueState<i16>) {
        FormValueState { value: model, field: state }
    }
}

impl StateProvider for i32 {
    type State = Field;

    type StateMut = FormValueState<i32>;

    /// The state of a plain value is one fresh field holding its notation.
    open spec fn state_matches(&self, s: Field) -> bool {
        s@ == spec_field_new(self.value_spec())
    }

    fn create_state(&self) -> (s: Field) {
        Field::new(self.value().as_str())
    }

    fn create_state_mut(model: Self, state: Field) -> (m: FormValueState<i32>) {
        FormValueState { value: model, field: state }
    }
}

impl StateProvider for i64 {
    type State = Field;

    type StateMut = FormValueState<i64>;

    /// The state of a plain value is one fresh field holding its notation.
    open spec fn state_matches(&self, s: Field) -> bool {
        s@ == spec_field_new(self.value_spec())
    }

    fn create_state(&self) -> (s: Field) {
        Field::new(self.value().as_str())
    }

    fn create_state_mut(model: Self, state: Field) -> (m: FormValueState<i64>) {
        FormValueState { value: model, field: state }
    }
}

impl StateProvider for i128 {
    type State = Field;

    type StateMut = FormValueState<i128>;

    /// The state of a plain value is one fresh field holding its notation.
    open spec fn state_matches(&self, s: Field) -> bool {
        s@ == spec_field_new(self.value_spec())
    }

    fn create_state(&self) -> (s: Field) {
        Field::new(self.value().as_str())
    }

    fn create_state_mut(model: Self, state: Field) -> (m: FormValueState<i128>) {
        FormValueState { value: model, field: state }
    }
}

impl StateProvider for isize {
    type State = Field;

    type StateMut = FormValueState<isize>;

    /// The state of a plain value is one fresh field holding its notation.
    open spec fn state_matches(&self, s: Field) -> bool {
        s@ == spec_field_new(self.value_spec())
    }

    fn create_state(&self) -> (s: Field) {
        Field::new(self.value().as_str())
    }

    fn create_state_mut(model: Self, state: Field) -> (m: FormValueState<isize>) {
        FormValueState { value: model, field: state }
    }
}

impl StateProvider for bool {
    type State = Field;

    type StateMut = FormValueState<bool>;

    /// The state of a plain value is one fresh field holding its notation.
    open spec fn state_matches(&self, s: Field) -> bool {
        s@ == spec_field_new(self.value_spec())
    }

    fn create_state(&self) -> (s: Field) {
        Field::new(self.value().as_str())
    }

    fn create_state_mut(model: Self, state: Field) -> (m: FormValueState<bool>) {
        FormValueState { value: model, field: state }
    }
}

impl StateProvider for char {
    type State = Field;

    type StateMut = FormValueState<char>;

    /// The state of a plain value is one fresh field holding its notation.
    open spec fn state_matches(&self, s: Field) -> bool {
        s@ == spec_field_new(self.value_spec())
    }

    fn create_state(&self) -> (s: Field) {
        Field::new(self.value().as_str())
    }

    fn create_state_mut(model: Self, state: Field) -> (m: FormValueState<char>) {
        FormValueState { value: model, field: state }
    }
}

impl StateProvider for String {
    type State = Field;

    type StateMut = FormValueState<String>;

    /// The state of a plain value is one fresh field holding its notation.
    open spec fn state_matches(&self, s: Field) -> bool {
        s@ == spec_field_new(self.value_spec())
    }

    fn create_state(&self) -> (s: Field) {
        Field::new(self.value().as_str())
    }

    fn create_state_mut(model: Self, state: Field) -> (m: FormValueState<String>) {
        FormValueState { value: model, field: state }
    }
}

/// The detached handle onto a list binding: the model elements beside
/// their per-element states, kept in step element by element.
pub struct ListMut<T: StateProvider> {
    pub values: Vec<T>,
    pub states: Vec<T::State>,
}

impl<T: StateProvider> ListMut<T> {
    /// Appends an element together with a fresh state for it.
    pub fn push(&mut self, element: T)
        ensures
            final(self).values@ == old(self).values@.push(element),
            final(self).states@.len() == old(self).states@.len() + 1,
            final(self).states@.drop_last() == old(self).states@,
            element.state_matches(final(self).states@.last()),
    {
        self.states.push(element.create_state());
        self.values.push(element);
        proof {
            assert(final(self).states@.drop_last() =~= old(self).states@);
        }
    }

    /// Inserts an element, and a fresh state for it, at `index` of both
    /// lists.
    pub fn insert(&mut self, index: usize, element: T)
        requires
            index <= old(self).values@.len(),
            index <= old(self).states@.len(),
        ensures
            final(self).values@ == old(self).values@.insert(index as int, element),
            final(self).states@.len() == old(self).states@.len() + 1,
            final(self).states@ == old(self).states@.insert(
                index as int,
                final(self).states@[index as int],
            ),
            element.state_matches(final(self).states@[index as int]),
    {
        self.states.insert(index, element.create_state());
        self.values.insert(index, element);
    }

    /// Removes the element at `index` of both lists and returns it; its
    /// state is dropped.
    pub fn remove(&mut self, index: usize) -> (r: T)
        requires
            index < old(self).values@.len(),
            index < old(self).states@.len(),
        ensures
            r == old(self).values@[index as int],
            final(self).values@ == old(self).values@.remove(index as int),
            final(self).states@ == old(self).states@.remove(index as int),
    {
        self.states.remove(index);
        self.values.remove(index)
    }
}

impl<T: StateProvider> StateMut<Vec<T>, Vec<T::State>> for ListMut<T> {
    open spec fn model_spec(&self) -> Vec<T> {
        self.values
    }

    open spec fn state_spec(&self) -> Vec<T::State> {
        self.states
    }

    fn split(self) -> (r: (Vec<T>, Vec<T::State>)) {
        (self.values, self.states)
    }
}

impl<T: StateProvider> StateProvider for Vec<T> {
    type State = Vec<T::State>;

    type StateMut = ListMut<T>;

    /// The state of a list tracks it element by element.
    open spec fn state_matches(&self, s: Vec<T::State>) -> bool {
        s@.len() == self@.len() && forall|i: int|
            0 <= i < self@.len() ==> #[trigger] self@[i].state_matches(s@[i])
    }

    fn create_state(&self) -> (s: Vec<T::State>) {
        let mut s: Vec<T::State> = Vec::new();
        let mut i: usize = 0;
        while i < self.len()
            invariant
                i <= self@.len(),
                s@.len() == i,
                forall|j: int| 0 <= j < i ==> #[trigger] self@[j].state_matches(s@[j]),
            decreases self@.len() - i,
        {
            s.push(self[i].create_state());
            i += 1;
        }
        s
    }

    fn create_state_mut(model: Self, state: Vec<T::State>) -> (m: ListMut<T>) {
        ListMut { values: model, states: state }
    }
}

/// The detached handle onto an optional value's binding: the optional
/// model beside the one field that edits it. An emptied control clears
/// the model; any other text is parsed into it.
pub struct OptionStateMut<T: FormValue> {
    pub model: Option<T>,
    pub state: Field,
}

impl<T: FormValue> StateMut<Option<T>, Field> for OptionStateMut<T> {
    open spec fn model_spec(&self) -> Option<T> {
        self.model
    }

    open spec fn state_spec(&self) -> Field {
        self.state
    }

    fn split(self) -> (r: (Option<T>, Field)) {
        (self.model, self.state)
    }
}

impl<T: FormValue> ValueStateMut<Option<T>> for OptionStateMut<T> {
    open spec fn set_allowed(s: Seq<char>) -> bool {
        <Option<T> as FormValue>::parses(s)
    }

    open spec fn set_spec(pre: Self, s: Seq<char>, post: Self) -> bool {
        <Option<T> as FormValue>::parsed_as(s, post.model) && spec_set_value(
            pre.state@,
            s,
            post.state@,
        )
    }

    fn set(&mut self, value: &str) {
        if value.unicode_len() == 0 {
            self.model = None;
        } else {
            self.model = Some(T::from_value(value));
        }
        self.state.set_value(value);
    }
}

impl<T: FormValue> StateProvider for Option<T> {
    type State = Field;

    type StateMut = OptionStateMut<T>;

    /// The state of an optional value is one fresh field holding its
    /// notation: empty when absent.
    open spec fn state_matches(&self, s: Field) -> bool {
        s@ == spec_field_new(self.value_spec())
    }

    fn create_state(&self) -> (s: Field) {
        Field::new(self.value().as_str())
    }

    fn create_state_mut(model: Self, state: Field) -> (m: OptionStateMut<T>) {
        OptionStateMut { model, state }
    }
}

impl<T: FormValue> StateProvider for ValueWrapper<T> {
    type State = Field;

    type StateMut = FormValueState<ValueWrapper<T>>;

    /// The state of a wrapped value is one fresh field holding its
    /// notation.
    open spec fn state_matches(&self, s: Field) -> bool {
        s@ == spec_field_new(self.value_spec())
    }

    fn create_state(&self) -> (s: Field) {
        Field::new(self.value().as_str())
    }

    fn create_state_mut(model: Self, state: Field) -> (m: FormValueState<ValueWrapper<T>>) {
        FormValueState { value: model, field: state }
    }
}

/// A form state that owns its model and state: the root that scoped
/// handles reach into.
pub struct OwnedFormState<T: StateProvider> {
    pub model: T,
    pub state: T::State,
}

impl<T: StateProvider> OwnedFormState<T> {
    /// Begins tracking `model` under a fresh state.
    pub fn new(model: T) -> (f: Self)
        ensures
            f.model == model,
            model.state_matches(f.state),
    {
        let state = model.create_state();
        OwnedFormState { model, state }
    }

    /// The model tracked.
    pub fn model(&self) -> (r: &T)
        ensures
            *r == self.model,
    {
        &self.model
    }

    /// The state of the model.
    pub fn state(&self) -> (r: &T::State)
        ensures
            *r == self.state,
    {
        &self.state
    }

    /// Binds the model and its state into one mutable handle; splitting
    /// the handle hands them back.
    pub fn state_mut(self) -> (m: T::StateMut)
        ensures
            m.model_spec() == self.model,
            m.state_spec() == self.state,
    {
        T::create_state_mut(self.model, self.state)
    }
}

/// A scoped form state: it reaches, through a [`ModelRelation`], the part
/// of a parent form state that one relation selects, for reading and for
/// replacing.
pub struct RefFormState<P: StateProvider, C: StateProvider, R: ModelRelation<P, C>> {
    pub relation: R,
    pub phantom: PhantomData<(P, C)>,
}

impl<P: StateProvider, C: StateProvider, R: ModelRelation<P, C>> RefFormState<P, C, R> {
    /// A scoped handle for the part that `relation` selects.
    pub fn new(relation: R) -> (f: Self)
        ensures
            f.relation == relation,
    {
        RefFormState { relation, phantom: PhantomData }
    }

    /// The selected part of the parent's model.
    pub fn model<'a>(&self, parent: &'a OwnedFormState<P>) -> (c: &'a C)
        ensures
            *c == self.relation.spec_model(parent.model),
    {
        self.relation.relation_model(&parent.model)
    }

    /// The selected part of the parent's state.
    pub fn state<'a>(&self, parent: &'a OwnedFormState<P>) -> (c: &'a C::State)
        ensures
            *c == self.relation.spec_state(parent.state),
    {
        self.relation.relation_state(&parent.state)
    }

    /// Replaces the selected part of the parent's model; the state is
    /// untouched.
    pub fn set_model(&self, parent: &mut OwnedFormState<P>, child: C)
        ensures
            final(parent).model == self.relation.spec_update_model(old(parent).model, child),
            final(parent).state == old(parent).state,
    {
        let slot = self.relation.relation_model_mut(&mut parent.model);
        *slot = child;
    }

    /// Replaces the selected part of the parent's state; the model is
    /// untouched.
    pub fn set_state(&self, parent: &mut OwnedFormState<P>, child: C::State)
        ensures
            final(parent).state == self.relation.spec_update_state(old(parent).state, child),
            final(parent).model == old(parent).model,
    {
        let slot = self.relation.relation_state_mut(&mut parent.state);
        *slot = child;
    }
}

} // verus!
