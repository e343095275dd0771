use std::marker::PhantomData;

use yfc::field::Field;
use yfc::form_state::{
    ListMut, OptionStateMut, OwnedFormState, RefFormState, StateMut, StateProvider, ValueStateMut,
};
use yfc::form_value::FormValueState;
use yfc::model::{Model, ModelRelation};

#[test]
fn a_value_creates_a_clean_field_state() {
    let s = 42u32.create_state();
    assert_eq!(s.value(), "42");
    assert!(s.valid());
    assert!(!s.dirty());
}

#[test]
fn an_option_creates_a_field_from_its_notation() {
    let s = Some(7i16).create_state();
    assert_eq!(s.value(), "7");
    let s = None::<i16>.create_state();
    assert_eq!(s.value(), "");
}

#[test]
fn a_list_creates_one_state_per_element() {
    let v: Vec<u32> = vec![1, 2, 3];
    let s = v.create_state();
    assert_eq!(s.len(), 3);
    assert_eq!(s[0].value(), "1");
    assert_eq!(s[1].value(), "2");
    assert_eq!(s[2].value(), "3");
}

#[test]
fn a_value_state_parses_what_it_is_set_to() {
    let mut m = u32::create_state_mut(1, 1u32.create_state());
    m.set("99");
    let (value, field) = m.split();
    assert_eq!(value, 99);
    assert_eq!(field.value(), "99");
    assert!(field.dirty());
}

#[test]
fn setting_the_same_text_leaves_the_field_clean() {
    let mut m = FormValueState { value: 5u8, field: Field::new("5") };
    FormValueState::set(&mut m, "5");
    assert_eq!(m.value, 5);
    assert!(!m.field.dirty());
}

#[test]
fn an_option_state_clears_on_the_empty_text() {
    let mut m = OptionStateMut { model: Some(4u32), state: Field::new("4") };
    ValueStateMut::set(&mut m, "");
    assert_eq!(m.model, None);
    assert_eq!(m.state.value(), "");
    assert!(m.state.dirty());
    ValueStateMut::set(&mut m, "12");
    assert_eq!(m.model, Some(12));
    assert_eq!(m.state.value(), "12");
}

#[test]
fn a_list_handle_keeps_values_and_states_in_step() {
    let values: Vec<u32> = vec![10, 30];
    let states = values.create_state();
    let mut list = Vec::create_state_mut(values, states);
    list.push(40);
    list.insert(1, 20);
    assert_eq!(list.values, vec![10, 20, 30, 40]);
    assert_eq!(list.states.len(), 4);
    assert_eq!(list.states[1].value(), "20");
    assert_eq!(list.states[3].value(), "40");
    let removed = list.remove(0);
    assert_eq!(removed, 10);
    assert_eq!(list.values, vec![20, 30, 40]);
    assert_eq!(list.states[0].value(), "20");
    let (values, states) = list.split();
    assert_eq!(values.len(), 3);
    assert_eq!(states.len(), 3);
}

#[derive(Clone, PartialEq)]
struct Person {
    name: String,
    age: u32,
}

#[derive(Clone, PartialEq)]
struct PersonState {
    name: Field,
    age: Field,
}

struct PersonStateMut {
    model: Person,
    state: PersonState,
}

impl StateProvider for Person {
    type State = PersonState;
    type StateMut = PersonStateMut;

    fn state_matches(&self, _s: PersonState) -> bool {
        unreachable!()
    }

    fn create_state(&self) -> PersonState {
        PersonState { name: self.name.create_state(), age: self.age.create_state() }
    }

    fn create_state_mut(model: Person, state: PersonState) -> PersonStateMut {
        PersonStateMut { model, state }
    }
}

impl StateMut<Person, PersonState> for PersonStateMut {
    fn model_spec(&self) -> Person {
        unreachable!()
    }

    fn state_spec(&self) -> PersonState {
        unreachable!()
    }

    fn split(self) -> (Person, PersonState) {
        (self.model, self.state)
    }
}

impl Model for Person {}

struct PersonAgeRelation;

impl ModelRelation<Person, u32> for PersonAgeRelation {
    fn spec_model(&self, _: Person) -> u32 {
        unreachable!()
    }

    fn spec_state(&self, _: PersonState) -> Field {
        unreachable!()
    }

    fn spec_update_model(&self, _: Person, _: u32) -> Person {
        unreachable!()
    }

    fn spec_update_state(&self, _: PersonState, _: Field) -> PersonState {
        unreachable!()
    }

    fn lemma_model_lens(&self, _: Person, _: u32) {
        unreachable!()
    }

    fn lemma_state_lens(&self, _: PersonState, _: Field) {
        unreachable!()
    }

    fn relation_model<'a>(&self, parent: &'a Person) -> &'a u32 {
        &parent.age
    }

    fn relation_model_mut<'a>(&self, parent: &'a mut Person) -> &'a mut u32 {
        &mut parent.age
    }

    fn relation_state<'a>(&self, parent: &'a PersonState) -> &'a Field {
        &parent.age
    }

    fn relation_state_mut<'a>(&self, parent: &'a mut PersonState) -> &'a mut Field {
        &mut parent.age
    }
}

#[test]
fn an_owned_form_state_tracks_a_struct_model() {
    let form = OwnedFormState::new(Person { name: String::from("Ada"), age: 36 });
    assert_eq!(form.model().age, 36);
    assert_eq!(form.state().name.value(), "Ada");
    assert_eq!(form.state().age.value(), "36");
    let handle = form.state_mut();
    let (model, state) = handle.split();
    assert_eq!(model.name, "Ada");
    assert_eq!(state.age.value(), "36");
}

#[test]
fn a_scoped_form_state_reaches_one_field() {
    let mut form = OwnedFormState::new(Person { name: String::from("Ada"), age: 36 });
    let age_form = RefFormState { relation: PersonAgeRelation, phantom: PhantomData };
    assert_eq!(*age_form.model(&form), 36);
    assert_eq!(age_form.state(&form).value(), "36");
    age_form.set_model(&mut form, 37);
    assert_eq!(form.model().age, 37);
    assert_eq!(form.model().name, "Ada");
    assert_eq!(form.state().age.value(), "36");
    age_form.set_state(&mut form, Field::new("37"));
    assert_eq!(form.state().age.value(), "37");
}

#[test]
fn a_scoped_form_state_built_by_new_holds_its_relation() {
    let form = OwnedFormState::new(Person { name: String::from("Bo"), age: 9 });
    let age_form: RefFormState<Person, u32, PersonAgeRelation> =
        RefFormState::new(PersonAgeRelation);
    assert_eq!(*age_form.model(&form), 9);
}
