//! The per-control state of a bound form field: the text being edited, a
//! validity flag, a dirty flag, and a validation message.

use vstd::prelude::*;
use vstd::string::*;

verus! {

/// The abstract value of a [`Field`]: its text and message as character
/// sequences beside the two flags.
pub ghost struct FieldView {
    pub value: Seq<char>,
    pub valid: bool,
    pub dirty: bool,
    pub message: Seq<char>,
}

/// The view of a field freshly created from `value`: clean, valid, and
/// with no message.
pub open spec fn spec_field_new(value: Seq<char>) -> FieldView {
    FieldView { value, valid: true, dirty: false, message: Seq::<char>::empty() }
}

/// How storing the text `value` changes a field's view: a differing text
/// is stored and marks the field dirty; an equal text changes nothing.
pub open spec fn spec_set_value(pre: FieldView, value: Seq<char>, post: FieldView) -> bool {
    if value == pre.value {
        post == pre
    } else {
        post == (FieldView { value, dirty: true, ..pre })
    }
}

/// The editable state of one form control.
#[derive(Debug, Eq, Hash)]
pub struct Field {
    value: String,
    valid: bool,
    dirty: bool,
    message: String,
}

impl View for Field {
    type V = FieldView;

    closed spec fn view(&self) -> FieldView {
        FieldView {
            value: self.value@,
            valid: self.valid,
            dirty: self.dirty,
            message: self.message@,
        }
    }
}

impl Field {
    /// A clean, valid field holding `value`.
    pub fn new(value: &str) -> (f: Self)
        ensures
            f@ == spec_field_new(value@),
    {
        Field { value: value.to_owned(), valid: true, dirty: false, message: String::new() }
    }

    /// The current text of the field.
    pub fn value(&self) -> (r: &str)
        ensures
            r@ == self@.value,
    {
        self.value.as_str()
    }

    /// Stores `value` if it differs from the current text, and marks the
    /// field dirty in that case; an equal text leaves the field untouched.
    pub fn set_value(&mut self, value: &str)
        ensures
            spec_set_value(old(self)@, value@, final(self)@),
            value@ == old(self)@.value ==> *final(self) == *old(self),
    {
        let value = value.to_owned();
        if value != self.value {
            self.value = value;
            self.dirty = true;
        }
    }

    /// Whether the field's current text is considered valid.
    pub fn valid(&self) -> (b: bool)
        ensures
            b == self@.valid,
    {
        self.valid
    }

    /// Whether the field has been edited since it was created or reset.
    pub fn dirty(&self) -> (b: bool)
        ensures
            b == self@.dirty,
    {
        self.dirty
    }

    /// Sets the validity flag.
    pub fn set_valid(&mut self, value: bool)
        ensures
            final(self)@ == (FieldView { valid: value, ..old(self)@ }),
    {
        self.valid = value;
    }

    /// Sets the dirty flag.
    pub fn set_dirty(&mut self, value: bool)
        ensures
            final(self)@ == (FieldView { dirty: value, ..old(self)@ }),
    {
        self.dirty = value;
    }

    /// The current validation message.
    pub fn message(&self) -> (r: &str)
        ensures
            r@ == self@.message,
    {
        self.message.as_str()
    }

    /// Replaces the validation message.
    pub fn set_message(&mut self, message: &str)
        ensures
            final(self)@ == (FieldView { message: message@, ..old(self)@ }),
    {
        self.message = message.to_owned();
    }
}

impl Default for Field {
    /// An empty, clean, valid field.
    fn default() -> (f: Self)
        ensures
            f@ == spec_field_new(Seq::<char>::empty()),
    {
        Field { value: String::new(), valid: true, dirty: false, message: String::new() }
    }
}

impl Clone for Field {
    /// A clone carries the same abstract value.
    fn clone(&self) -> (f: Self)
        ensures
            f == *self,
    {
        Field {
            value: self.value.clone(),
            valid: self.valid,
            dirty: self.dirty,
            message: self.message.clone(),
        }
    }
}

impl PartialEq for Field {
    /// Two fields are equal when their texts, flags and messages agree.
    fn eq(&self, other: &Self) -> (b: bool) {
        self.value == other.value && self.valid == other.valid && self.dirty == other.dirty
            && self.message == other.message
    }
}

impl vstd::std_specs::cmp::PartialEqSpecImpl for Field {
    open spec fn obeys_eq_spec() -> bool {
        true
    }

    open spec fn eq_spec(&self, other: &Self) -> bool {
        self@ == other@
    }
}

} // verus!
