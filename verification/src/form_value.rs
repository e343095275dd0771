//! Values that a single form control can edit: rendered to the control's
//! text, and parsed back when the control changes.

use vstd::prelude::*;
use vstd::string::*;

use crate::decimal::{
    dec_check, dec_check_signed, dec_to_i128, dec_to_u128, i128_to_dec, spec_idec, spec_idec_ok,
    spec_idec_val, spec_udec, spec_udec_ok, spec_udec_val, u128_to_dec, lemma_idec_ok_widen,
    lemma_idec_round_trip, lemma_idec_val_bounds, lemma_udec_digits, lemma_udec_val,
};
use crate::field::{spec_set_value, Field};

verus! {

/// A model value with a textual form notation.
///
/// `value` renders the model value; `from_value` reads one back from the
/// text of a control, on the texts that `parses` admits. `parsed_as` states
/// what a successful parse yields, so that contracts can speak about the
/// result without constructing it. A value that is `round_trippable`
/// renders to a text that parses back to itself: the round-trip law
/// `lemma_round_trip` is a proof obligation of every implementation.
pub trait FormValue: Sized + PartialEq {
    /// The form notation of this value.
    spec fn value_spec(&self) -> Seq<char>;

    /// The texts that this type can be parsed from.
    spec fn parses(s: Seq<char>) -> bool;

    /// The relation between an admitted text and the value parsed from it.
    spec fn parsed_as(s: Seq<char>, v: Self) -> bool;

    /// Whether this value's own notation parses back to exactly this
    /// value. It fails only for values whose notation is claimed by
    /// another (an inner value rendering to the empty text, which reads
    /// back as the absent option).
    spec fn round_trippable(&self) -> bool;

    /// Renders this value for a form control.
    fn value(&self) -> (r: String)
        ensures
            r@ == self.value_spec(),
    ;

    /// Parses a control's text, which the caller has checked with
    /// [`FormValue::accepts`].
    fn from_value(value: &str) -> (v: Self)
        requires
            Self::parses(value@),
        ensures
            Self::parsed_as(value@, v),
    ;

    /// Decides whether `value` can be parsed.
    fn accepts(value: &str) -> (b: bool)
        ensures
            b == Self::parses(value@),
    ;

    /// Rendering a round-trippable value gives an admitted text that
    /// parses back to the value itself.
    proof fn lemma_round_trip(&self)
        requires
            self.round_trippable(),
        ensures
            Self::parses(self.value_spec()),
            Self::parsed_as(self.value_spec(), *self),
    ;

    /// Parses arbitrary text: the checked entry point for callers that
    /// cannot warrant [`FormValue::parses`] themselves.
    fn try_from_value(value: &str) -> (r: Option<Self>)
        ensures
            match r {
                Some(v) => Self::parses(value@) && Self::parsed_as(value@, v),
                None => !Self::parses(value@),
            },
    {
        if Self::accepts(value) {
            Some(Self::from_value(value))
        } else {
            None
        }
    }
}

impl FormValue for String {
    /// A string's notation is the string itself.
    open spec fn value_spec(&self) -> Seq<char> {
        self@
    }

    open spec fn parses(s: Seq<char>) -> bool {
        true
    }

    open spec fn parsed_as(s: Seq<char>, v: Self) -> bool {
        v@ == s
    }

    open spec fn round_trippable(&self) -> bool {
        true
    }

    fn value(&self) -> (r: String) {
        self.clone()
    }

    fn from_value(value: &str) -> (v: Self) {
        value.to_owned()
    }

    fn accepts(value: &str) -> (b: bool) {
        true
    }

    proof fn lemma_round_trip(&self) {
    }
}

impl FormValue for u8 {
    /// Decimal digits, no sign, no leading zeros.
    open spec fn value_spec(&self) -> Seq<char> {
        spec_udec(*self as nat)
    }

    open spec fn parses(s: Seq<char>) -> bool {
        spec_udec_ok(s, u8::MAX as nat)
    }

    open spec fn parsed_as(s: Seq<char>, v: Self) -> bool {
        v as nat == spec_udec_val(s)
    }

    open spec fn round_trippable(&self) -> bool {
        true
    }

    fn value(&self) -> (r: String) {
        u128_to_dec(*self as u128)
    }

    fn from_value(value: &str) -> (v: Self) {
        dec_to_u128(value) as u8
    }

    fn accepts(value: &str) -> (b: bool) {
        dec_check(value, u8::MAX as u128)
    }

    proof fn lemma_round_trip(&self) {
        lemma_udec_digits(*self as nat);
        lemma_udec_val(*self as nat);
    }
}

impl FormValue for u16 {
    /// Decimal digits, no sign, no leading zeros.
    open spec fn value_spec(&self) -> Seq<char> {
        spec_udec(*self as nat)
    }

    open spec fn parses(s: Seq<char>) -> bool {
        spec_udec_ok(s, u16::MAX as nat)
    }

    open spec fn parsed_as(s: Seq<char>, v: Self) -> bool {
        v as nat == spec_udec_val(s)
    }

    open spec fn round_trippable(&self) -> bool {
        true
    }

    fn value(&self) -> (r: String) {
        u128_to_dec(*self as u128)
    }

    fn from_value(value: &str) -> (v: Self) {
        dec_to_u128(value) as u16
    }

    fn accepts(value: &str) -> (b: bool) {
        dec_check(value, u16::MAX as u128)
    }

    proof fn lemma_round_trip(&self) {
        lemma_udec_digits(*self as nat);
        lemma_udec_val(*self as nat);
    }
}

impl FormValue for u32 {
    /// Decimal digits, no sign, no leading zeros.
    open spec fn value_spec(&self) -> Seq<char> {
        spec_udec(*self as nat)
    }

    open spec fn parses(s: Seq<char>) -> bool {
        spec_udec_ok(s, u32::MAX as nat)
    }

    open spec fn parsed_as(s: Seq<char>, v: Self) -> bool {
        v as nat == spec_udec_val(s)
    }

    open spec fn round_trippable(&self) -> bool {
        true
    }

    fn value(&self) -> (r: String) {
        u128_to_dec(*self as u128)
    }

    fn from_value(value: &str) -> (v: Self) {
        dec_to_u128(value) as u32
    }

    fn accepts(value: &str) -> (b: bool) {
        dec_check(value, u32::MAX as u128)
    }

    proof fn lemma_round_trip(&self) {
        lemma_udec_digits(*self as nat);
        lemma_udec_val(*self as nat);
    }
}

impl FormValue for u64 {
    /// Decimal digits, no sign, no leading zeros.
    open spec fn value_spec(&self) -> Seq<char> {
        spec_udec(*self as nat)
    }

    open spec fn parses(s: Seq<char>) -> bool {
        spec_udec_ok(s, u64::MAX as nat)
    }

    open spec fn parsed_as(s: Seq<char>, v: Self) -> bool {
        v as nat == spec_udec_val(s)
    }

    open spec fn round_trippable(&self) -> bool {
        true
    }

    fn value(&self) -> (r: String) {
        u128_to_dec(*self as u128)
    }

    fn from_value(value: &str) -> (v: Self) {
        dec_to_u128(value) as u64
    }

    fn accepts(value: &str) -> (b: bool) {
        dec_check(value, u64::MAX as u128)
    }

    proof fn lemma_round_trip(&self) {
        lemma_udec_digits(*self as nat);
        lemma_udec_val(*self as nat);
    }
}

impl FormValue for u128 {
    /// Decimal digits, no sign, no leading zeros.
    open spec fn value_spec(&self) -> Seq<char> {
        spec_udec(*self as nat)
    }

    open spec fn parses(s: Seq<char>) -> bool {
        spec_udec_ok(s, u128::MAX as nat)
    }

    open spec fn parsed_as(s: Seq<char>, v: Self) -> bool {
        v as nat == spec_udec_val(s)
    }

    open spec fn round_trippable(&self) -> bool {
        true
    }

    fn value(&self) -> (r: String) {
        u128_to_dec(*self)
    }

    fn from_value(value: &str) -> (v: Self) {
        dec_to_u128(value)
    }

    fn accepts(value: &str) -> (b: bool) {
        dec_check(value, u128::MAX)
    }

    proof fn lemma_round_trip(&self) {
        lemma_udec_digits(*self as nat);
        lemma_udec_val(*self as nat);
    }
}

impl FormValue for usize {
    /// Decimal digits, no sign, no leading zeros.
    open spec fn value_spec(&self) -> Seq<char> {
        spec_udec(*self as nat)
    }

    open spec fn parses(s: Seq<char>) -> bool {
        spec_udec_ok(s, usize::MAX as nat)
    }

    open spec fn parsed_as(s: Seq<char>, v: Self) -> bool {
        v as nat == spec_udec_val(s)
    }

    open spec fn round_trippable(&self) -> bool {
        true
    }

    fn value(&self) -> (r: String) {
        u128_to_dec(*self as u128)
    }

    fn from_value(value: &str) -> (v: Self) {
        dec_to_u128(value) as usize
    }

    fn accepts(value: &str) -> (b: bool) {
        dec_check(value, usize::MAX as u128)
    }

    proof fn lemma_round_trip(&self) {
        lemma_udec_digits(*self as nat);
        lemma_udec_val(*self as nat);
    }
}

impl FormValue for i8 {
    /// Decimal digits with an optional leading minus sign.
    open spec fn value_spec(&self) -> Seq<char> {
        spec_idec(*self as int)
    }

    open spec fn parses(s: Seq<char>) -> bool {
        spec_idec_ok(s, i8::MIN as int, i8::MAX as int)
    }

    open spec fn parsed_as(s: Seq<char>, v: Self) -> bool {
        v as int == spec_idec_val(s)
    }

    open spec fn round_trippable(&self) -> bool {
        true
    }

    fn value(&self) -> (r: String) {
        i128_to_dec(*self as i128)
    }

    fn from_value(value: &str) -> (v: Self) {
        proof {
            lemma_idec_val_bounds(value@, i8::MIN as int, i8::MAX as int);
            lemma_idec_ok_widen(
                value@,
                i8::MIN as int,
                i8::MAX as int,
                i128::MIN as int,
                i128::MAX as int,
            );
        }
        dec_to_i128(value) as i8
    }

    fn accepts(value: &str) -> (b: bool) {
        dec_check_signed(value, 128, i8::MAX as u128)
    }

    proof fn lemma_round_trip(&self) {
        lemma_idec_round_trip(*self as int, i8::MIN as int, i8::MAX as int);
    }
}

impl FormValue for i16 {
    /// Decimal digits with an optional leading minus sign.
    open spec fn value_spec(&self) -> Seq<char> {
        spec_idec(*self as int)
    }

    open spec fn parses(s: Seq<char>) -> bool {
        spec_idec_ok(s, i16::MIN as int, i16::MAX as int)
    }

    open spec fn parsed_as(s: Seq<char>, v: Self) -> bool {
        v as int == spec_idec_val(s)
    }

    open spec fn round_trippable(&self) -> bool {
        true
    }

    fn value(&self) -> (r: String) {
        i128_to_dec(*self as i128)
    }

    fn from_value(value: &str) -> (v: Self) {
        proof {
            lemma_idec_val_bounds(value@, i16::MIN as int, i16::MAX as int);
            lemma_idec_ok_widen(
                value@,
                i16::MIN as int,
                i16::MAX as int,
                i128::MIN as int,
                i128::MAX as int,
            );
        }
        dec_to_i128(value) as i16
    }

    fn accepts(value: &str) -> (b: bool) {
        dec_check_signed(value, 32768, i16::MAX as u128)
    }

    proof fn lemma_round_trip(&self) {
        lemma_idec_round_trip(*self as int, i16::MIN as int, i16::MAX as int);
    }
}

impl FormValue for i32 {
    /// Decimal digits with an optional leading minus sign.
    open spec fn value_spec(&self) -> Seq<char> {
        spec_idec(*self as int)
    }

    open spec fn parses(s: Seq<char>) -> bool {
        spec_idec_ok(s, i32::MIN as int, i32::MAX as int)
    }

    open spec fn parsed_as(s: Seq<char>, v: Self) -> bool {
        v as int == spec_idec_val(s)
    }

    open spec fn round_trippable(&self) -> bool {
        true
    }

    fn value(&self) -> (r: String) {
        i128_to_dec(*self as i128)
    }

    fn from_value(value: &str) -> (v: Self) {
        proof {
            lemma_idec_val_bounds(value@, i32::MIN as int, i32::MAX as int);
            lemma_idec_ok_widen(
                value@,
                i32::MIN as int,
                i32::MAX as int,
                i128::MIN as int,
                i128::MAX as int,
            );
        }
        dec_to_i128(value) as i32
    }

    fn accepts(value: &str) -> (b: bool) {
        dec_check_signed(value, 2147483648, i32::MAX as u128)
    }

    proof fn lemma_round_trip(&self) {
        lemma_idec_round_trip(*self as int, i32::MIN as int, i32::MAX as int);
    }
}

impl FormValue for i64 {
    /// Decimal digits with an optional leading minus sign.
    open spec fn value_spec(&self) -> Seq<char> {
        spec_idec(*self as int)
    }

    open spec fn parses(s: Seq<char>) -> bool {
        spec_idec_ok(s, i64::MIN as int, i64::MAX as int)
    }

    open spec fn parsed_as(s: Seq<char>, v: Self) -> bool {
        v as int == spec_idec_val(s)
    }

    open spec fn round_trippable(&self) -> bool {
        true
    }

    fn value(&self) -> (r: String) {
        i128_to_dec(*self as i128)
    }

    fn from_value(value: &str) -> (v: Self) {
        proof {
            lemma_idec_val_bounds(value@, i64::MIN as int, i64::MAX as int);
            lemma_idec_ok_widen(
                value@,
                i64::MIN as int,
                i64::MAX as int,
                i128::MIN as int,
                i128::MAX as int,
            );
        }
        dec_to_i128(value) as i64
    }

    fn accepts(value: &str) -> (b: bool) {
        dec_check_signed(value, 9223372036854775808, i64::MAX as u128)
    }

    proof fn lemma_round_trip(&self) {
        lemma_idec_round_trip(*self as int, i64::MIN as int, i64::MAX as int);
    }
}

impl FormValue for i128 {
    /// Decimal digits with an optional leading minus sign.
    open spec fn value_spec(&self) -> Seq<char> {
        spec_idec(*self as int)
    }

    open spec fn parses(s: Seq<char>) -> bool {
        spec_idec_ok(s, i128::MIN as int, i128::MAX as int)
    }

    open spec fn parsed_as(s: Seq<char>, v: Self) -> bool {
        v as int == spec_idec_val(s)
    }

    open spec fn round_trippable(&self) -> bool {
        true
    }

    fn value(&self) -> (r: String) {
        i128_to_dec(*self)
    }

    fn from_value(value: &str) -> (v: Self) {
        dec_to_i128(value)
    }

    fn accepts(value: &str) -> (b: bool) {
        dec_check_signed(value, 170141183460469231731687303715884105728, i128::MAX as u128)
    }

    proof fn lemma_round_trip(&self) {
        lemma_idec_round_trip(*self as int, i128::MIN as int, i128::MAX as int);
    }
}

impl FormValue for isize {
    /// Decimal digits with an optional leading minus sign.
    open spec fn value_spec(&self) -> Seq<char> {
        spec_idec(*self as int)
    }

    open spec fn parses(s: Seq<char>) -> bool {
        spec_idec_ok(s, isize::MIN as int, isize::MAX as int)
    }

    open spec fn parsed_as(s: Seq<char>, v: Self) -> bool {
        v as int == spec_idec_val(s)
    }

    open spec fn round_trippable(&self) -> bool {
        true
    }

    fn value(&self) -> (r: String) {
        i128_to_dec(*self as i128)
    }

    fn from_value(value: &str) -> (v: Self) {
        proof {
            lemma_idec_val_bounds(value@, isize::MIN as int, isize::MAX as int);
            lemma_idec_ok_widen(
                value@,
                isize::MIN as int,
                isize::MAX as int,
                i128::MIN as int,
                i128::MAX as int,
            );
        }
        dec_to_i128(value) as isize
    }

    fn accepts(value: &str) -> (b: bool) {
        let min_mag: u128 = ((-(isize::MIN + 1)) as u128) + 1;
        dec_check_signed(value, min_mag, isize::MAX as u128)
    }

    proof fn lemma_round_trip(&self) {
        lemma_idec_round_trip(*self as int, isize::MIN as int, isize::MAX as int);
    }
}

impl FormValue for bool {
    /// The words `true` and `false`.
    open spec fn value_spec(&self) -> Seq<char> {
        if *self {
            "true"@
        } else {
            "false"@
        }
    }

    open spec fn parses(s: Seq<char>) -> bool {
        s == "true"@ || s == "false"@
    }

    open spec fn parsed_as(s: Seq<char>, v: Self) -> bool {
        v == (s == "true"@)
    }

    open spec fn round_trippable(&self) -> bool {
        true
    }

    fn value(&self) -> (r: String) {
        if *self {
            "true".to_owned()
        } else {
            "false".to_owned()
        }
    }

    fn from_value(value: &str) -> (v: Self) {
        value.to_owned() == "true".to_owned()
    }

    fn accepts(value: &str) -> (b: bool) {
        let value = value.to_owned();
        value == "true".to_owned() || value == "false".to_owned()
    }

    proof fn lemma_round_trip(&self) {
        reveal_strlit("true");
        reveal_strlit("false");
        assert("true"@.len() != "false"@.len());
    }
}

impl FormValue for char {
    /// The character itself, as a one-character text.
    open spec fn value_spec(&self) -> Seq<char> {
        seq![*self]
    }

    open spec fn parses(s: Seq<char>) -> bool {
        s.len() == 1
    }

    open spec fn parsed_as(s: Seq<char>, v: Self) -> bool {
        s.len() == 1 && v == s[0]
    }

    open spec fn round_trippable(&self) -> bool {
        true
    }

    fn value(&self) -> (r: String) {
        char_to_string(*self)
    }

    fn from_value(value: &str) -> (v: Self) {
        value.get_char(0)
    }

    fn accepts(value: &str) -> (b: bool) {
        value.unicode_len() == 1
    }

    proof fn lemma_round_trip(&self) {
    }
}

impl<T: FormValue> FormValue for Option<T> {
    /// An absent value renders as the empty text; a present one as the
    /// inner value does.
    open spec fn value_spec(&self) -> Seq<char> {
        match self {
            Some(v) => v.value_spec(),
            None => Seq::<char>::empty(),
        }
    }

    open spec fn parses(s: Seq<char>) -> bool {
        s.len() == 0 || T::parses(s)
    }

    open spec fn parsed_as(s: Seq<char>, v: Self) -> bool {
        if s.len() == 0 {
            v is None
        } else {
            match v {
                Some(x) => T::parsed_as(s, x),
                None => false,
            }
        }
    }

    /// A present value whose own notation is empty would read back as
    /// absent, so it is left out.
    open spec fn round_trippable(&self) -> bool {
        match self {
            Some(x) => x.round_trippable() && x.value_spec().len() > 0,
            None => true,
        }
    }

    fn value(&self) -> (r: String) {
        match self {
            Some(v) => v.value(),
            None => String::new(),
        }
    }

    fn from_value(value: &str) -> (v: Self) {
        if value.unicode_len() == 0 {
            None
        } else {
            Some(T::from_value(value))
        }
    }

    fn accepts(value: &str) -> (b: bool) {
        value.unicode_len() == 0 || T::accepts(value)
    }

    proof fn lemma_round_trip(&self) {
        match self {
            Some(x) => {
                x.lemma_round_trip();
            },
            None => {
            },
        }
    }
}

/// A model value bound to a single control through the notation of the
/// wrapped value.
#[derive(Clone, PartialEq)]
pub struct ValueWrapper<T: FormValue>(pub T);

impl<T: FormValue> ValueWrapper<T> {
    /// The wrapped value.
    pub fn inner(&self) -> (r: &T)
        ensures
            *r == self.0,
    {
        &self.0
    }
}

impl<T: FormValue> From<T> for ValueWrapper<T> {
    fn from(value: T) -> (r: Self) {
        ValueWrapper(value)
    }
}

impl<T: FormValue> vstd::std_specs::convert::FromSpecImpl<T> for ValueWrapper<T> {
    open spec fn obeys_from_spec() -> bool {
        true
    }

    open spec fn from_spec(value: T) -> Self {
        ValueWrapper(value)
    }
}

impl<T: FormValue> FormValue for ValueWrapper<T> {
    /// The notation of the wrapped value.
    open spec fn value_spec(&self) -> Seq<char> {
        self.0.value_spec()
    }

    open spec fn parses(s: Seq<char>) -> bool {
        T::parses(s)
    }

    open spec fn parsed_as(s: Seq<char>, v: Self) -> bool {
        T::parsed_as(s, v.0)
    }

    open spec fn round_trippable(&self) -> bool {
        self.0.round_trippable()
    }

    fn value(&self) -> (r: String) {
        self.0.value()
    }

    fn from_value(value: &str) -> (v: Self) {
        ValueWrapper(T::from_value(value))
    }

    fn accepts(value: &str) -> (b: bool) {
        T::accepts(value)
    }

    proof fn lemma_round_trip(&self) {
        self.0.lemma_round_trip();
    }
}

/// A detached handle onto a single-control binding: the model value
/// beside the field that edits it. It is taken out of a form state with
/// [`crate::form_state::StateProvider::create_state_mut`], changed, and
/// split back.
pub struct FormValueState<T: FormValue> {
    pub value: T,
    pub field: Field,
}

impl<T: FormValue> FormValueState<T> {
    /// Parses `value` into the model value and stores the text in the
    /// field, marking it dirty when the text changed.
    pub fn set(&mut self, value: &str)
        requires
            T::parses(value@),
        ensures
            T::parsed_as(value@, final(self).value),
            spec_set_value(old(self).field@, value@, final(self).field@),
    {
        self.value = T::from_value(value);
        self.field.set_value(value);
    }
}

/// Relies on `char::to_string` (through `Display`): the returned string
/// holds exactly this one character.
#[verifier::external_body]
fn char_to_string(c: char) -> (r: String)
    ensures
        r@ == seq![c],
{
    c.to_string()
}

} // verus!
