use yfc::form_value::{FormValue, ValueWrapper};

#[test]
fn unsigned_values_render_in_decimal() {
    assert_eq!(FormValue::value(&0u8), "0");
    assert_eq!(FormValue::value(&42u32), "42");
    assert_eq!(FormValue::value(&255u8), "255");
    assert_eq!(FormValue::value(&u64::MAX), "18446744073709551615");
    assert_eq!(FormValue::value(&1000000usize), "1000000");
}

#[test]
fn signed_values_render_with_sign() {
    assert_eq!(FormValue::value(&-17i32), "-17");
    assert_eq!(FormValue::value(&0i8), "0");
    assert_eq!(FormValue::value(&i8::MIN), "-128");
    assert_eq!(FormValue::value(&i64::MIN), "-9223372036854775808");
    assert_eq!(FormValue::value(&i64::MAX), "9223372036854775807");
}

#[test]
fn unsigned_parse_reads_digits() {
    assert_eq!(<u8 as FormValue>::from_value("7"), 7);
    assert_eq!(<u8 as FormValue>::from_value("007"), 7);
    assert_eq!(<u32 as FormValue>::from_value("4294967295"), u32::MAX);
    assert_eq!(<u128 as FormValue>::from_value("340282366920938463463374607431768211455"), u128::MAX);
}

#[test]
fn signed_parse_reads_sign_and_digits() {
    assert_eq!(<i8 as FormValue>::from_value("-128"), -128);
    assert_eq!(<i8 as FormValue>::from_value("127"), 127);
    assert_eq!(<i32 as FormValue>::from_value("-0"), 0);
    assert_eq!(<i128 as FormValue>::from_value("-170141183460469231731687303715884105728"), i128::MIN);
}

#[test]
fn out_of_range_or_malformed_text_is_refused() {
    assert_eq!(<u8 as FormValue>::try_from_value("256"), None);
    assert_eq!(<u8 as FormValue>::try_from_value(""), None);
    assert_eq!(<u8 as FormValue>::try_from_value("12a"), None);
    assert_eq!(<u8 as FormValue>::try_from_value("-1"), None);
    assert_eq!(<i8 as FormValue>::try_from_value("-129"), None);
    assert_eq!(<i8 as FormValue>::try_from_value("128"), None);
    assert_eq!(<i8 as FormValue>::try_from_value("-"), None);
    assert_eq!(<i8 as FormValue>::try_from_value("--1"), None);
    assert_eq!(<u8 as FormValue>::try_from_value("999999999999999999999999999999999999999999"), None);
}

#[test]
fn accepts_agrees_with_parsing() {
    assert!(<u8 as FormValue>::accepts("255"));
    assert!(!<u8 as FormValue>::accepts("256"));
    assert!(<i16 as FormValue>::accepts("-32768"));
    assert!(!<i16 as FormValue>::accepts("-32769"));
    assert!(<bool as FormValue>::accepts("true"));
    assert!(!<bool as FormValue>::accepts("TRUE"));
}

#[test]
fn bool_uses_the_two_words() {
    assert_eq!(FormValue::value(&true), "true");
    assert_eq!(FormValue::value(&false), "false");
    assert_eq!(<bool as FormValue>::from_value("true"), true);
    assert_eq!(<bool as FormValue>::from_value("false"), false);
    assert_eq!(<bool as FormValue>::try_from_value("yes"), None);
}

#[test]
fn char_renders_as_one_character_text() {
    assert_eq!(FormValue::value(&'x'), "x");
    assert_eq!(<char as FormValue>::from_value("x"), 'x');
    assert_eq!(<char as FormValue>::try_from_value("xy"), None);
    assert_eq!(<char as FormValue>::try_from_value(""), None);
}

#[test]
fn string_passes_through_unchanged() {
    assert_eq!(FormValue::value(&String::from("any text")), "any text");
    assert_eq!(<String as FormValue>::from_value("any text"), "any text");
    assert_eq!(<String as FormValue>::from_value(""), "");
}

#[test]
fn option_uses_the_empty_text_for_absence() {
    assert_eq!(FormValue::value(&None::<u32>), "");
    assert_eq!(FormValue::value(&Some(5u32)), "5");
    assert_eq!(<Option<u32> as FormValue>::from_value(""), None);
    assert_eq!(<Option<u32> as FormValue>::from_value("5"), Some(5));
    assert_eq!(<Option<u32> as FormValue>::try_from_value("x"), None);
}

#[test]
fn wrapper_delegates_to_the_inner_value() {
    let w = ValueWrapper::from(42u32);
    assert_eq!(*w.inner(), 42);
    assert_eq!(FormValue::value(&w), "42");
    let parsed = <ValueWrapper<u32> as FormValue>::from_value("42");
    assert_eq!(*parsed.inner(), 42);
}

#[test]
fn rendering_and_parsing_round_trip() {
    assert_eq!(<u32 as FormValue>::from_value(&FormValue::value(&12345u32)), 12345);
    assert_eq!(<i64 as FormValue>::from_value(&FormValue::value(&-98765i64)), -98765);
    assert_eq!(<bool as FormValue>::from_value(&FormValue::value(&true)), true);
    assert_eq!(<char as FormValue>::from_value(&FormValue::value(&'q')), 'q');
    assert_eq!(
        <Option<i8> as FormValue>::from_value(&FormValue::value(&Some(-3i8))),
        Some(-3)
    );
}
