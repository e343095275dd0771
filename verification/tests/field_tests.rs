use yfc::field::Field;

#[test]
fn new_field_is_clean_and_valid() {
    let f = Field::new("hello");
    assert_eq!(f.value(), "hello");
    assert!(f.valid());
    assert!(!f.dirty());
    assert_eq!(f.message(), "");
}

#[test]
fn default_field_is_empty() {
    let f = Field::default();
    assert_eq!(f.value(), "");
    assert!(f.valid());
    assert!(!f.dirty());
    assert_eq!(f.message(), "");
}

#[test]
fn set_value_with_new_text_marks_dirty() {
    let mut f = Field::new("a");
    f.set_value("b");
    assert_eq!(f.value(), "b");
    assert!(f.dirty());
}

#[test]
fn set_value_with_same_text_stays_clean() {
    let mut f = Field::new("a");
    f.set_value("a");
    assert_eq!(f.value(), "a");
    assert!(!f.dirty());
}

#[test]
fn set_dirty_overrides_flag() {
    let mut f = Field::new("a");
    f.set_value("b");
    assert!(f.dirty());
    f.set_dirty(false);
    assert!(!f.dirty());
}

#[test]
fn set_message_stores_text() {
    let mut f = Field::new("a");
    f.set_message("too short");
    assert_eq!(f.message(), "too short");
    assert_eq!(f.value(), "a");
}

#[test]
fn set_valid_overrides_flag() {
    let mut f = Field::new("a");
    assert!(f.valid());
    f.set_valid(false);
    assert!(!f.valid());
    assert_eq!(f.value(), "a");
}

#[test]
fn field_equality_compares_all_parts() {
    let a = Field::new("x");
    let b = Field::new("x");
    assert!(a == b);
    let mut c = Field::new("x");
    c.set_dirty(true);
    assert!(a != c);
    let d = a.clone();
    assert!(a == d);
}
