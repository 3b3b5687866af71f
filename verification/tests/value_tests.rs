use mec::value::RObject;

#[test]
fn integer_roundtrip_preserves_the_value() {
    for v in [0i32, 1, -1, 42, -1234567, i32::MIN, i32::MAX] {
        assert_eq!(RObject::from_i32(v).to_i32(), Some(v));
    }
}

#[test]
fn integer_conversion_fails_outside_native_range() {
    assert_eq!(RObject::RInteger(i64::from(i32::MAX) + 1).to_i32(), None);
    assert_eq!(RObject::RInteger(i64::from(i32::MIN) - 1).to_i32(), None);
    assert_eq!(RObject::RInteger(i64::MAX).to_i32(), None);
}

#[test]
fn integer_conversion_fails_on_other_variants() {
    assert_eq!(RObject::Nil.to_i32(), None);
    assert_eq!(RObject::RString("7".to_string()).to_i32(), None);
}

#[test]
fn text_roundtrip_preserves_the_content() {
    for s in ["", "hello", "with space", "ünïcode"] {
        assert_eq!(RObject::from_text(s).to_text(), Some(s.to_string()));
    }
}

#[test]
fn text_conversion_fails_on_other_variants() {
    assert_eq!(RObject::Nil.to_text(), None);
    assert_eq!(RObject::RInteger(7).to_text(), None);
}
