use resolution::text::{bool_to_text, u16_to_text};

#[test]
fn u16_text_is_decimal_notation() {
    assert_eq!(u16_to_text(0), "0");
    assert_eq!(u16_to_text(7), "7");
    assert_eq!(u16_to_text(10), "10");
    assert_eq!(u16_to_text(109), "109");
    assert_eq!(u16_to_text(65535), "65535");
}

#[test]
fn u16_text_agrees_with_std_for_every_value() {
    for v in 0..=u16::MAX {
        assert_eq!(u16_to_text(v), v.to_string());
    }
}

#[test]
fn bool_text_is_the_literal() {
    assert_eq!(bool_to_text(true), "true");
    assert_eq!(bool_to_text(false), "false");
}

#[test]
fn row_joins_the_five_fields_with_commas() {
    assert_eq!(
        resolution::account::row_text(12, "1.5", "0.25", "1.75", true),
        "12,1.5,0.25,1.75,true"
    );
    assert_eq!(
        resolution::account::row_text(0, "", "-0", "x", false),
        "0,,-0,x,false"
    );
}

#[test]
fn failure_note_names_both_amounts() {
    assert_eq!(
        resolution::transaction::failure_note("5.0", "3.25"),
        "Tried to withdraw 5.0 but account had 3.25 available"
    );
    assert_eq!(
        resolution::transaction::failure_note("", ""),
        "Tried to withdraw  but account had  available"
    );
}
