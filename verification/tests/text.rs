use host_arch::text::same_text;

#[test]
fn a_text_is_the_same_as_itself() {
    assert!(same_text("", ""));
    assert!(same_text("x64", "x64"));
    assert!(same_text("\u{445}64", "\u{445}64"));
}

#[test]
fn texts_of_different_length_differ() {
    assert!(!same_text("x64", "x6"));
    assert!(!same_text("x6", "x64"));
    assert!(!same_text("", "x"));
}

#[test]
fn texts_that_differ_in_one_place_differ() {
    assert!(!same_text("x64", "x86"));
    assert!(!same_text("x64", "X64"));
    assert!(!same_text("x64", "x65"));
    assert!(!same_text("\u{e9}", "\u{e8}"));
}
