use rsx_compiler::repair::{rejoin_hyphens, rejoin_selectors, repair};

#[test]
fn class_selector_is_rejoined() {
    assert_eq!(repair(". foo"), ".foo");
}

#[test]
fn id_selector_is_rejoined() {
    assert_eq!(repair("# foo"), "#foo");
}

#[test]
fn spaced_hyphen_is_rejoined() {
    assert_eq!(repair("margin - left "), "margin-left ");
}

#[test]
fn stylesheet_artifacts_are_repaired() {
    // "1 px" is outside both patterns and keeps its space.
    assert_eq!(
        repair(". foo { margin - left : 1 px ; }"),
        ".foo { margin-left : 1 px ; }"
    );
}

#[test]
fn clean_text_is_unchanged() {
    let clean = ".foo { margin-left: 1px; } #bar { color: red; }";
    assert_eq!(repair(clean), clean);
    assert_eq!(repair(""), "");
}

#[test]
fn repair_applies_to_every_match() {
    assert_eq!(
        repair(". a , . b { border - top - width : 0 ; }"),
        ".a , .b { border-top - width : 0 ; }"
    );
    assert_eq!(rejoin_selectors(". a . b # c"), ".a .b #c");
}

#[test]
fn any_unicode_whitespace_splits() {
    assert_eq!(rejoin_selectors(".\tfoo"), ".foo");
    assert_eq!(rejoin_selectors(".\u{3000}foo"), ".foo");
    assert_eq!(rejoin_hyphens("a\n-\tb\n"), "a-b ");
}

#[test]
fn hyphen_needs_trailing_whitespace() {
    assert_eq!(rejoin_hyphens("margin - left"), "margin - left");
    assert_eq!(rejoin_hyphens("a - b;"), "a - b;");
}

#[test]
fn selector_needs_a_name() {
    assert_eq!(rejoin_selectors(". {"), ". {");
    assert_eq!(rejoin_selectors(".  foo"), ".  foo");
    assert_eq!(rejoin_selectors("1 . 5"), "1 .5");
}
