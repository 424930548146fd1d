use rsx_compiler::reconstruct::reconstruct;
use rsx_compiler::stylesheet::{path_literal, stylesheet_input, StylesheetInput};

fn texts(tokens: &[&str]) -> Vec<String> {
    tokens.iter().map(|t| t.to_string()).collect()
}

#[test]
fn empty_tokens_give_empty_text() {
    assert_eq!(reconstruct(&Vec::new()), "");
}

#[test]
fn tokens_are_joined_by_one_space() {
    assert_eq!(reconstruct(&texts(&["div"])), "div");
    assert_eq!(reconstruct(&texts(&["<", "div", ">", "</", "div", ">"])), "< div > </ div >");
}

#[test]
fn reconstructed_stylesheet_is_repaired() {
    let tokens = texts(&[".", "foo", "{", "margin", "-", "left", ":", "1", "px", ";", "}"]);
    let text = reconstruct(&tokens);
    assert_eq!(text, ". foo { margin - left : 1 px ; }");
    match stylesheet_input(&text) {
        StylesheetInput::Inline(t) => assert_eq!(t, ".foo { margin-left : 1 px ; }"),
        StylesheetInput::File(_) => panic!("inline syntax taken for a file"),
    }
}

#[test]
fn quoted_literal_names_a_file() {
    match stylesheet_input("\"styles/main.css\"") {
        StylesheetInput::File(p) => assert_eq!(p, "styles/main.css"),
        StylesheetInput::Inline(_) => panic!("file literal taken for inline syntax"),
    }
}

#[test]
fn file_literal_is_not_repaired() {
    match stylesheet_input("\". foo\"") {
        StylesheetInput::File(p) => assert_eq!(p, ". foo"),
        StylesheetInput::Inline(_) => panic!("file literal taken for inline syntax"),
    }
}

#[test]
fn path_literal_strips_quotes() {
    assert_eq!(path_literal("\"img/a.png\""), Some("img/a.png".to_string()));
    assert_eq!(path_literal("\"\""), Some(String::new()));
    assert_eq!(path_literal("\"é\""), Some("é".to_string()));
    assert_eq!(path_literal("img/a.png"), None);
    assert_eq!(path_literal("\""), None);
    assert_eq!(path_literal(""), None);
    assert_eq!(path_literal("\"open"), None);
}
