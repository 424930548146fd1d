//! Choosing the text that the stylesheet grammar is given.
use vstd::prelude::*;
use crate::repair::{repair, repaired};

verus! {

/// `s` is a quoted string literal: a double quote at each end.
pub open spec fn is_quoted(s: Seq<char>) -> bool {
    s.len() >= 2 && s[0] == '"' && s.last() == '"'
}

/// What stands between the two quotes of a quoted literal.
pub open spec fn unquoted(s: Seq<char>) -> Seq<char> {
    s.subrange(1, s.len() - 1)
}

/// The path that a quoted literal names, or `None` where `literal` is not quoted.
pub fn path_literal(literal: &str) -> (r: Option<String>)
    ensures
        r is Some <==> is_quoted(literal@),
        r is Some ==> r->0@ == unquoted(literal@),
{
    let n = literal.unicode_len();
    if n >= 2 && literal.get_char(0) == '"' && literal.get_char(n - 1) == '"' {
        Some(literal.substring_char(1, n - 1).to_owned())
    } else {
        None
    }
}

/// Where the stylesheet text comes from.
#[derive(Debug)]
pub enum StylesheetInput {
    /// A file, by its path relative to the build's working directory; read as it is.
    File(String),
    /// Inline syntax, rebuilt from tokens and repaired.
    Inline(String),
}

/// Picks the stylesheet text: a quoted literal names a file whose content is
/// parsed unchanged; anything else is inline syntax, which is repaired.
pub fn stylesheet_input(source: &str) -> (r: StylesheetInput)
    ensures
        match r {
            StylesheetInput::File(p) => is_quoted(source@) && p@ == unquoted(source@),
            StylesheetInput::Inline(t) => !is_quoted(source@) && t@ == repaired(source@),
        },
{
    match path_literal(source) {
        Some(p) => StylesheetInput::File(p),
        None => StylesheetInput::Inline(repair(source)),
    }
}

} // verus!
