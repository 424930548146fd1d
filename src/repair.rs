//! Pattern-based repair of reconstructed stylesheet text.
//!
//! Rebuilding text from tokens puts one space between every two tokens, which
//! splits `.foo` into `. foo` and `margin-left` into `margin - left`. Two fixed
//! regular expressions undo exactly these two defects, in this order.
use vstd::prelude::*;

verus! {

/// Matches a selector marker, one whitespace character, and a name.
pub const SELECTOR_MATCHER: &'static str = "(?P<type>[.#])\\s(?P<name>[a-zA-Z0-9]+)";

/// Rejoins the selector marker and the name.
pub const SELECTOR_REWRITE: &'static str = "${type}${name}";

/// Matches two name fragments around a spaced hyphen, then one whitespace character.
pub const HYPHEN_MATCHER: &'static str = "(?P<start>[a-zA-Z0-9]+)\\s-\\s(?P<end>[a-zA-Z0-9]+)\\s";

/// Rejoins the fragments with a bare hyphen and ends them with one space.
pub const HYPHEN_REWRITE: &'static str = "${start}-${end} ";

/// The characters of `\s`: Unicode's White_Space property.
pub open spec fn is_white(c: char) -> bool {
    let n = c as u32;
    (0x09 <= n && n <= 0x0d) || n == 0x20 || n == 0x85 || n == 0xa0 || n == 0x1680 || (0x2000
        <= n && n <= 0x200a) || n == 0x2028 || n == 0x2029 || n == 0x202f || n == 0x205f || n
        == 0x3000
}

/// The characters of `[a-zA-Z0-9]`.
pub open spec fn is_name_char(c: char) -> bool {
    ('a' <= c && c <= 'z') || ('A' <= c && c <= 'Z') || ('0' <= c && c <= '9')
}

/// The number of name characters that follow one another from position `i`.
pub open spec fn name_run(s: Seq<char>, i: int) -> nat
    decreases s.len() - i,
{
    if 0 <= i < s.len() && is_name_char(s[i]) {
        1 + name_run(s, i + 1)
    } else {
        0
    }
}

/// A name run never reaches past the end of the text.
pub proof fn lemma_name_run_bound(s: Seq<char>, i: int)
    requires
        0 <= i,
    ensures
        i + name_run(s, i) <= if i <= s.len() { s.len() as int } else { i },
    decreases s.len() - i,
{
    if 0 <= i < s.len() && is_name_char(s[i]) {
        lemma_name_run_bound(s, i + 1);
    }
}

/// `SELECTOR_MATCHER` matches at position `i`.
pub open spec fn selector_at(s: Seq<char>, i: int) -> bool {
    &&& 0 <= i
    &&& i + 2 < s.len()
    &&& (s[i] == '.' || s[i] == '#')
    &&& is_white(s[i + 1])
    &&& name_run(s, i + 2) > 0
}

/// Where the first fragment of a spaced hyphen starting at `i` ends.
pub open spec fn hyphen_mid(s: Seq<char>, i: int) -> int {
    i + name_run(s, i)
}

/// Where the second fragment of a spaced hyphen starting at `i` ends.
pub open spec fn hyphen_end(s: Seq<char>, i: int) -> int {
    hyphen_mid(s, i) + 3 + name_run(s, hyphen_mid(s, i) + 3)
}

/// `HYPHEN_MATCHER` matches at position `i`: both name runs are whole,
/// since a match can only go on with whitespace after each of them.
pub open spec fn hyphen_at(s: Seq<char>, i: int) -> bool {
    let j = hyphen_mid(s, i);
    let k = hyphen_end(s, i);
    &&& 0 <= i
    &&& name_run(s, i) > 0
    &&& j + 2 < s.len()
    &&& is_white(s[j])
    &&& s[j + 1] == '-'
    &&& is_white(s[j + 2])
    &&& name_run(s, j + 3) > 0
    &&& k < s.len()
    &&& is_white(s[k])
}

/// Every selector match from position `i` on, left to right and without
/// overlap, rewritten to the marker followed by the name.
pub open spec fn selectors_rejoined_from(s: Seq<char>, i: int) -> Seq<char>
    decreases s.len() - i
    via selectors_rejoined_decreases
{
    if i < 0 || i >= s.len() {
        Seq::empty()
    } else if selector_at(s, i) {
        let e = i + 2 + name_run(s, i + 2);
        seq![s[i]] + s.subrange(i + 2, e) + selectors_rejoined_from(s, e)
    } else {
        seq![s[i]] + selectors_rejoined_from(s, i + 1)
    }
}

#[via_fn]
proof fn selectors_rejoined_decreases(s: Seq<char>, i: int) {
    if 0 <= i < s.len() {
        lemma_name_run_bound(s, i + 2);
    }
}

/// What replacing every match of `SELECTOR_MATCHER` by `SELECTOR_REWRITE` makes of `s`.
pub open spec fn selectors_rejoined(s: Seq<char>) -> Seq<char> {
    selectors_rejoined_from(s, 0)
}

/// Every spaced-hyphen match from position `i` on, left to right and without
/// overlap, rewritten to the two fragments joined by a hyphen and one space.
pub open spec fn hyphens_rejoined_from(s: Seq<char>, i: int) -> Seq<char>
    decreases s.len() - i
    via hyphens_rejoined_decreases
{
    if i < 0 || i >= s.len() {
        Seq::empty()
    } else if hyphen_at(s, i) {
        let j = hyphen_mid(s, i);
        let k = hyphen_end(s, i);
        s.subrange(i, j) + seq!['-'] + s.subrange(j + 3, k) + seq![' '] + hyphens_rejoined_from(
            s,
            k + 1,
        )
    } else {
        seq![s[i]] + hyphens_rejoined_from(s, i + 1)
    }
}

#[via_fn]
proof fn hyphens_rejoined_decreases(s: Seq<char>, i: int) {
    if 0 <= i < s.len() {
        lemma_name_run_bound(s, i);
        lemma_name_run_bound(s, hyphen_mid(s, i) + 3);
    }
}

/// What replacing every match of `HYPHEN_MATCHER` by `HYPHEN_REWRITE` makes of `s`.
pub open spec fn hyphens_rejoined(s: Seq<char>) -> Seq<char> {
    hyphens_rejoined_from(s, 0)
}

/// The whole repair: selectors first, then hyphenated names.
pub open spec fn repaired(s: Seq<char>) -> Seq<char> {
    hyphens_rejoined(selectors_rejoined(s))
}

/// Neither defect occurs anywhere in `s`.
pub open spec fn free_of_defects(s: Seq<char>) -> bool {
    &&& forall|i: int| 0 <= i < s.len() ==> !#[trigger] selector_at(s, i)
    &&& forall|i: int| 0 <= i < s.len() ==> !#[trigger] hyphen_at(s, i)
}

proof fn lemma_selectors_untouched(s: Seq<char>, i: int)
    requires
        0 <= i <= s.len(),
        forall|j: int| i <= j < s.len() ==> !#[trigger] selector_at(s, j),
    ensures
        selectors_rejoined_from(s, i) == s.subrange(i, s.len() as int),
    decreases s.len() - i,
{
    if i < s.len() {
        lemma_selectors_untouched(s, i + 1);
        assert(selectors_rejoined_from(s, i) =~= s.subrange(i, s.len() as int));
    } else {
        assert(selectors_rejoined_from(s, i) =~= s.subrange(i, s.len() as int));
    }
}

proof fn lemma_hyphens_untouched(s: Seq<char>, i: int)
    requires
        0 <= i <= s.len(),
        forall|j: int| i <= j < s.len() ==> !#[trigger] hyphen_at(s, j),
    ensures
        hyphens_rejoined_from(s, i) == s.subrange(i, s.len() as int),
    decreases s.len() - i,
{
    if i < s.len() {
        lemma_hyphens_untouched(s, i + 1);
        assert(hyphens_rejoined_from(s, i) =~= s.subrange(i, s.len() as int));
    } else {
        assert(hyphens_rejoined_from(s, i) =~= s.subrange(i, s.len() as int));
    }
}

/// Repair leaves text that has neither defect exactly as it is.
pub proof fn lemma_repair_keeps_clean_text(t: Seq<char>)
    requires
        free_of_defects(t),
    ensures
        repaired(t) == t,
{
    lemma_selectors_untouched(t, 0);
    assert(selectors_rejoined(t) =~= t);
    lemma_hyphens_untouched(t, 0);
    assert(hyphens_rejoined(t) =~= t);
}

/// Relies on regex::Regex::new, which accepts both matchers, and on
/// Regex::replace_all, which rewrites every non-overlapping leftmost-first match.
#[verifier::external_body]
fn replace_all_matches(matcher: &str, text: &str, rewrite: &str) -> (r: String)
    requires
        (matcher@ == SELECTOR_MATCHER@ && rewrite@ == SELECTOR_REWRITE@) || (matcher@
            == HYPHEN_MATCHER@ && rewrite@ == HYPHEN_REWRITE@),
    ensures
        matcher@ == SELECTOR_MATCHER@ && rewrite@ == SELECTOR_REWRITE@ ==> r@ == selectors_rejoined(
            text@,
        ),
        matcher@ == HYPHEN_MATCHER@ && rewrite@ == HYPHEN_REWRITE@ ==> r@ == hyphens_rejoined(
            text@,
        ),
{
    regex::Regex::new(matcher).unwrap().replace_all(text, rewrite).into_owned()
}

/// Rejoins every selector marker with the name after it.
pub fn rejoin_selectors(text: &str) -> (r: String)
    ensures
        r@ == selectors_rejoined(text@),
{
    replace_all_matches(SELECTOR_MATCHER, text, SELECTOR_REWRITE)
}

/// Rejoins every spaced hyphen between two name fragments.
pub fn rejoin_hyphens(text: &str) -> (r: String)
    ensures
        r@ == hyphens_rejoined(text@),
{
    replace_all_matches(HYPHEN_MATCHER, text, HYPHEN_REWRITE)
}

/// Applies both repairs, in their fixed order.
pub fn repair(text: &str) -> (r: String)
    ensures
        r@ == repaired(text@),
{
    let selectors = rejoin_selectors(text);
    rejoin_hyphens(selectors.as_str())
}

} // verus!
