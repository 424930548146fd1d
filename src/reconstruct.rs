//! Rebuilding approximate source text from the tokens of an invocation.
use vstd::prelude::*;

verus! {

/// The text of each token, in order.
pub open spec fn token_texts(tokens: Seq<String>) -> Seq<Seq<char>> {
    tokens.map_values(|t: String| t@)
}

/// The token texts with one space between each two of them.
pub open spec fn joined(texts: Seq<Seq<char>>) -> Seq<char>
    decreases texts.len(),
{
    if texts.len() == 0 {
        Seq::empty()
    } else if texts.len() == 1 {
        texts[0]
    } else {
        joined(texts.drop_last()) + seq![' '] + texts.last()
    }
}

/// Rebuilds text from tokens: their texts in order, one space between each two.
pub fn reconstruct(tokens: &Vec<String>) -> (r: String)
    ensures
        r@ == joined(token_texts(tokens@)),
{
    let mut text = String::new();
    let n = tokens.len();
    let mut i: usize = 0;
    while i < n
        invariant
            i <= n,
            n == tokens@.len(),
            text@ == joined(token_texts(tokens@.subrange(0, i as int))),
        decreases n - i,
    {
        let ghost before = tokens@.subrange(0, i as int);
        proof {
            reveal_strlit(" ");
        }
        if i > 0 {
            text.append(" ");
        }
        text.append(tokens[i].as_str());
        proof {
            let after = tokens@.subrange(0, i + 1);
            assert(token_texts(after).drop_last() =~= token_texts(before));
            assert(token_texts(after).last() == tokens@[i as int]@);
            if i == 0 {
                assert(text@ =~= joined(token_texts(after)));
            } else {
                assert(text@ =~= joined(token_texts(before)) + seq![' '] + tokens@[i as int]@);
            }
        }
        i = i + 1;
    }
    assert(tokens@.subrange(0, n as int) =~= tokens@);
    text
}

} // verus!
