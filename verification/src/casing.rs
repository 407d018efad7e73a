//! Case normalisation of symbol pairs.
//!
//! Subscription topics carry the lowercase form of a symbol pair, the feed
//! answers with the uppercase form. Both conversions are those of the
//! standard library; their results are named here and not spelled out.

use vstd::prelude::*;

verus! {

/// The text that `str::to_lowercase` returns for `text`.
pub uninterp spec fn lowercase_text(text: Seq<char>) -> Seq<char>;

/// The text that `str::to_uppercase` returns for `text`.
pub uninterp spec fn uppercase_text(text: Seq<char>) -> Seq<char>;

/// The views of the strings of `items`, in order.
pub open spec fn texts(items: Seq<String>) -> Seq<Seq<char>> {
    Seq::new(items.len(), |i: int| items[i]@)
}

/// `texts(items)` with every entry lowercased.
pub open spec fn lowercase_texts(items: Seq<String>) -> Seq<Seq<char>> {
    Seq::new(items.len(), |i: int| lowercase_text(items[i]@))
}

/// Calls `str::to_lowercase`. Trusted: the result is the named lowercase
/// form of the argument, a function of the argument's characters alone.
#[verifier::external_body]
pub(crate) fn to_lower(text: &str) -> (r: String)
    ensures
        r@ == lowercase_text(text@),
{
    text.to_lowercase()
}

/// Calls `str::to_uppercase`. Trusted: the result is the named uppercase
/// form of the argument, a function of the argument's characters alone.
#[verifier::external_body]
pub(crate) fn to_upper(text: &str) -> (r: String)
    ensures
        r@ == uppercase_text(text@),
{
    text.to_uppercase()
}

/// Lowercases every symbol pair, keeping their order and number.
pub fn normalize_symbols(raw: &Vec<String>) -> (r: Vec<String>)
    ensures
        texts(r@) == lowercase_texts(raw@),
{
    let mut out: Vec<String> = Vec::new();
    let mut i: usize = 0;
    while i < raw.len()
        invariant
            i <= raw.len(),
            out.len() == i,
            forall|k: int| 0 <= k < i ==> out[k]@ == lowercase_text(raw[k]@),
        decreases raw.len() - i,
    {
        out.push(to_lower(raw[i].as_str()));
        i += 1;
    }
    assert(texts(out@) =~= lowercase_texts(raw@));
    out
}

} // verus!
