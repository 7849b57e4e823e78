//! Text operations on names and dates. Whitespace trimming and case folding
//! follow Unicode tables, so their results are named rather than spelled out.
use vstd::prelude::*;
use vstd::std_specs::iter::IteratorSpec;

verus! {

/// The text left once leading and trailing whitespace is removed.
pub uninterp spec fn trimmed(s: Seq<char>) -> Seq<char>;

/// The lower-case form of a text.
pub uninterp spec fn lowercased(s: Seq<char>) -> Seq<char>;

/// The upper-case form of a text.
pub uninterp spec fn uppercased(s: Seq<char>) -> Seq<char>;

/// Every `from` of a text turned into `to`.
pub open spec fn char_replaced(s: Seq<char>, from: char, to: char) -> Seq<char> {
    s.map_values(|c: char| if c == from { to } else { c })
}

/// Relies on `str::trim`: the slice without its leading and trailing whitespace.
#[verifier::external_body]
pub(crate) fn trim(s: &str) -> (r: &str)
    ensures
        r@ == trimmed(s@),
{
    s.trim()
}

/// Relies on `str::to_lowercase`: the lower-case form, a function of the text alone.
#[verifier::external_body]
pub(crate) fn to_lowercase(s: &str) -> (r: String)
    ensures
        r@ == lowercased(s@),
{
    s.to_lowercase()
}

/// Relies on `str::to_uppercase`: the upper-case form, a function of the text alone.
#[verifier::external_body]
pub(crate) fn to_uppercase(s: &str) -> (r: String)
    ensures
        r@ == uppercased(s@),
{
    s.to_uppercase()
}

/// Relies on `str::replace` with a one-character pattern and a one-character
/// replacement: each `from` becomes `to`, every other character stays.
#[verifier::external_body]
pub(crate) fn replace_char(s: &str, from: char, to: char) -> (r: String)
    ensures
        r@ == char_replaced(s@, from, to),
{
    s.replace(from, &to.to_string())
}

/// The number of characters of `s`, counted no further than `cap`.
pub fn char_count_up_to(s: &str, cap: usize) -> (n: usize)
    ensures
        n as int == if s@.len() < cap { s@.len() as int } else { cap as int },
{
    let mut it = s.chars();
    let mut n: usize = 0;
    while n < cap
        invariant
            n <= cap,
            n <= s@.len(),
            it.remaining() == s@.skip(n as int),
        decreases cap - n,
    {
        match it.next() {
            Some(_) => {
                n = n + 1;
            },
            None => {
                assert(s@.skip(n as int).len() == 0);
                return n;
            },
        }
    }
    n
}

} // verus!
