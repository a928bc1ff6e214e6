//! What the library takes from the standard library's strings.

use vstd::prelude::*;
use vstd::string::*;

verus! {

/// Tells whether two texts are the same.
pub(crate) fn same_text(a: &str, b: &str) -> (r: bool)
    ensures
        r == (a@ == b@),
{
    let x = a.to_owned();
    let y = b.to_owned();
    x == y
}

/// What `str::trim_end` returns for the text `s`.
pub uninterp spec fn trimmed_end(s: Seq<char>) -> Seq<char>;

/// `str::trim_end` returns the text without its trailing whitespace, which
/// is a prefix of the text.
#[verifier::external_body]
pub(crate) fn trim_end(s: &str) -> (r: &str)
    ensures
        r@ == trimmed_end(s@),
        r@.is_prefix_of(s@),
{
    s.trim_end()
}

/// What `str::to_lowercase` returns for the text `s`.
pub uninterp spec fn lowercased(s: Seq<char>) -> Seq<char>;

/// `str::to_lowercase` returns the text in lower case.
#[verifier::external_body]
pub(crate) fn to_lowercase(s: &str) -> (r: String)
    ensures
        r@ == lowercased(s@),
{
    s.to_lowercase()
}

/// `String::push` appends one character to the text.
#[verifier::external_body]
pub(crate) fn push_char(s: &mut String, c: char)
    ensures
        final(s)@ == old(s)@.push(c),
{
    s.push(c)
}

} // verus!
