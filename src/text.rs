use vstd::prelude::*;

verus! {

/// What `str::trim` leaves of a text: the text without its leading and
/// trailing white space.
pub uninterp spec fn trimmed(s: Seq<char>) -> Seq<char>;

/// An ASCII letter or digit, which is never white space.
pub open spec fn ascii_alphanumeric(c: char) -> bool {
    ('a' <= c && c <= 'z') || ('A' <= c && c <= 'Z') || ('0' <= c && c <= '9')
}

/// The text starts and ends with an ASCII letter or digit, so trimming
/// keeps it whole.
pub open spec fn plain_ends(s: Seq<char>) -> bool {
    s.len() > 0 && ascii_alphanumeric(s[0]) && ascii_alphanumeric(s[s.len() - 1])
}

/// What trimming leaves of `s`, written out where the ends of `s` are plain.
pub open spec fn trim_result(s: Seq<char>) -> Seq<char> {
    if plain_ends(s) { s } else { trimmed(s) }
}

/// `t` is a contiguous part of `s`.
pub open spec fn contiguous_part(t: Seq<char>, s: Seq<char>) -> bool {
    exists|i: int, j: int| 0 <= i <= j <= s.len() && t == s.subrange(i, j)
}

/// Relies on `str::trim`: returns the text without leading and trailing
/// white space, a contiguous part of it, and the whole text where it starts
/// and ends with an ASCII letter or digit.
#[verifier::external_body]
pub(crate) fn trim_text(s: &str) -> (r: &str)
    ensures
        r@ == trimmed(s@),
        contiguous_part(r@, s@),
        plain_ends(s@) ==> r@ == s@,
{
    s.trim()
}

/// Relies on `String::push`: appends one character.
#[verifier::external_body]
pub(crate) fn push_char(s: &mut String, c: char)
    ensures
        final(s)@ == old(s)@.push(c),
{
    s.push(c);
}

} // verus!
