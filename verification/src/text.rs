//! Small string utilities shared by the rest of the crate: spec-level views of
//! string sequences, and the few calls into `std` string routines that vstd
//! gives no specification for.

use vstd::prelude::*;

verus! {

/// The character sequences of each string in a sequence of strings.
pub open spec fn views_of(strings: Seq<String>) -> Seq<Seq<char>> {
    strings.map_values(|s: String| s@)
}

pub proof fn lemma_views_of_push(strings: Seq<String>, s: String)
    ensures
        views_of(strings.push(s)) == views_of(strings).push(s@),
{
    assert(views_of(strings.push(s)) =~= views_of(strings).push(s@));
}

pub proof fn lemma_views_of_take(strings: Seq<String>, n: int)
    requires
        0 <= n <= strings.len(),
    ensures
        views_of(strings.take(n)) == views_of(strings).take(n),
{
    assert(views_of(strings.take(n)) =~= views_of(strings).take(n));
}

/// What `str::trim` returns: the input without its leading and trailing
/// whitespace.
pub uninterp spec fn trimmed_of(s: Seq<char>) -> Seq<char>;

/// What `String::from_utf8_lossy` returns: the bytes decoded as UTF-8, with
/// every invalid sequence replaced.
pub uninterp spec fn lossy_decoded(bytes: Seq<u8>) -> Seq<char>;

/// Relies on `str::trim`: removes leading and trailing whitespace; the result
/// depends on the input characters alone.
#[verifier::external_body]
pub(crate) fn trimmed(s: &str) -> (r: String)
    ensures
        r@ == trimmed_of(s@),
{
    s.trim().to_owned()
}

/// Relies on `String::push`: appends the given character at the end of the
/// string.
#[verifier::external_body]
pub(crate) fn push_char(s: &mut String, c: char)
    ensures
        final(s)@ == old(s)@.push(c),
{
    s.push(c);
}

/// Relies on `String::from_utf8_lossy`: decodes the bytes as UTF-8, replacing
/// invalid sequences instead of failing; the result depends on the bytes
/// alone.
#[verifier::external_body]
pub(crate) fn decode_lossy(bytes: &Vec<u8>) -> (r: String)
    ensures
        r@ == lossy_decoded(bytes@),
{
    String::from_utf8_lossy(bytes.as_slice()).into_owned()
}

} // verus!
