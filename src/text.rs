//! Small text helpers for labels.

use vstd::prelude::*;
use vstd::std_specs::iter::IteratorSpec;

verus! {

/// The upper-case mapping of a character, which may be several characters.
pub uninterp spec fn upper_of(c: char) -> Seq<char>;

/// Relies on `char::to_uppercase`: the result depends on the character alone.
#[verifier::external_body]
fn uppercase(c: char) -> (r: String)
    ensures
        r@ == upper_of(c),
{
    c.to_uppercase().collect::<String>()
}

/// Relies on `String::push`: appends one character.
#[verifier::external_body]
fn push_char(s: &mut String, c: char)
    ensures
        final(s)@ == old(s)@.push(c),
{
    s.push(c)
}

/// `s` with its first character in upper case.
pub open spec fn capitalized(s: Seq<char>) -> Seq<char> {
    if s.len() == 0 {
        Seq::empty()
    } else {
        upper_of(s[0]) + s.skip(1)
    }
}

/// Capitalizes the first character of `s`.
pub fn capitalize(s: &str) -> (r: String)
    ensures
        r@ == capitalized(s@),
{
    let mut r = String::new();
    let mut first = true;
    for c in chars: s.chars()
        invariant
            chars.seq() == s@,
            first <==> chars.index() == 0,
            first ==> r@ == Seq::<char>::empty(),
            !first ==> r@ == upper_of(s@[0]) + s@.subrange(1, chars.index() as int),
    {
        if first {
            r = uppercase(c);
            first = false;
            assert(r@ =~= upper_of(s@[0]) + s@.subrange(1, 1));
        } else {
            push_char(&mut r, c);
            assert(r@ =~= upper_of(s@[0]) + s@.subrange(1, chars.index() + 1));
        }
    }
    proof {
        if s@.len() > 0 {
            assert(s@.subrange(1, s@.len() as int) =~= s@.skip(1));
        }
    }
    r
}

} // verus!
