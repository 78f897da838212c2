//! Small helpers over `String` and `&str`.

use vstd::prelude::*;
use vstd::string::*;

verus! {

/// Relies on `String::push`: it appends the given character to the end of
/// the string, for which vstd gives no specification.
#[verifier::external_body]
pub fn push_char(s: &mut String, c: char)
    ensures
        final(s)@ == old(s)@.push(c),
{
    s.push(c);
}

/// Character-for-character string equality.
pub fn str_eq(a: &str, b: &str) -> (r: bool)
    ensures
        r == (a@ == b@),
{
    let sa = String::from_str(a);
    let sb = String::from_str(b);
    sa == sb
}

} // verus!
