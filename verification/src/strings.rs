//! Small executable helpers for building and comparing strings.

use vstd::prelude::*;

verus! {

/// Compares two string slices; true exactly when their character
/// sequences are equal.
pub fn str_eq(a: &str, b: &str) -> (r: bool)
    ensures
        r == (a@ == b@),
{
    let a_owned: String = a.to_owned();
    let b_owned: String = b.to_owned();
    a_owned == b_owned
}

/// Relies on String::push: appends exactly one character to the end.
#[verifier::external_body]
pub fn push_char(s: &mut String, c: char)
    ensures
        final(s)@ == old(s)@.push(c),
{
    s.push(c)
}

} // verus!
