//! Verified text helpers: equality of string slices and of optional strings,
//! used wherever device types, register kinds and semantic keys are compared.

use vstd::prelude::*;

verus! {

/// Compares two string slices character by character.
pub fn str_eq(a: &str, b: &str) -> (r: bool)
    ensures
        r == (a@ == b@),
{
    let alen = a.unicode_len();
    let blen = b.unicode_len();
    if alen != blen {
        proof {
            assert(a@ != b@);
        }
        return false;
    }
    let mut i: usize = 0;
    while i < alen
        invariant
            i <= alen,
            alen == a@.len(),
            blen == b@.len(),
            alen == blen,
            forall|j: int| 0 <= j < i ==> a@[j] == b@[j],
        decreases alen - i,
    {
        if a.get_char(i) != b.get_char(i) {
            proof {
                assert(a@[i as int] != b@[i as int]);
            }
            return false;
        }
        i += 1;
    }
    proof {
        assert(a@ =~= b@);
    }
    true
}

/// Compares two optional strings; `None` equals only `None`.
pub fn opt_string_eq(a: &Option<String>, b: &Option<String>) -> (r: bool)
    ensures
        r == match (a, b) {
            (Some(x), Some(y)) => x@ == y@,
            (None, None) => true,
            _ => false,
        },
{
    match (a, b) {
        (Some(x), Some(y)) => str_eq(x.as_str(), y.as_str()),
        (None, None) => true,
        _ => false,
    }
}

/// Whether an optional string holds exactly the given text.
pub fn opt_string_is(a: &Option<String>, b: &str) -> (r: bool)
    ensures
        r == match a {
            Some(x) => x@ == b@,
            None => false,
        },
{
    match a {
        Some(x) => str_eq(x.as_str(), b),
        None => false,
    }
}

} // verus!
