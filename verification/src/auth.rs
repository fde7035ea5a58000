use vstd::prelude::*;
use crate::text::str_eq;

verus! {

/// Whether a request may pass: it must present a key, and that key must be
/// the expected key, character for character. A request without a key never
/// passes, whatever key is expected.
pub fn key_accepted(provided: Option<&str>, expected: &str) -> (r: bool)
    ensures
        r == (provided is Some && provided->0@ == expected@),
{
    match provided {
        Some(k) => str_eq(k, expected),
        None => false,
    }
}

} // verus!
