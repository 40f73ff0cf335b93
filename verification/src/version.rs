//! Byte-level checks behind the C-callable version query.
//!
//! The boundary that hands the build version to a native caller must return a
//! null-terminated string, so the version bytes may not contain an interior
//! null byte. The check that decides this is the one piece of that boundary
//! that computes anything, and it lives here, verified; the raw-pointer side
//! stays outside the verified core.

use vstd::prelude::*;

verus! {

/// A byte sequence can back a null-terminated C string exactly when no byte
/// of it is zero.
pub open spec fn c_string_safe(s: Seq<u8>) -> bool {
    forall|i: int| 0 <= i < s.len() ==> s[i] != 0
}

/// Decides whether `bytes` can back a null-terminated C string, that is,
/// whether it is free of interior null bytes.
pub fn check_c_string_safe(bytes: &Vec<u8>) -> (r: bool)
    ensures
        r == c_string_safe(bytes@),
{
    let mut i: usize = 0;
    while i < bytes.len()
        invariant
            i <= bytes@.len(),
            forall|j: int| 0 <= j < i ==> bytes@[j] != 0,
        decreases bytes@.len() - i,
    {
        if bytes[i] == 0 {
            return false;
        }
        i = i + 1;
    }
    true
}

} // verus!
