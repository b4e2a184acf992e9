//! Small string helpers shared by the core.

use vstd::prelude::*;

verus! {

/// Relies on `str::eq`: equality of two string slices is equality of their
/// character sequences.
#[verifier::external_body]
pub(crate) fn string_eq_str(s: &String, t: &str) -> (r: bool)
    ensures
        r == (s@ == t@),
{
    *s == t
}

} // verus!
