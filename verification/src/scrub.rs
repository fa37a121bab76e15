//! Best-effort clearing of secret material once it is no longer needed.

use vstd::prelude::*;

verus! {

/// Relies on `zeroize`: the string's backing bytes are overwritten before the
/// string is truncated, so the value is left empty.
#[verifier::external_body]
pub(crate) fn zeroize_string(s: &mut String)
    ensures
        final(s)@ == Seq::<char>::empty(),
{
    zeroize::Zeroize::zeroize(s)
}

} // verus!
