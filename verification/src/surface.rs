//! Surface-configuration choices, decided over plain preference flags: a
//! surface is configured with the first format the caller prefers (and with
//! the first present mode it prefers), falling back to the first one offered.

use vstd::prelude::*;

verus! {

/// The index of the first preferred entry, or zero when none is preferred.
pub fn pick_preferred(preferred: &Vec<bool>) -> (r: usize)
    requires
        preferred@.len() > 0,
    ensures
        r < preferred@.len(),
        (exists|i: int| 0 <= i < preferred@.len() && preferred@[i]) ==> preferred@[r as int] && (
        forall|j: int| 0 <= j < r ==> !preferred@[j]),
        !(exists|i: int| 0 <= i < preferred@.len() && preferred@[i]) ==> r == 0,
{
    let n = preferred.len();
    let mut i: usize = 0;
    while i < n
        invariant
            n == preferred@.len(),
            0 <= i <= n,
            forall|j: int| 0 <= j < i ==> !preferred@[j],
        decreases n - i,
    {
        if preferred[i] {
            return i;
        }
        i += 1;
    }
    0
}

} // verus!
