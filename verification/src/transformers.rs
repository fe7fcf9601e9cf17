use vstd::prelude::*;

verus! {

/// Boolean fields may arrive encoded as integers in some wire formats:
/// any nonzero integer reads as true.
pub fn bool_from_int(value: u64) -> (r: bool)
    ensures
        r == (value != 0),
{
    value != 0
}

/// The canonical wire encoding of a boolean is the integer 0 or 1.
pub fn bool_to_int(x: bool) -> (r: u64)
    ensures
        r == (if x {
            1u64
        } else {
            0u64
        }),
{
    if x {
        1
    } else {
        0
    }
}

} // verus!
