//! How the library writes stored columns: booleans as `0`/`1` flags, and
//! optional patch fields that either replace a stored value or keep it.

use vstd::prelude::*;

verus! {

/// The stored flag of a boolean.
pub open spec fn flag(b: bool) -> i8 {
    if b {
        1
    } else {
        0
    }
}

/// `b as i8`: the stored flag of a boolean.
pub fn flag_byte(b: bool) -> (r: i8)
    ensures
        r == flag(b),
{
    if b {
        1
    } else {
        0
    }
}

/// A patched value: the given one, else the stored one (SQL `COALESCE`).
pub open spec fn patched<T>(stored: T, given: Option<T>) -> T {
    match given {
        Some(v) => v,
        None => stored,
    }
}

} // verus!
