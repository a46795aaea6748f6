use vstd::prelude::*;

verus! {

/// Whether the checkerboard cell with integer coordinates `(s, t)` takes the
/// first of the two colors: the cells whose coordinates have an even sum.
pub fn checker_picks_first(s: i64, t: i64) -> (r: bool)
    ensures
        r == ((s + t) % 2 == 0),
{
    let sum = s as i128 + t as i128;
    sum % 2 == 0
}

} // verus!
