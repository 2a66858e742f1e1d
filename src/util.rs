use vstd::prelude::*;
use vstd::std_specs::cmp::{PartialOrdIs, PartialOrdSpec};

verus! {

/// Restricts `val` to the range from `min` to `max`.
///
/// A value below `min` gives `min`, one above `max` gives `max`, any other
/// value is returned as it is. `min` is tested first.
pub fn clamp<T: PartialOrd>(val: T, min: T, max: T) -> (r: T)
    ensures
        T::obeys_partial_cmp_spec() && val.is_lt(&min) ==> r == min,
        T::obeys_partial_cmp_spec() && !val.is_lt(&min) && val.is_gt(&max) ==> r == max,
        T::obeys_partial_cmp_spec() && !val.is_lt(&min) && !val.is_gt(&max) ==> r == val,
{
    if val < min {
        min
    } else if val > max {
        max
    } else {
        val
    }
}

} // verus!
