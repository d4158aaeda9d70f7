use vstd::prelude::*;

verus! {

/// Slots where the arcsine and arccosine samples of the same ratio sum
/// to `1571` rather than `1570`: the exact arcsine and arccosine of one
/// ratio sum to `pi / 2` (`1570.796...` thousandths), and each sample is
/// rounded separately, so every tabulated pair sums to one of the two.
/// The arccosine table is assembled from these bits and the arcsine
/// samples.
pub(crate) fn arccosine_sum_bits_0() -> [bool; 2001] {
    [
        true, true, false, true, true, true, true, true, true, false, true, true, true, true, true, true,
        false, true, true, false, true, true, false, true, true, true, true, true, false, true, true, true,
        true, true, true, true, false, true, true, false, true, true, true, true, true, false, true, true,
        true, true, true, true, true, true, false, false, false, false, false, false, false, true, true, true,
        true, true, true, false, true, true, true, false, true, true, false, true, true, true, true, false,
        true, false, true, true, true, false, true, false, true, false, true, true, true, true, true, true,
        true, false, true, true, true, true, true, true, false, true, true, true, true, false, true, true,
        true, true, false, true, true, true, true, true, true, true, false, false, false, true, true, true,
        true, true, true, true, true, true, true, true, true, true, true, true, true, true, true, true,
        true, false, false, true, true, true, true, true, true, true, true, false, false, true, true, true,
        true, true, false, true, true, true, true, false, false, true, true, true, false, true, true, true,
        true, false, true, true, true, false, true, true, true, true, true, true, false, true, true, true,
        true, true, true, false, true, true, false, true, true, false, true, true, false, true, true, true,
        true, true, true, true, false, true, true, false, true, true, true, true, false, true, true, true,
        true, true, true, false, true, true, true, true, true, true, false, true, true, true, true, true,
        true, true, true, true, true, false, true, false, true, false, true, false, true, false, true, false,
        true, false, true, false, true, false, true, false, true, false, true, true, true, true, true, true,
        true, true, true, true, false, true, false, true, true, true, true, true, true, false, true, true,
        true, true, true, true, false, true, true, true, true, false, true, true, true, true, false, true,
        true, true, true, false, true, true, true, true, true, true, true, false, true, true, true, true,
        true, true, true, false, true, true, false, true, true, false, true, true, false, true, true, true,
        true, true, true, true, true, true, true, true, false, true, true, false, true, true, false, true,
        true, false, true, true, true, true, true, true, true, true, true, false, true, true, true, true,
        true, true, false, true, true, false, true, true, true, false, true, true, true, true, true, true,
        false, true, true, true, false, true, true, true, false, true, true, true, false, true, true, true,
        false, true, true, true, false, true, true, true, false, true, true, true, false, true, true, true,
        false, true, true, true, true, false, true, true, true, false, true, true, true, true, false, true,
        true, true, false, true, true, true, true, false, true, true, true, true, false, true, true, true,
        true, false, true, true, true, true, false, true, true, true, true, false, true, true, true, true,
        false, false, true, true, true, true, false, true, true, true, true, true, false, true, true, true,
        true, false, false, true, true, true, true, false, false, true, true, true, true, false, false, true,
        true, true, true, true, false, true, true, true, true, true, false, false, true, true, true, true,
        true, false, false, true, true, true, true, true, false, false, true, true, true, true, true, false,
        false, true, true, true, true, true, true, false, false, true, true, true, true, true, true, false,
        true, true, true, true, true, true, true, false, false, true, true, true, true, true, true, true,
        false, true, true, true, true, true, true, true, true, false, true, true, true, true, true, true,
        true, true, false, false, true, true, true, true, true, true, true, true, false, false, true, true,
        true, true, true, true, true, true, false, false, false, true, true, true, true, true, true, true,
        true, true, false, false, true, true, true, true, true, true, true, true, true, true, false, false,
        true, true, true, true, true, true, true, true, true, true, true, false, false, true, true, true,
        true, true, true, true, true, true, true, true, true, false, false, false, true, true, true, true,
        true, true, true, true, true, true, true, true, false, false, false, true, true, true, true, true,
        true, true, true, true, true, true, true, true, true, false, false, false, false, true, true, true,
        true, true, true, true, true, true, true, true, true, true, true, true, false, false, false, false,
        false, true, true, true, true, true, true, true, true, true, true, true, true, true, true, true,
        true, true, true, false, false, false, false, false, true, true, true, true, true, true, true, true,
        true, true, true, true, true, true, true, true, true, true, true, true, true, true, false, false,
        false, false, false, false, true, true, true, true, true, true, true, true, true, true, true, true,
        true, true, true, true, true, true, true, true, true, true, true, true, true, true, true, true,
        true, false, false, false, false, false, false, false, false, false, true, true, true, true, true, true,
        true, true, true, true, true, true, true, true, true, true, true, true, true, true, true, true,
        true, true, true, true, true, true, true, true, true, true, true, true, true, true, true, true,
        true, true, true, true, true, true, true, true, false, false, false, false, false, false, false, false,
        false, false, false, false, false, false, false, false, false, true, true, true, true, true, true, true,
        true, true, true, true, true, true, true, true, true, true, true, true, true, true, true, true,
        true, true, true, true, true, true, true, true, true, true, true, true, true, true, true, true,
        true, true, true, true, true, true, true, true, true, true, true, true, true, true, true, true,
        true, true, true, true, true, true, true, true, true, true, true, true, true, true, true, true,
        true, true, true, true, true, true, true, true, true, true, true, true, true, true, true, true,
        true, true, true, true, true, true, true, true, true, true, true, true, true, true, true, true,
        true, true, true, true, true, true, true, true, true, true, true, true, true, true, true, true,
        true, true, true, true, true, true, true, true, true, true, true, true, true, true, true, true,
        true, true, true, true, true, true, true, true, true, true, true, true, true, true, true, true,
        true, true, true, true, true, true, true, true, true, true, true, true, true, true, true, true,
        true, true, true, true, true, true, true, true, true, true, true, true, true, true, true, true,
        true, true, true, true, true, true, true, true, true, true, true, true, true, true, true, true,
        true, true, true, true, true, true, true, true, true, true, true, true, true, true, true, true,
        true, true, true, true, true, true, true, true, true, true, true, true, true, true, true, true,
        true, true, true, true, true, true, true, true, true, true, true, true, true, true, true, true,
        true, true, true, true, true, true, true, true, true, true, true, true, true, true, true, true,
        true, false, false, false, false, false, false, false, false, false, false, false, false, false, false, false,
        false, false, false, false, false, false, false, false, true, true, true, true, true, true, true, true,
        true, true, true, true, true, true, true, true, true, true, true, true, true, true, true, true,
        true, true, true, true, true, true, true, true, true, true, true, true, true, true, true, true,
        true, true, true, true, true, true, true, true, true, true, true, true, true, false, false, false,
        false, false, false, false, false, false, false, true, true, true, true, true, true, true, true, true,
        true, true, true, true, true, true, true, true, true, true, true, true, true, true, true, true,
        true, true, true, true, true, true, false, false, false, false, false, false, false, true, true, true,
        true, true, true, true, true, true, true, true, true, true, true, true, true, true, true, true,
        true, true, true, true, false, false, false, false, false, true, true, true, true, true, true, true,
        true, true, true, true, true, true, true, true, true, true, true, true, false, false, false, false,
        true, true, true, true, true, true, true, true, true, true, true, true, true, true, true, true,
        false, false, false, false, true, true, true, true, true, true, true, true, true, true, true, true,
        true, true, false, false, false, false, true, true, true, true, true, true, true, true, true, true,
        true, true, false, false, false, true, true, true, true, true, true, true, true, true, true, true,
        true, false, false, false, true, true, true, true, true, true, true, true, true, true, false, false,
        false, true, true, true, true, true, true, true, true, true, true, false, false, true, true, true,
        true, true, true, true, true, true, false, false, true, true, true, true, true, true, true, true,
        true, false, false, true, true, true, true, true, true, true, true, false, false, true, true, true,
        true, true, true, true, true, false, false, true, true, true, true, true, true, true, false, false,
        true, true, true, true, true, true, true, false, true, true, true, true, true, true, true, false,
        false, true, true, true, true, true, true, false, true, true, true, true, true, true, true, false,
        true, true, true, true, true, true, false, true, true, true, true, true, true, false, true, true,
        true, true, true, true, false, true, true, true, true, true, true, false, true, true, true, true,
        true, false, true, true, true, true, true, false, true, true, true, true, true, false, true, true,
        true, true, true, false, true, true, true, true, true, false, true, true, true, true, false, true,
        true, true, true, true, false, true, true, true, true, false, true, true, true, true, false, true,
        true, true, true, false, true, true, true, true, false, true, true, true, true, false, true, true,
        true, true, true, true, true, true, false, true, true, true, true, true, true, true, true, false,
        true, true, true, false, true, true, true, false, true, true, true, true, true, true, true, true,
        true, true, true, true, true, true, true, true, true, true, true, false, true, true, true, false,
        true, true, true, false, true, true, true, true, true, true, false, true, true, true, true, true,
        true, false, true, true, false, true, true, true, false, true, true, false, true, true, false, true,
        true, true, true, true, true, true, true, true, true, true, true, false, true, true, false, true,
        true, false, true, true, true, true, true, true, true, true, true, true, false, true, true, false,
        true, true, false, true, true, true, true, false, true, true, false, true, true, true, true, false,
        true, true, true, true, false, true, true, true, true, false, true, true, true, true, false, true,
        false, true, true, true, true, false, true, false, true, true, true, true, true, true, false, true,
        false, true, false, true, true, true, true, true, true, true, true, true, true, true, true, true,
        true, true, true, true, true, true, true, true, true, true, true, true, true, true, true, true,
        false, true, false, true, false, true, true, true, true, true, true, false, true, true, true, true,
        false, true, false, true, true, true, true, false, true, true, false, true, true, true, true, false,
        true, true, false, true, true, false, true, true, true, true, true, false, true, true, false, true,
        true, false, true, true, true, true, true, true, false, true, true, true, false, true, true, true,
        false, true, true, true, true, false, true, true, true, true, false, true, true, true, true, false,
        true, true, true, true, true, true, false, false, true, true, true, true, true, true, true, true,
        false, false, false, false, true, true, true, true, true, true, true, true, true, true, true, true,
        true, false, false, false, true, true, true, true, true, true, true, true, false, false, true, true,
        true, true, false, true, true, true, true, false, true, true, true, false, true, true, false, true,
        true, false, true, true, false, true, true, true, true, true, true, true, true, false, true, true,
        true, true, true, true, false, true, true, false, true, true, false, true, true, true, false, true,
        true, true, true, true, true, true, true, true, true, true, true, true, true, true, true, false,
        true, true, false, true, true, false, true, false, true, true, true, true, true, false, true, true,
        true, true, true, false, true, true, true, true, true, true, true, false, false, true, true, true,
        true, false, true, false, true, false, true, true, true, false, true, true, false, false, true, true,
        true,
    ]
}

} // verus!
