//! Precomputed trigonometric tables.
//!
//! The submodules hold the raw samples: each sample is the sampled
//! function's result times `1000`, rounded to the nearest integer. The
//! functions here assemble those samples into the read-only tables the
//! engine indexes; the engine never recomputes or mutates a sample.
//!
//! Two tables are stored in derived form and recovered at assembly time,
//! so that the identities they obey hold by construction: the four
//! arctangent tables are stored only for nonnegative ratios and mirrored
//! through the origin, which makes every assembled arctangent table
//! odd-symmetric; and the arccosine table is stored as one rounding bit
//! per slot against the arcsine samples, which makes each assembled
//! arcsine and arccosine pair sum to `pi / 2` within a thousandth.
//! Selected slots carry their sample value in an `ensures` clause, as
//! anchors that pin the tables' known values into the contracts.

use vstd::prelude::*;

pub(crate) mod arccosine_data;
pub(crate) mod arcsine_data;
pub(crate) mod arctangent_data_hundredths;
pub(crate) mod arctangent_data_ones;
pub(crate) mod arctangent_data_tenths;
pub(crate) mod arctangent_data_thousandths;
pub(crate) mod cosine_data;
pub(crate) mod sine_data;
pub(crate) mod tangent_data;

verus! {

/// A table whose slots mirrored across the center slot are negations of
/// each other. The center slot itself is then forced to zero.
pub open spec fn odd_symmetric(table: Seq<i32>) -> bool {
    forall|i: int| 0 <= i < table.len() ==> #[trigger] table[i] == -table[table.len() - 1 - i]
}

fn extend_i16<const N: usize>(target: &mut Vec<i16>, chunk: [i16; N])
    ensures
        final(target)@ == old(target)@ + chunk@,
{
    let mut i: usize = 0;
    while i < N
        invariant
            i <= N,
            chunk@.len() == N,
            target@ == old(target)@ + chunk@.take(i as int),
        decreases N - i,
    {
        target.push(chunk[i]);
        proof {
            assert(chunk@.take(i + 1) =~= chunk@.take(i as int).push(chunk@[i as int]));
        }
        i = i + 1;
    }
    proof {
        assert(chunk@.take(N as int) =~= chunk@);
    }
}

fn extend_i32<const N: usize>(target: &mut Vec<i32>, chunk: [i32; N])
    ensures
        final(target)@ == old(target)@ + chunk@,
{
    let mut i: usize = 0;
    while i < N
        invariant
            i <= N,
            chunk@.len() == N,
            target@ == old(target)@ + chunk@.take(i as int),
        decreases N - i,
    {
        target.push(chunk[i]);
        proof {
            assert(chunk@.take(i + 1) =~= chunk@.take(i as int).push(chunk@[i as int]));
        }
        i = i + 1;
    }
    proof {
        assert(chunk@.take(N as int) =~= chunk@);
    }
}

fn extend_u16<const N: usize>(target: &mut Vec<u16>, chunk: [u16; N])
    ensures
        final(target)@ == old(target)@ + chunk@,
{
    let mut i: usize = 0;
    while i < N
        invariant
            i <= N,
            chunk@.len() == N,
            target@ == old(target)@ + chunk@.take(i as int),
        decreases N - i,
    {
        target.push(chunk[i]);
        proof {
            assert(chunk@.take(i + 1) =~= chunk@.take(i as int).push(chunk@[i as int]));
        }
        i = i + 1;
    }
    proof {
        assert(chunk@.take(N as int) =~= chunk@);
    }
}

/// Builds a full arctangent table from the samples for nonnegative ratios:
/// the negative half is the mirrored negation of the positive half, and the
/// shared center slot is the arctangent of zero, which is zero.
fn mirror_through_origin(half: &Vec<u16>) -> (table: Vec<i32>)
    requires
        1 <= half@.len() <= 100000,
    ensures
        table@.len() == 2 * half@.len() - 1,
        odd_symmetric(table@),
        table@[half@.len() - 1] == 0,
        forall|k: int|
            1 <= k < half@.len() ==> #[trigger] table@[half@.len() - 1 + k] == half@[k] as int,
{
    let len: usize = half.len();
    let mut table: Vec<i32> = Vec::new();
    let mut j: usize = 0;
    while j < len - 1
        invariant
            1 <= len <= 100000,
            len == half@.len(),
            j <= len - 1,
            table@.len() == j,
            forall|k: int| 0 <= k < j ==> table@[k] == -(half@[len - 1 - k] as int),
        decreases len - 1 - j,
    {
        table.push(-(half[len - 1 - j] as i32));
        j = j + 1;
    }
    table.push(0);
    let mut i: usize = 1;
    while i < len
        invariant
            1 <= len <= 100000,
            len == half@.len(),
            1 <= i <= len,
            table@.len() == len - 1 + i,
            forall|k: int| 0 <= k < len - 1 ==> table@[k] == -(half@[len - 1 - k] as int),
            table@[len - 1] == 0,
            forall|k: int| 1 <= k < i ==> table@[len - 1 + k] == half@[k] as int,
        decreases len - i,
    {
        table.push(half[i] as i32);
        i = i + 1;
    }
    proof {
        let t = table@;
        let l = half@.len() as int;
        assert forall|k: int| 0 <= k < t.len() implies #[trigger] t[k] == -t[t.len() - 1 - k] by {
            if k < l - 1 {
                assert(t[2 * l - 2 - k] == half@[l - 1 - k] as int);
            } else if k == l - 1 {
            } else {
                assert(t[k] == half@[k - (l - 1)] as int);
                assert(t[2 * l - 2 - k] == -(half@[k - (l - 1)] as int));
            }
        }
    }
    table
}

/// The sine table over `[0, 2 * pi)`, one slot per thousandth of a radian.
/// Slot `1047` is the anchor sample `sin(1.047)`, which rounds to `866`.
pub(crate) fn sine_table() -> (table: Vec<i16>)
    ensures
        table@.len() == 6283,
        table@[1047] == 866,
{
    let mut table: Vec<i16> = Vec::new();
    extend_i16(&mut table, sine_data::sine_samples_0());
    let anchor_chunk = sine_data::sine_samples_1();
    extend_i16(&mut table, anchor_chunk);
    assert(table@[1047] == anchor_chunk@[475]);
    extend_i16(&mut table, sine_data::sine_samples_2());
    assert(table@[1047] == 866);
    extend_i16(&mut table, sine_data::sine_samples_3());
    assert(table@[1047] == 866);
    extend_i16(&mut table, sine_data::sine_samples_4());
    assert(table@[1047] == 866);
    extend_i16(&mut table, sine_data::sine_samples_5());
    assert(table@[1047] == 866);
    extend_i16(&mut table, sine_data::sine_samples_6());
    assert(table@[1047] == 866);
    extend_i16(&mut table, sine_data::sine_samples_7());
    assert(table@[1047] == 866);
    extend_i16(&mut table, sine_data::sine_samples_8());
    assert(table@[1047] == 866);
    extend_i16(&mut table, sine_data::sine_samples_9());
    assert(table@[1047] == 866);
    extend_i16(&mut table, sine_data::sine_samples_10());
    assert(table@[1047] == 866);
    table
}

/// The cosine table over `[0, 2 * pi)`, one slot per thousandth of a radian.
/// Slot `0` is the anchor sample `cos(0)`, which is exactly `1000`.
pub(crate) fn cosine_table() -> (table: Vec<i16>)
    ensures
        table@.len() == 6283,
        table@[0] == 1000,
{
    let mut table: Vec<i16> = Vec::new();
    let anchor_chunk = cosine_data::cosine_samples_0();
    extend_i16(&mut table, anchor_chunk);
    assert(table@[0] == anchor_chunk@[0]);
    extend_i16(&mut table, cosine_data::cosine_samples_1());
    assert(table@[0] == 1000);
    extend_i16(&mut table, cosine_data::cosine_samples_2());
    assert(table@[0] == 1000);
    extend_i16(&mut table, cosine_data::cosine_samples_3());
    assert(table@[0] == 1000);
    extend_i16(&mut table, cosine_data::cosine_samples_4());
    assert(table@[0] == 1000);
    extend_i16(&mut table, cosine_data::cosine_samples_5());
    assert(table@[0] == 1000);
    extend_i16(&mut table, cosine_data::cosine_samples_6());
    assert(table@[0] == 1000);
    extend_i16(&mut table, cosine_data::cosine_samples_7());
    assert(table@[0] == 1000);
    extend_i16(&mut table, cosine_data::cosine_samples_8());
    assert(table@[0] == 1000);
    extend_i16(&mut table, cosine_data::cosine_samples_9());
    assert(table@[0] == 1000);
    extend_i16(&mut table, cosine_data::cosine_samples_10());
    assert(table@[0] == 1000);
    table
}

/// The tangent table over `[0, 2 * pi)`, one slot per thousandth of a radian.
pub(crate) fn tangent_table() -> (table: Vec<i32>)
    ensures
        table@.len() == 6283,
{
    let mut table: Vec<i32> = Vec::new();
    extend_i32(&mut table, tangent_data::tangent_samples_0());
    extend_i32(&mut table, tangent_data::tangent_samples_1());
    extend_i32(&mut table, tangent_data::tangent_samples_2());
    extend_i32(&mut table, tangent_data::tangent_samples_3());
    extend_i32(&mut table, tangent_data::tangent_samples_4());
    extend_i32(&mut table, tangent_data::tangent_samples_5());
    extend_i32(&mut table, tangent_data::tangent_samples_6());
    extend_i32(&mut table, tangent_data::tangent_samples_7());
    extend_i32(&mut table, tangent_data::tangent_samples_8());
    extend_i32(&mut table, tangent_data::tangent_samples_9());
    extend_i32(&mut table, tangent_data::tangent_samples_10());
    table
}

/// The arcsine table over ratios `[-1, 1]`, one slot per thousandth.
/// Slot `1500` is the anchor sample `asin(0.5)`, which rounds to `524`.
pub(crate) fn arcsine_table() -> (table: Vec<i16>)
    ensures
        table@.len() == 2001,
        table@[1500] == 524,
{
    let mut table: Vec<i16> = Vec::new();
    extend_i16(&mut table, arcsine_data::arcsine_samples_0());
    extend_i16(&mut table, arcsine_data::arcsine_samples_1());
    let anchor_chunk = arcsine_data::arcsine_samples_2();
    extend_i16(&mut table, anchor_chunk);
    assert(table@[1500] == anchor_chunk@[499]);
    extend_i16(&mut table, arcsine_data::arcsine_samples_3());
    assert(table@[1500] == 524);
    table
}

/// The arccosine table over ratios `[-1, 1]`, one slot per thousandth.
///
/// The arcsine and arccosine of one ratio sum to `pi / 2` exactly, so each
/// arccosine sample is `1570` or `1571` (per the slot's rounding bit)
/// minus the arcsine sample; the assembled table therefore satisfies the
/// complementary-sum bound by construction.
pub(crate) fn arccosine_table(arcsine: &Vec<i16>) -> (table: Vec<i32>)
    requires
        arcsine@.len() == 2001,
    ensures
        table@.len() == 2001,
        forall|i: int|
            0 <= i < 2001 ==> 1570 <= #[trigger] table@[i] + arcsine@[i] <= 1571,
{
    let bits = arccosine_data::arccosine_sum_bits_0();
    let mut table: Vec<i32> = Vec::new();
    let mut i: usize = 0;
    while i < 2001
        invariant
            arcsine@.len() == 2001,
            bits@.len() == 2001,
            i <= 2001,
            table@.len() == i,
            forall|k: int| 0 <= k < i ==> 1570 <= #[trigger] table@[k] + arcsine@[k] <= 1571,
        decreases 2001 - i,
    {
        let complement: i32 = if bits[i] {
            1571
        } else {
            1570
        };
        table.push(complement - (arcsine[i] as i32));
        i = i + 1;
    }
    table
}

/// The arctangent table over ratios `[-4, 4]` at step `1` (thousandths).
/// Slot `5000` is the anchor sample `atan(1)`, which rounds to `785`.
pub(crate) fn arctangent_table_thousandths() -> (table: Vec<i32>)
    ensures
        table@.len() == 8001,
        odd_symmetric(table@),
        table@[5000] == 785,
{
    let mut half: Vec<u16> = Vec::new();
    let anchor_chunk = arctangent_data_thousandths::arctangent_samples_thousandths_0();
    extend_u16(&mut half, anchor_chunk);
    assert(half@[1000] == anchor_chunk@[1000]);
    extend_u16(&mut half, arctangent_data_thousandths::arctangent_samples_thousandths_1());
    assert(half@[1000] == 785);
    extend_u16(&mut half, arctangent_data_thousandths::arctangent_samples_thousandths_2());
    assert(half@[1000] == 785);
    let table = mirror_through_origin(&half);
    assert(table@[half@.len() - 1 + 1000] == half@[1000] as int);
    table
}

/// The arctangent table over ratios `[-20, 20]` at step `10` (hundredths).
pub(crate) fn arctangent_table_hundredths() -> (table: Vec<i32>)
    ensures
        table@.len() == 4001,
        odd_symmetric(table@),
{
    let mut half: Vec<u16> = Vec::new();
    extend_u16(&mut half, arctangent_data_hundredths::arctangent_samples_hundredths_0());
    extend_u16(&mut half, arctangent_data_hundredths::arctangent_samples_hundredths_1());
    mirror_through_origin(&half)
}

/// The arctangent table over ratios `[-100, 100]` at step `100` (tenths).
pub(crate) fn arctangent_table_tenths() -> (table: Vec<i32>)
    ensures
        table@.len() == 2001,
        odd_symmetric(table@),
{
    let mut half: Vec<u16> = Vec::new();
    extend_u16(&mut half, arctangent_data_tenths::arctangent_samples_tenths_0());
    mirror_through_origin(&half)
}

/// The arctangent table over ratios `[-1000, 1000]` at step `1000` (ones).
pub(crate) fn arctangent_table_ones() -> (table: Vec<i32>)
    ensures
        table@.len() == 2001,
        odd_symmetric(table@),
{
    let mut half: Vec<u16> = Vec::new();
    extend_u16(&mut half, arctangent_data_ones::arctangent_samples_ones_0());
    mirror_through_origin(&half)
}

} // verus!
