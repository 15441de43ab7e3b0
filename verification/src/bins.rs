//! Assignment of FFT bins to spectrum bars.
//!
//! The logarithmic frequency boundaries of the bars are computed in floating
//! point by the caller and floored to bin positions; what happens to those
//! positions here decides which FFT bins every bar averages over.

use vstd::prelude::*;

verus! {

/// The highest bin index a bar may start at: `num_bins - 1`, or 0 when there
/// are no bins.
pub open spec fn last_bin(num_bins: usize) -> int {
    if num_bins > 0 { num_bins - 1 } else { 0 }
}

/// The first bin of a bar before it is pushed apart from its left neighbour.
pub open spec fn raw_lo(raw: Seq<(usize, usize)>, num_bins: usize, i: int) -> int {
    if raw[i].0 < last_bin(num_bins) { raw[i].0 as int } else { last_bin(num_bins) }
}

/// The first bin of bar `i`.  A bar that would start at or before the first
/// bin of the previous bar starts one bin after it instead, as long as that
/// bin exists.
pub open spec fn bar_lo(raw: Seq<(usize, usize)>, num_bins: usize, i: int) -> int
    decreases i,
{
    if i <= 0 {
        raw_lo(raw, num_bins, 0)
    } else {
        let prev = bar_lo(raw, num_bins, i - 1);
        if raw_lo(raw, num_bins, i) <= prev && prev + 1 < num_bins {
            prev + 1
        } else {
            raw_lo(raw, num_bins, i)
        }
    }
}

/// Whether bar `i` was pushed one bin past its left neighbour.
pub open spec fn pushed(raw: Seq<(usize, usize)>, num_bins: usize, i: int) -> bool {
    0 < i && raw_lo(raw, num_bins, i) <= bar_lo(raw, num_bins, i - 1)
        && bar_lo(raw, num_bins, i - 1) + 1 < num_bins
}

/// The end (exclusive) of bar `i` before its right neighbour is considered:
/// at least one bin past its start, at most `num_bins`.
pub open spec fn own_hi(raw: Seq<(usize, usize)>, num_bins: usize, i: int) -> int {
    let lo = bar_lo(raw, num_bins, i);
    let wide = if raw[i].1 > lo + 1 { raw[i].1 as int } else { lo + 1 };
    if wide < num_bins { wide } else { num_bins as int }
}

/// The end (exclusive) of bar `i`: cut back to the start of the next bar when
/// that bar was pushed into it.
pub open spec fn bar_hi(raw: Seq<(usize, usize)>, num_bins: usize, i: int) -> int {
    if i + 1 < raw.len() && pushed(raw, num_bins, i + 1)
        && own_hi(raw, num_bins, i) > bar_lo(raw, num_bins, i + 1) {
        bar_lo(raw, num_bins, i + 1)
    } else {
        own_hi(raw, num_bins, i)
    }
}

proof fn lemma_bar_lo_bounds(raw: Seq<(usize, usize)>, num_bins: usize, i: int)
    requires
        0 <= i < raw.len(),
    ensures
        0 <= bar_lo(raw, num_bins, i) <= last_bin(num_bins),
    decreases i,
{
    if i > 0 {
        lemma_bar_lo_bounds(raw, num_bins, i - 1);
    }
}

/// Assign each bar a half-open range of FFT bins.
///
/// `raw[i]` holds the floored bin positions of bar `i`'s lower and upper
/// frequency.  Bars that would start at or before their left neighbour are
/// pushed one bin to the right (while bins remain), and the neighbour's range
/// is cut so the two do not overlap; every bar covers at least one bin and no
/// bin at or past `num_bins`.
pub fn bin_ranges(raw: &[(usize, usize)], num_bins: usize) -> (ranges: Vec<(usize, usize)>)
    ensures
        ranges@.len() == raw@.len(),
        forall|i: int| 0 <= i < raw@.len() ==> ranges@[i].0 == bar_lo(raw@, num_bins, i),
        forall|i: int| 0 <= i < raw@.len() ==> ranges@[i].1 == bar_hi(raw@, num_bins, i),
        // every bar covers at least one bin and stays inside the spectrum
        num_bins > 0 ==> forall|i: int|
            0 <= i < raw@.len() ==> #[trigger] ranges@[i].0 < ranges@[i].1 <= num_bins,
        // while bins remain above a bar, the next bar starts strictly after it
        forall|i: int|
            0 < i < raw@.len() && ranges@[i - 1].0 + 1 < num_bins ==> ranges@[i - 1].0
                < #[trigger] ranges@[i].0,
        // a pushed bar never overlaps its left neighbour
        forall|i: int|
            0 < i < raw@.len() && pushed(raw@, num_bins, i) ==> #[trigger] ranges@[i - 1].1
                <= ranges@[i].0,
        // each bar starts at its own (clipped) first bin, unless that is at or
        // before the previous bar's start and a bin remains after it
        forall|i: int|
            0 <= i < raw@.len() ==> #[trigger] ranges@[i].0 == {
                let own_lo = if raw@[i].0 < last_bin(num_bins) {
                    raw@[i].0 as int
                } else {
                    last_bin(num_bins)
                };
                if i > 0 && own_lo <= ranges@[i - 1].0 && ranges@[i - 1].0 + 1 < num_bins {
                    ranges@[i - 1].0 + 1
                } else {
                    own_lo
                }
            },
        // each bar keeps its own upper bin (at least one past its start, at
        // most `num_bins`), unless the next bar was pushed into it
        forall|i: int|
            0 <= i < raw@.len() ==> #[trigger] ranges@[i].1 == {
                let lo = ranges@[i].0 as int;
                let wide = if raw@[i].1 > lo + 1 { raw@[i].1 as int } else { lo + 1 };
                let own_hi = if wide < num_bins { wide } else { num_bins as int };
                if i + 1 < raw@.len() && ranges@[i + 1].0 == lo + 1 && lo + 1 < num_bins && (if raw@[i
                    + 1].0 < last_bin(num_bins) {
                    raw@[i + 1].0 as int
                } else {
                    last_bin(num_bins)
                }) <= lo && own_hi > lo + 1 {
                    lo + 1
                } else {
                    own_hi
                }
            },
        // bars whose raw bins chain up (one ends where the next starts) tile
        // the bins without gaps or overlap below the top of the spectrum
        forall|i: int|
            0 < i < raw@.len() && raw@[i - 1].1 == raw@[i].0 < num_bins && ranges@[i - 1].0 + 1
                < num_bins ==> #[trigger] ranges@[i - 1].1 == ranges@[i].0,
        // neighbours whose raw bins are in order stay apart while they are
        // below the top of the spectrum
        forall|i: int|
            0 < i < raw@.len() && raw@[i - 1].1 <= raw@[i].0 < num_bins && ranges@[i - 1].0 + 1
                < num_bins ==> #[trigger] ranges@[i - 1].1 <= ranges@[i].0,
{
    let cap: usize = if num_bins > 0 { num_bins - 1 } else { 0 };
    let mut ranges: Vec<(usize, usize)> = Vec::new();
    let mut prev_lo: usize = 0;
    let mut i: usize = 0;
    while i < raw.len()
        invariant
            i <= raw@.len(),
            cap == last_bin(num_bins),
            ranges@.len() == i,
            i > 0 ==> prev_lo == bar_lo(raw@, num_bins, i - 1),
            forall|j: int| 0 <= j < i ==> ranges@[j].0 == bar_lo(raw@, num_bins, j),
            forall|j: int| 0 <= j < i - 1 ==> ranges@[j].1 == bar_hi(raw@, num_bins, j),
            i > 0 ==> ranges@[i - 1].1 == own_hi(raw@, num_bins, i - 1),
        decreases raw@.len() - i,
    {
        let (f_lo, f_hi) = raw[i];
        let mut lo: usize = if f_lo < cap { f_lo } else { cap };
        proof {
            if i > 0 {
                lemma_bar_lo_bounds(raw@, num_bins, i - 1);
            }
        }
        if i > 0 && lo <= prev_lo && prev_lo + 1 < num_bins {
            lo = prev_lo + 1;
            let last = ranges.len() - 1;
            let (plo, phi) = ranges[last];
            if phi > lo {
                ranges.set(last, (plo, lo));
            }
        }
        assert(lo == bar_lo(raw@, num_bins, i as int));
        proof {
            lemma_bar_lo_bounds(raw@, num_bins, i as int);
        }
        let wide: usize = if f_hi > lo + 1 { f_hi } else { lo + 1 };
        let hi: usize = if wide < num_bins { wide } else { num_bins };
        prev_lo = lo;
        ranges.push((lo, hi));
        i += 1;
    }
    proof {
        assert forall|j: int| 0 <= j < raw@.len() implies ranges@[j].1 == bar_hi(raw@, num_bins, j) by {
            if j == raw@.len() - 1 {
                assert(ranges@[j].1 == own_hi(raw@, num_bins, j));
            }
        }
        assert forall|j: int| 0 <= j < raw@.len() && num_bins > 0 implies #[trigger] ranges@[j].0
            < ranges@[j].1 <= num_bins by {
            lemma_bar_lo_bounds(raw@, num_bins, j);
            assert(ranges@[j].1 == bar_hi(raw@, num_bins, j));
            if j + 1 < raw@.len() {
                lemma_bar_lo_bounds(raw@, num_bins, j + 1);
                assert(bar_lo(raw@, num_bins, (j + 1) - 1) == bar_lo(raw@, num_bins, j));
            }
        }
        assert forall|j: int| 0 < j < raw@.len() && pushed(raw@, num_bins, j) implies #[trigger] ranges@[j
            - 1].1 <= ranges@[j].0 by {
            assert((j - 1) + 1 == j);
            assert(ranges@[j - 1].1 == bar_hi(raw@, num_bins, j - 1));
        }
        assert forall|j: int| 0 <= j < raw@.len() implies #[trigger] ranges@[j].0 == {
            let own_lo = if raw@[j].0 < last_bin(num_bins) {
                raw@[j].0 as int
            } else {
                last_bin(num_bins)
            };
            if j > 0 && own_lo <= ranges@[j - 1].0 && ranges@[j - 1].0 + 1 < num_bins {
                ranges@[j - 1].0 + 1
            } else {
                own_lo
            }
        } by {
            assert(ranges@[j].0 == bar_lo(raw@, num_bins, j));
            if j > 0 {
                assert(ranges@[j - 1].0 == bar_lo(raw@, num_bins, j - 1));
            }
        }
        assert forall|j: int| 0 <= j < raw@.len() implies #[trigger] ranges@[j].1 == {
            let lo = ranges@[j].0 as int;
            let wide = if raw@[j].1 > lo + 1 { raw@[j].1 as int } else { lo + 1 };
            let own_hi = if wide < num_bins { wide } else { num_bins as int };
            if j + 1 < raw@.len() && ranges@[j + 1].0 == lo + 1 && lo + 1 < num_bins && (if raw@[j
                + 1].0 < last_bin(num_bins) {
                raw@[j + 1].0 as int
            } else {
                last_bin(num_bins)
            }) <= lo && own_hi > lo + 1 {
                lo + 1
            } else {
                own_hi
            }
        } by {
            assert(ranges@[j].0 == bar_lo(raw@, num_bins, j));
            assert(ranges@[j].1 == bar_hi(raw@, num_bins, j));
            lemma_bar_lo_bounds(raw@, num_bins, j);
            if j + 1 < raw@.len() {
                assert((j + 1) - 1 == j);
                assert(ranges@[j + 1].0 == bar_lo(raw@, num_bins, j + 1));
            }
        }
        assert forall|j: int|
            0 < j < raw@.len() && raw@[j - 1].1 == raw@[j].0 < num_bins && ranges@[j - 1].0 + 1
                < num_bins implies #[trigger] ranges@[j - 1].1 == ranges@[j].0 by {
            assert((j - 1) + 1 == j);
            assert(ranges@[j - 1].1 == bar_hi(raw@, num_bins, j - 1));
            assert(ranges@[j - 1].0 == bar_lo(raw@, num_bins, j - 1));
            assert(ranges@[j].0 == bar_lo(raw@, num_bins, j));
        }
        assert forall|j: int|
            0 < j < raw@.len() && raw@[j - 1].1 <= raw@[j].0 < num_bins && ranges@[j - 1].0 + 1
                < num_bins implies #[trigger] ranges@[j - 1].1 <= ranges@[j].0 by {
            assert((j - 1) + 1 == j);
            assert(ranges@[j - 1].1 == bar_hi(raw@, num_bins, j - 1));
            assert(ranges@[j - 1].0 == bar_lo(raw@, num_bins, j - 1));
            assert(ranges@[j].0 == bar_lo(raw@, num_bins, j));
        }
        assert forall|j: int| 0 < j < raw@.len() && ranges@[j - 1].0 + 1 < num_bins implies ranges@[j
            - 1].0 < #[trigger] ranges@[j].0 by {
            assert(ranges@[j - 1].0 == bar_lo(raw@, num_bins, j - 1));
            assert(ranges@[j].0 == bar_lo(raw@, num_bins, j));
        }
    }
    ranges
}

/// A bar reaches up to its own upper bin (widened to one bin, clipped to
/// the spectrum) unless the next bar was pushed into it; and bars whose raw
/// bins chain up, one ending where the next starts, tile the spectrum
/// without gaps below its top.
pub proof fn lemma_bars_keep_their_band(raw: Seq<(usize, usize)>, num_bins: usize, i: int)
    requires
        0 <= i < raw.len(),
    ensures
        !(i + 1 < raw.len() && pushed(raw, num_bins, i + 1)) ==> bar_hi(raw, num_bins, i) == {
            let lo = bar_lo(raw, num_bins, i);
            let wide = if raw[i].1 > lo + 1 { raw[i].1 as int } else { lo + 1 };
            if wide < num_bins { wide } else { num_bins as int }
        },
        i + 1 < raw.len() && pushed(raw, num_bins, i + 1) ==> bar_hi(raw, num_bins, i)
            == bar_lo(raw, num_bins, i) + 1 && bar_lo(raw, num_bins, i + 1) == bar_lo(raw, num_bins, i)
            + 1,
        i + 1 < raw.len() && raw[i].1 == raw[i + 1].0 && raw[i + 1].0 < num_bins && bar_lo(
            raw,
            num_bins,
            i,
        ) + 1 < num_bins ==> bar_hi(raw, num_bins, i) == bar_lo(raw, num_bins, i + 1),
        raw[i].0 < num_bins && raw[i].0 < raw[i].1 <= num_bins && !pushed(raw, num_bins, i) && !(i + 1
            < raw.len() && pushed(raw, num_bins, i + 1)) ==> bar_lo(raw, num_bins, i) == raw[i].0
            && bar_hi(raw, num_bins, i) == raw[i].1,
{
    assert((i + 1) - 1 == i);
    lemma_bar_lo_bounds(raw, num_bins, i);
}

/// The bins a bar actually averages over for a spectrum of `len` magnitudes:
/// the range is widened to at least one bin and clipped to the spectrum;
/// `None` when nothing of it is left.
pub open spec fn clipped_range(lo: usize, hi: usize, len: usize) -> Option<(usize, usize)> {
    let wide = if hi > lo + 1 { hi as int } else { lo + 1 };
    let end = if wide < len { wide } else { len as int };
    let start = if len == 0 { 0 } else if lo < len - 1 { lo as int } else { len - 1 };
    if start >= end {
        None
    } else {
        Some((start as usize, end as usize))
    }
}

/// Clip a bar's bin range to a magnitude spectrum of `len` entries.
pub fn clamp_bin_range(lo: usize, hi: usize, len: usize) -> (r: Option<(usize, usize)>)
    requires
        lo < usize::MAX,
    ensures
        r == clipped_range(lo, hi, len),
        r matches Some((s, e)) ==> s < e <= len,
        // a band that lies inside the spectrum is kept whole
        lo < hi <= len ==> r == Some((lo, hi)),
        // nothing is left of an empty spectrum
        len == 0 ==> r is None,
{
    let wide: usize = if hi > lo + 1 { hi } else { lo + 1 };
    let end: usize = if wide < len { wide } else { len };
    let last: usize = if len > 0 { len - 1 } else { 0 };
    let start: usize = if lo < last { lo } else { last };
    if start >= end {
        None
    } else {
        Some((start, end))
    }
}

} // verus!
