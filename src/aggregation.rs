use vstd::prelude::*;
use vstd::relations::{sorted_by, total_ordering};

use crate::state::HexTile;

verus! {

/// Ascending order on temperature samples.
pub open spec fn sample_order() -> spec_fn(i16, i16) -> bool {
    |a: i16, b: i16| a <= b
}

/// The samples in ascending order.
pub open spec fn sorted_samples(s: Seq<i16>) -> Seq<i16> {
    s.sort_by(sample_order())
}

/// Half of `x`, truncated toward zero.
pub open spec fn trunc_half(x: int) -> int {
    if x >= 0 {
        x / 2
    } else {
        -((-x) / 2)
    }
}

/// Median of an ascending sequence: the middle element for an odd length,
/// else the average of the two middle elements truncated toward zero.
pub open spec fn median_of_sorted(t: Seq<i16>) -> int {
    let h = t.len() as int / 2;
    if t.len() % 2 == 0 {
        trunc_half(t[h - 1] + t[h])
    } else {
        t[h] as int
    }
}

/// Sum of the samples.
pub open spec fn sum_of(s: Seq<i16>) -> int
    decreases s.len(),
{
    if s.len() == 0 {
        0
    } else {
        sum_of(s.drop_last()) + s.last()
    }
}

/// Sum of the squares of the samples.
pub open spec fn sum_sq_of(s: Seq<i16>) -> int
    decreases s.len(),
{
    if s.len() == 0 {
        0
    } else {
        sum_sq_of(s.drop_last()) + s.last() * s.last()
    }
}

/// `n * n` times the population variance of the `n` samples.
pub open spec fn dispersion(s: Seq<i16>) -> int {
    s.len() * sum_sq_of(s) - sum_of(s) * sum_of(s)
}

/// Confidence from volume alone: 10 per sample, at most 70.
pub open spec fn base_confidence(n: int) -> int {
    if n * 10 < 70 {
        n * 10
    } else {
        70
    }
}

/// Confidence from agreement: for three samples or more, 20 when the
/// standard deviation is below 50, else 10 when it is below 100, else 0.
/// (`std_dev < k` is `dispersion < k * k * n * n`.)
pub open spec fn dispersion_bonus(s: Seq<i16>) -> int {
    let n = s.len() as int;
    if n < 3 {
        0
    } else if dispersion(s) < 2500 * n * n {
        20
    } else if dispersion(s) < 10000 * n * n {
        10
    } else {
        0
    }
}

/// Confidence of a set of samples: volume plus agreement, at most 100.
pub open spec fn confidence_of(s: Seq<i16>) -> int {
    let c = base_confidence(s.len() as int) + dispersion_bonus(s);
    if c < 100 {
        c
    } else {
        100
    }
}

/// Relies on `slice::sort`: the elements end in ascending order and are
/// the same elements as before.
#[verifier::external_body]
fn sort_ascending(v: &mut Vec<i16>)
    ensures
        sorted_by(final(v)@, sample_order()),
        final(v)@.to_multiset() == old(v)@.to_multiset(),
{
    v.sort();
}

/// The sum and the sum of squares of the samples.
fn sums(temps: &[i16]) -> (r: (i128, i128))
    requires
        temps@.len() <= 0x1_0000_0000_0000,
    ensures
        r.0 == sum_of(temps@),
        r.1 == sum_sq_of(temps@),
        -32768 * temps@.len() <= r.0 <= 32767 * temps@.len(),
        0 <= r.1 <= 1073741824 * temps@.len(),
{
    let mut sum: i128 = 0;
    let mut sum_sq: i128 = 0;
    let mut i: usize = 0;
    while i < temps.len()
        invariant
            i <= temps@.len() <= 0x1_0000_0000_0000,
            sum == sum_of(temps@.subrange(0, i as int)),
            sum_sq == sum_sq_of(temps@.subrange(0, i as int)),
            -32768 * i <= sum <= 32767 * i,
            0 <= sum_sq <= 1073741824 * i,
        decreases temps@.len() - i,
    {
        let x: i16 = temps[i];
        assert(temps@.subrange(0, i + 1).drop_last() =~= temps@.subrange(0, i as int));
        assert(0 <= x * x <= 1073741824) by (nonlinear_arith)
            requires
                -32768 <= x <= 32767,
        ;
        sum = sum + x as i128;
        sum_sq = sum_sq + (x as i128) * (x as i128);
        i = i + 1;
    }
    assert(temps@.subrange(0, i as int) =~= temps@);
    (sum, sum_sq)
}

/// Confidence of a set of samples, in [0, 100]: 10 per sample up to 70,
/// plus 20 or 10 when three samples or more agree closely.
pub fn calculate_confidence(temps: &[i16]) -> (r: u8)
    requires
        temps@.len() <= 0x1_0000_0000_0000,
    ensures
        r == confidence_of(temps@),
        0 <= r <= 100,
{
    let n: usize = temps.len();
    let base: u8 = if n < 7 {
        (n * 10) as u8
    } else {
        70
    };
    if n < 3 {
        return base;
    }
    let (sum, sum_sq) = sums(temps);
    let nn: i128 = n as i128;
    assert(0 <= nn * sum_sq <= 0x1_0000_0000_0000 * (1073741824 * nn)) by (nonlinear_arith)
        requires
            0 <= nn <= 0x1_0000_0000_0000,
            0 <= sum_sq <= 1073741824 * nn,
    ;
    assert(0 <= sum * sum <= (32768 * nn) * (32768 * nn)) by (nonlinear_arith)
        requires
            0 <= nn,
            -32768 * nn <= sum <= 32767 * nn,
    ;
    assert((32768 * nn) * (32768 * nn) <= 0x8000_0000_0000_0000 * 0x8000_0000_0000_0000)
        by (nonlinear_arith)
        requires
            0 <= nn <= 0x1_0000_0000_0000,
    ;
    assert(0 <= nn * nn <= 0x1_0000_0000_0000 * 0x1_0000_0000_0000) by (nonlinear_arith)
        requires
            0 <= nn <= 0x1_0000_0000_0000,
    ;
    let spread: i128 = nn * sum_sq - sum * sum;
    let nn2: i128 = nn * nn;
    assert(spread == dispersion(temps@));
    assert(2500 * nn2 == 2500 * nn * nn && 10000 * nn2 == 10000 * nn * nn) by (nonlinear_arith)
        requires
            nn2 == nn * nn,
    ;
    let bonus: u8 = if spread < 2500 * nn2 {
        20
    } else if spread < 10000 * nn2 {
        10
    } else {
        0
    };
    if base + bonus < 100 {
        base + bonus
    } else {
        100
    }
}

/// Median of an ascending, non-empty vector.
fn median_sorted(t: &Vec<i16>) -> (r: i16)
    requires
        t@.len() > 0,
    ensures
        r == median_of_sorted(t@),
{
    let n: usize = t.len();
    if n % 2 == 0 {
        let total: i32 = t[n / 2 - 1] as i32 + t[n / 2] as i32;
        if total >= 0 {
            (total / 2) as i16
        } else {
            (-((-total) / 2)) as i16
        }
    } else {
        t[n / 2]
    }
}

/// Proves that the order on samples is total.
proof fn lemma_sample_order_total()
    ensures
        total_ordering(sample_order()),
{
}

/// Aggregates the recent samples of a cell into its tile at time `now`. With
/// no samples the tile is left as it was. Otherwise its median becomes the
/// median of the samples, its sample count their number, its confidence
/// their confidence, and its time of update `now`.
pub fn aggregate_tile(tile: &mut HexTile, hex_id: [u8; 8], samples: Vec<i16>, now: i64)
    requires
        samples@.len() <= u16::MAX,
    ensures
        samples@.len() == 0 ==> *final(tile) == *old(tile),
        samples@.len() > 0 ==> {
            &&& final(tile).hex_id == hex_id
            &&& final(tile).median_temp == median_of_sorted(sorted_samples(samples@))
            &&& final(tile).sample_count == samples@.len()
            &&& final(tile).confidence == confidence_of(samples@)
            &&& final(tile).confidence <= 100
            &&& final(tile).last_updated == now
            &&& final(tile).bump == old(tile).bump
        },
{
    if samples.len() == 0 {
        return;
    }
    let confidence: u8 = calculate_confidence(samples.as_slice());
    let mut temps: Vec<i16> = samples;
    sort_ascending(&mut temps);
    proof {
        let s = samples@;
        lemma_sample_order_total();
        s.lemma_sort_by_ensures(sample_order());
        vstd::seq_lib::to_multiset_len(s);
        vstd::seq_lib::to_multiset_len(temps@);
        vstd::seq_lib::lemma_sorted_unique(temps@, sorted_samples(s), sample_order());
    }
    let median: i16 = median_sorted(&temps);
    tile.hex_id = hex_id;
    tile.median_temp = median;
    tile.sample_count = temps.len() as u16;
    tile.last_updated = now;
    tile.confidence = confidence;
}

} // verus!
