use vstd::prelude::*;
use vstd::arithmetic::div_mod::{lemma_div_is_ordered, lemma_div_multiples_vanish};
use vstd::arithmetic::mul::lemma_mul_inequality;
use crate::midi::{Message, Note};
use crate::tracker::{emitted, next_state};

verus! {

/// Frequencies are whole numbers of millihertz.
pub const MILLIHERTZ_PER_HERTZ: u64 = 1000;

/// The number of meaningful bins of an `n`-point spectrum: the upper half
/// mirrors the lower one.
pub open spec fn meaningful(n: int) -> int {
    n / 2
}

/// `r` is the peak of spectrum `s` under `threshold`: among the meaningful
/// bins, the first of the loudest that exceed the threshold, as (magnitude,
/// bin); (0, 0) where no meaningful bin exceeds it.
pub open spec fn is_peak(s: Seq<u64>, threshold: u64, r: (u64, usize)) -> bool {
    let half = meaningful(s.len() as int);
    if forall|i: int| 0 <= i < half ==> s[i] <= threshold {
        r == (0u64, 0usize)
    } else {
        &&& r.1 < half
        &&& r.0 == s[r.1 as int]
        &&& r.0 > threshold
        &&& forall|j: int| 0 <= j < half ==> s[j] <= r.0
        &&& forall|j: int| 0 <= j < r.1 ==> s[j] < r.0
    }
}

/// The peak of spectrum `s` under `threshold`.
pub open spec fn peak(s: Seq<u64>, threshold: u64) -> (u64, usize) {
    choose|r: (u64, usize)| is_peak(s, threshold, r)
}

/// A spectrum has one peak under a given threshold.
proof fn lemma_peak_unique(s: Seq<u64>, threshold: u64, r1: (u64, usize), r2: (u64, usize))
    requires
        is_peak(s, threshold, r1),
        is_peak(s, threshold, r2),
    ensures
        r1 == r2,
{
    let half = meaningful(s.len() as int);
    if !(forall|i: int| 0 <= i < half ==> s[i] <= threshold) {
        assert(s[r2.1 as int] <= r1.0);
        assert(s[r1.1 as int] <= r2.0);
        if r1.1 < r2.1 {
            assert(s[r1.1 as int] < r2.0);
        } else if r2.1 < r1.1 {
            assert(s[r2.1 as int] < r1.0);
        }
    }
}

/// The peak is found wherever a value meets the definition.
proof fn lemma_is_the_peak(s: Seq<u64>, threshold: u64, r: (u64, usize))
    requires
        is_peak(s, threshold, r),
    ensures
        peak(s, threshold) == r,
{
    lemma_peak_unique(s, threshold, peak(s, threshold), r);
}

/// The pitch estimate of spectrum `s` under `threshold`, for a signal sampled
/// at `rate` Hz: the frequency and magnitude of its peak.
pub open spec fn pitch_of(s: Seq<u64>, threshold: u64, rate: u32) -> Note {
    Note {
        freq: bin_freq(peak(s, threshold).1 as int, s.len() as int, rate as int) as u64,
        amp: peak(s, threshold).0,
    }
}

/// The frequency in millihertz of bin `bin` of an `n`-point spectrum sampled
/// at `rate` Hz, rounded down.
pub open spec fn bin_freq(bin: int, n: int, rate: int) -> int {
    bin * rate * 1000 / n
}

/// Picks the dominant bin of a magnitude spectrum (magnitudes in thousandths):
/// only bins strictly above `threshold` count, ties go to the earlier bin.
pub fn find_maxima(data: &[u64], threshold: u64) -> (r: (u64, usize))
    requires
        data@.len() >= 2,
    ensures
        is_peak(data@, threshold, r),
        r == peak(data@, threshold),
{
    let half: usize = data.len() / 2;
    let mut maxima: usize = 0;
    let mut max: u64 = 0;
    let mut i: usize = 0;
    while i < half
        invariant
            half == meaningful(data@.len() as int),
            half <= data@.len(),
            i <= half,
            (forall|j: int| 0 <= j < i ==> data@[j] <= threshold) ==> (max == 0 && maxima == 0),
            !(forall|j: int| 0 <= j < i ==> data@[j] <= threshold) ==> {
                &&& maxima < i
                &&& max == data@[maxima as int]
                &&& max > threshold
                &&& forall|j: int| 0 <= j < i ==> data@[j] <= max
                &&& forall|j: int| 0 <= j < maxima ==> data@[j] < max
            },
        decreases half - i,
    {
        let x = data[i];
        if x > threshold && x > max {
            maxima = i;
            max = x;
        }
        i = i + 1;
        assert(!(forall|j: int| 0 <= j < i ==> data@[j] <= threshold) ==> {
            ||| !(forall|j: int| 0 <= j < i - 1 ==> data@[j] <= threshold)
            ||| data@[i - 1] > threshold
        });
    }
    proof {
        lemma_is_the_peak(data@, threshold, (max, maxima));
    }
    (max, maxima)
}

/// The frequency in millihertz of bin `bucket` of a `buffer_size`-point
/// spectrum of a signal sampled at `sample_rate` Hz.
pub fn recalculate_to_freq(bucket: usize, buffer_size: usize, sample_rate: u32) -> (r: u64)
    requires
        bucket < buffer_size,
    ensures
        r == bin_freq(bucket as int, buffer_size as int, sample_rate as int),
{
    assert((bucket as int) * (sample_rate as int) < 0x1_0000_0000_0000_0000_0000_0000) by (nonlinear_arith)
        requires
            bucket < 0x1_0000_0000_0000_0000,
            sample_rate < 0x1_0000_0000,
    ;
    let wide: u128 = (bucket as u128) * (sample_rate as u128);
    assert(wide * 1000 < 0x1_0000_0000_0000_0000_0000_0000_0000) by (nonlinear_arith)
        requires
            wide == bucket as int * sample_rate as int,
            bucket < 0x1_0000_0000_0000_0000,
            sample_rate < 0x1_0000_0000,
    ;
    let scaled: u128 = wide * (MILLIHERTZ_PER_HERTZ as u128);
    proof {
        let rate = sample_rate as int * 1000;
        assert(bucket as int * sample_rate as int * 1000 == bucket as int * rate) by (nonlinear_arith)
            requires
                rate == sample_rate as int * 1000,
        ;
        lemma_mul_inequality(bucket as int, buffer_size as int, rate);
        lemma_div_is_ordered(bucket as int * rate, buffer_size as int * rate, buffer_size as int);
        assert(buffer_size as int * rate == rate * buffer_size as int) by (nonlinear_arith);
        lemma_div_multiples_vanish(rate, buffer_size as int);
    }
    (scaled / (buffer_size as u128)) as u64
}

/// Turns the magnitude spectrum of one frame into a pitch estimate: the
/// frequency of its peak bin (0 when no bin passes the threshold) and that
/// bin's magnitude.
pub fn analyze(data: &[u64], threshold: u64, sample_rate: u32) -> (r: Note)
    requires
        data@.len() >= 2,
    ensures
        r == pitch_of(data@, threshold, sample_rate),
{
    let (amp, bin) = find_maxima(data, threshold);
    let freq = recalculate_to_freq(bin, data.len(), sample_rate);
    Note::new(freq, amp)
}

/// Frequency mapping is monotone: a higher bin never maps to a lower
/// frequency.
pub proof fn law_freq_monotone(b1: usize, b2: usize, n: usize, rate: u32)
    requires
        b1 <= b2 < n,
    ensures
        bin_freq(b1 as int, n as int, rate as int) <= bin_freq(b2 as int, n as int, rate as int),
{
    let k = rate as int * 1000;
    assert(b1 as int * rate as int * 1000 == b1 as int * k) by (nonlinear_arith)
        requires
            k == rate as int * 1000,
    ;
    assert(b2 as int * rate as int * 1000 == b2 as int * k) by (nonlinear_arith)
        requires
            k == rate as int * 1000,
    ;
    lemma_mul_inequality(b1 as int, b2 as int, k);
    lemma_div_is_ordered(b1 as int * k, b2 as int * k, n as int);
}

/// A spectrum in which no meaningful bin exceeds the threshold (silence, or
/// noise under it) yields the placeholder peak at bin 0, which lies at zero
/// frequency with zero amplitude: the estimate is dead, and an idle tracker
/// that receives it sends nothing and stays idle.
pub proof fn law_quiet_is_dead(s: Seq<u64>, threshold: u64, rate: u32)
    requires
        s.len() >= 2,
        forall|i: int| 0 <= i < meaningful(s.len() as int) ==> s[i] <= threshold,
    ensures
        peak(s, threshold) == (0u64, 0usize),
        pitch_of(s, threshold, rate).dead(),
        next_state(None, pitch_of(s, threshold, rate)) is None,
        emitted(None, pitch_of(s, threshold, rate)) == Seq::<Message>::empty(),
{
    lemma_is_the_peak(s, threshold, (0u64, 0usize));
}

/// A frame of silence, all of whose bins are zero, yields a dead estimate.
pub proof fn law_silence_is_dead(s: Seq<u64>, threshold: u64, rate: u32)
    requires
        s.len() >= 2,
        forall|i: int| 0 <= i < s.len() ==> s[i] == 0,
    ensures
        pitch_of(s, threshold, rate).dead(),
{
    law_quiet_is_dead(s, threshold, rate);
}

/// A spectrum whose only non-zero bin is the DC bin peaks, if at all, at zero
/// frequency: the estimate is dead whatever the DC magnitude.
pub proof fn law_dc_is_dead(s: Seq<u64>, threshold: u64, rate: u32)
    requires
        s.len() >= 2,
        forall|i: int| 1 <= i < s.len() ==> s[i] == 0,
    ensures
        peak(s, threshold).1 == 0,
        pitch_of(s, threshold, rate).freq == 0,
        pitch_of(s, threshold, rate).dead(),
{
    let half = meaningful(s.len() as int);
    if forall|i: int| 0 <= i < half ==> s[i] <= threshold {
        lemma_is_the_peak(s, threshold, (0u64, 0usize));
    } else {
        assert(s[0] > threshold);
        lemma_is_the_peak(s, threshold, (s[0], 0usize));
    }
}

} // verus!
