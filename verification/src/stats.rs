//! Raw amplitude statistics over 16-bit PCM sample sequences.
//!
//! The peak is computed here on the raw integer samples; a front end turns it
//! into the normalized peak amplitude by dividing by 32767, the largest
//! magnitude of a signed 16-bit sample.

use vstd::prelude::*;

verus! {

/// The magnitude of a raw sample, as a mathematical integer.
pub open spec fn abs16(s: i16) -> int {
    if s < 0 {
        -(s as int)
    } else {
        s as int
    }
}

/// The largest sample magnitude in a sequence; zero for an empty sequence.
pub open spec fn max_abs(s: Seq<i16>) -> int
    decreases s.len(),
{
    if s.len() == 0 {
        0
    } else {
        let rest = max_abs(s.drop_last());
        if abs16(s.last()) > rest {
            abs16(s.last())
        } else {
            rest
        }
    }
}

/// The peak magnitude is never negative, bounds every sample, and is zero
/// exactly on all-silent input. Scaled by the normalization divisor this is
/// the law that the reported peak amplitude is non-negative and vanishes
/// only for silence.
pub proof fn lemma_max_abs_properties(s: Seq<i16>)
    ensures
        0 <= max_abs(s) <= 32768,
        forall|j: int| 0 <= j < s.len() ==> abs16(s[j]) <= max_abs(s),
        (max_abs(s) == 0) <==> (forall|j: int| 0 <= j < s.len() ==> s[j] == 0),
    decreases s.len(),
{
    if s.len() > 0 {
        lemma_max_abs_properties(s.drop_last());
        assert(forall|j: int| 0 <= j < s.len() - 1 ==> s[j] == s.drop_last()[j]);
        assert(s.last() == s[s.len() - 1]);
    }
}

/// Every raw sample but the most negative one has magnitude at most 32767,
/// so its normalized value, the sample divided by 32767, lies in the unit
/// interval.
pub proof fn lemma_sample_unit_range(s: i16)
    requires
        s != i16::MIN,
    ensures
        abs16(s) <= 32767,
{
}

/// The magnitude of one raw sample, as a 32-bit value.
fn sample_abs(x: i16) -> (r: u32)
    ensures
        r == abs16(x),
{
    if x >= 0 {
        x as u32
    } else {
        (-(x as i32)) as u32
    }
}

/// The peak magnitude of the raw samples: the basis of the reported
/// max-amplitude statistic. Zero for an empty signal rather than an error.
pub fn max_abs_sample(samples: &Vec<i16>) -> (r: u32)
    ensures
        r == max_abs(samples@),
        r <= 32768,
        (r == 0) <==> (forall|j: int| 0 <= j < samples@.len() ==> samples@[j] == 0),
{
    let n = samples.len();
    let mut r: u32 = 0;
    let mut i: usize = 0;
    while i < n
        invariant
            n == samples@.len(),
            i <= n,
            r == max_abs(samples@.subrange(0, i as int)),
            r <= 32768,
        decreases n - i,
    {
        let a = sample_abs(samples[i]);
        proof {
            let pre = samples@.subrange(0, i as int);
            let cur = samples@.subrange(0, i + 1);
            assert(cur.drop_last() =~= pre);
            assert(cur.last() == samples@[i as int]);
            lemma_max_abs_properties(cur);
        }
        if a > r {
            r = a;
        }
        i = i + 1;
    }
    proof {
        assert(samples@.subrange(0, n as int) =~= samples@);
        lemma_max_abs_properties(samples@);
    }
    r
}

} // verus!
