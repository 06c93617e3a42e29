//! Per-file analysis orchestration: the fixed spectral-analysis window and
//! the bounded scan over candidate files.
//!
//! The spectral transform itself works on floating-point values and is left
//! to the front end; this module fixes everything that determines it: which
//! samples enter the window, the window and offset constants, and the
//! bookkeeping that stops the run after a fixed number of reports.

use vstd::prelude::*;
use crate::stats::max_abs;
use crate::stats::max_abs_sample;
use crate::wav::AudioSignal;
use crate::wav::WavError;

verus! {

/// Samples in one spectral-analysis window.
pub const WINDOW_SIZE: usize = 1024;

/// The window is anchored at this many seconds into the signal.
pub const ANALYSIS_OFFSET_SECONDS: u32 = 1;

/// The run stops after this many files have been reported.
pub const MAX_REPORTS: usize = 5;

/// Why a candidate file yields no report.
#[derive(Clone, Copy, Debug, PartialEq, Eq, Structural)]
pub enum SkipReason {
    /// The metadata index has no entry for the file's stem.
    MetadataMissing,
    /// The container could not be decoded.
    DecodeFailed(WavError),
    /// The signal ends before the fixed analysis window does.
    SignalTooShort,
}

/// The sample index where the analysis window starts: the fixed offset in
/// seconds, in samples.
pub open spec fn window_start(rate: u32) -> int {
    rate * ANALYSIS_OFFSET_SECONDS
}

/// Whether a signal reaches past the end of the fixed analysis window.
pub open spec fn window_fits(sig: AudioSignal) -> bool {
    sig.samples@.len() >= window_start(sig.sample_rate) + WINDOW_SIZE
}

/// The samples of the fixed analysis window.
pub open spec fn spec_window(sig: AudioSignal) -> Seq<i16> {
    sig.samples@.subrange(
        window_start(sig.sample_rate),
        window_start(sig.sample_rate) + WINDOW_SIZE,
    )
}

/// The verified part of one file's result: the raw peak magnitude over the
/// whole signal and the raw samples of the analysis window. A front end
/// normalizes these and runs the windowed transform on the window.
pub struct RawAnalysis {
    pub max_abs: u32,
    pub window: Vec<i16>,
}

/// What a completed analysis must hold of its signal.
pub open spec fn raw_analysis_of(sig: AudioSignal, a: RawAnalysis) -> bool {
    &&& a.max_abs == max_abs(sig.samples@)
    &&& a.window@ == spec_window(sig)
    &&& a.window@.len() == WINDOW_SIZE
}

/// Copies the fixed analysis window out of the signal, or reports that the
/// signal is too short for it. This replaces unchecked indexing at the
/// window's range: a short signal is a per-file skip, never an access past
/// the end.
pub fn analysis_window(sig: &AudioSignal) -> (r: Option<Vec<i16>>)
    ensures
        r is Some <==> window_fits(*sig),
        r matches Some(w) ==> w@ == spec_window(*sig) && w@.len() == WINDOW_SIZE,
{
    let n = sig.samples.len();
    let start64 = (sig.sample_rate as u64) * (ANALYSIS_OFFSET_SECONDS as u64);
    if (n as u64) < start64 + (WINDOW_SIZE as u64) {
        return Option::None;
    }
    let start = start64 as usize;
    let mut w: Vec<i16> = Vec::new();
    let mut k: usize = 0;
    while k < WINDOW_SIZE
        invariant
            n == sig.samples@.len(),
            start == window_start(sig.sample_rate),
            start + WINDOW_SIZE <= n,
            k <= WINDOW_SIZE,
            w@.len() == k,
            forall|j: int| 0 <= j < k ==> w@[j] == sig.samples@[start + j],
        decreases WINDOW_SIZE - k,
    {
        w.push(sig.samples[start + k]);
        k = k + 1;
    }
    proof {
        assert(w@ =~= spec_window(*sig));
    }
    Option::Some(w)
}

/// Analyzes one decoded signal: the peak raw magnitude of the whole sample
/// sequence, and the raw analysis window. Succeeds exactly when the signal
/// reaches past the fixed window.
pub fn analyze_signal(sig: &AudioSignal) -> (r: Result<RawAnalysis, SkipReason>)
    ensures
        r is Ok <==> window_fits(*sig),
        r matches Ok(a) ==> raw_analysis_of(*sig, a),
        r matches Err(e) ==> e == SkipReason::SignalTooShort,
{
    let window = match analysis_window(sig) {
        Option::Some(w) => w,
        Option::None => {
            return Result::Err(SkipReason::SignalTooShort);
        },
    };
    let peak = max_abs_sample(&sig.samples);
    Result::Ok(RawAnalysis { max_abs: peak, window })
}

/// Analyzing the same signal twice yields the same result: a completed
/// analysis is a function of the signal alone, with no hidden state.
pub proof fn lemma_analysis_deterministic(sig: AudioSignal, a1: RawAnalysis, a2: RawAnalysis)
    requires
        raw_analysis_of(sig, a1),
        raw_analysis_of(sig, a2),
    ensures
        a1.max_abs == a2.max_abs,
        a1.window@ == a2.window@,
{
}

/// One candidate file's outcome: a completed analysis, or the reason it was
/// skipped.
pub enum FileOutcome {
    Analyzed(RawAnalysis),
    Skipped(SkipReason),
}

/// The scan's only cross-file state: how many reports it has produced.
pub struct Scanner {
    pub reports: usize,
}

impl Scanner {
    /// The report count never passes the fixed limit.
    pub open spec fn wf(self) -> bool {
        self.reports <= MAX_REPORTS
    }

    /// A fresh scan has produced nothing.
    pub fn new() -> (s: Scanner)
        ensures
            s.reports == 0,
            s.wf(),
    {
        Scanner { reports: 0 }
    }

    /// Whether the scan should still examine candidates; false as soon as
    /// the report limit is reached.
    pub fn wants_more(&self) -> (r: bool)
        ensures
            r == (self.reports < MAX_REPORTS),
    {
        self.reports < MAX_REPORTS
    }

    /// Records one candidate's outcome. Only a completed analysis counts:
    /// a skipped file leaves the report count unchanged.
    pub fn record(&mut self, outcome: &FileOutcome)
        requires
            old(self).wf(),
            old(self).reports < MAX_REPORTS,
        ensures
            final(self).wf(),
            final(self).reports == old(self).reports + (if *outcome is Analyzed {
                1int
            } else {
                0int
            }),
    {
        match outcome {
            FileOutcome::Analyzed(_) => {
                self.reports = self.reports + 1;
            },
            FileOutcome::Skipped(_) => {
            },
        }
    }
}

} // verus!
