//! Heuristics over raw audio samples: how loud the recording is on average,
//! and whether peaks keep coming back window after window.
//!
//! A sample is a signed integer in millionths of full scale: `1_000_000` is
//! the loudest a normalised signal gets, `-500_000` is half of that on the
//! negative side. Averages are compared by cross-multiplication, so every
//! threshold is exact.

use vstd::prelude::*;
use vstd::string::StringExecFns;

use crate::ai::DwightAI;

verus! {

/// One full-scale unit, in sample steps.
pub const FULL_SCALE: i32 = 1_000_000;

/// A recording whose mean magnitude is above this is loud.
pub const LOUD_ABOVE: i32 = 800_000;

/// A recording whose mean magnitude is below this is quiet.
pub const QUIET_BELOW: i32 = 100_000;

/// A window holding a magnitude above this has a peak.
pub const PEAK_ABOVE: i32 = 600_000;

/// Samples per window. Windows do not overlap, and samples after the last
/// full window belong to none.
pub const WINDOW: usize = 100;

/// So many windows with a peak, one after another, make a pattern.
pub const RUN_LENGTH: usize = 6;

/// The magnitude of a sample.
pub open spec fn magnitude(sample: i32) -> nat {
    if sample < 0 {
        (-sample) as nat
    } else {
        sample as nat
    }
}

/// The sum of the magnitudes of `samples`.
pub open spec fn total_magnitude(samples: Seq<i32>) -> nat
    decreases samples.len(),
{
    if samples.len() == 0 {
        0
    } else {
        total_magnitude(samples.drop_last()) + magnitude(samples.last())
    }
}

/// The mean magnitude of `samples` is above `level`. No mean is defined for
/// an empty recording, and none is above anything.
pub open spec fn mean_above(samples: Seq<i32>, level: int) -> bool {
    samples.len() > 0 && total_magnitude(samples) > level * samples.len()
}

/// The mean magnitude of `samples` is below `level`. No mean is defined for
/// an empty recording, and none is below anything.
pub open spec fn mean_below(samples: Seq<i32>, level: int) -> bool {
    samples.len() > 0 && total_magnitude(samples) < level * samples.len()
}

/// The number of full windows in `samples`.
pub open spec fn window_count(samples: Seq<i32>) -> nat {
    samples.len() / (WINDOW as nat)
}

/// Window number `window` of `samples`, counted from 0, holds a peak.
pub open spec fn window_peaks(samples: Seq<i32>, window: int) -> bool {
    exists|at: int|
        window * WINDOW <= at < (window + 1) * WINDOW && 0 <= at < samples.len() && magnitude(
            #[trigger] samples[at],
        ) > PEAK_ABOVE
}

/// `window` is a full window, and it and the `RUN_LENGTH - 1` windows before
/// it all hold a peak.
pub open spec fn peak_run_ends_at(samples: Seq<i32>, window: int) -> bool {
    &&& RUN_LENGTH - 1 <= window < window_count(samples)
    &&& forall|earlier: int|
        window - RUN_LENGTH < earlier <= window ==> #[trigger] window_peaks(samples, earlier)
}

/// Somewhere in `samples`, `RUN_LENGTH` full windows in a row hold a peak.
pub open spec fn repetitive(samples: Seq<i32>) -> bool {
    exists|window: int| peak_run_ends_at(samples, window)
}

/// What is said of a loud recording.
pub open spec fn loud_observation() -> Seq<char> {
    "High volume detected - possible loud event"@
}

/// What is said of a quiet recording.
pub open spec fn quiet_observation() -> Seq<char> {
    "Very quiet - possible silence or ambient noise"@
}

/// What is said of a recording with a run of peaks.
pub open spec fn repetitive_observation() -> Seq<char> {
    "Repetitive pattern detected - possible machinery or rhythmic sounds"@
}

/// What the mean magnitude of `samples` gives rise to: one observation if
/// the recording is loud, another if it is quiet, none in between and none
/// for an empty recording.
pub open spec fn volume_observations(samples: Seq<i32>) -> Seq<Seq<char>> {
    if mean_above(samples, LOUD_ABOVE as int) {
        seq![loud_observation()]
    } else if mean_below(samples, QUIET_BELOW as int) {
        seq![quiet_observation()]
    } else {
        Seq::empty()
    }
}

/// What the peaks of `samples` give rise to: one observation if there is a
/// run of them, however many runs there are.
pub open spec fn pattern_observations(samples: Seq<i32>) -> Seq<Seq<char>> {
    if repetitive(samples) {
        seq![repetitive_observation()]
    } else {
        Seq::empty()
    }
}

/// All that is observed of `samples`: first of its volume, then of its
/// peaks.
pub open spec fn observations(samples: Seq<i32>) -> Seq<Seq<char>> {
    volume_observations(samples) + pattern_observations(samples)
}

/// The magnitude of `sample`.
pub fn magnitude_of(sample: i32) -> (size: u32)
    ensures
        size == magnitude(sample),
{
    if sample < 0 {
        (-(sample as i64)) as u32
    } else {
        sample as u32
    }
}

/// The sum of the magnitudes of `samples`.
pub fn sum_of_magnitudes(samples: &[i32]) -> (total: u128)
    ensures
        total == total_magnitude(samples@),
{
    let mut total: u128 = 0;
    let mut i: usize = 0;
    while i < samples.len()
        invariant
            i <= samples.len(),
            total == total_magnitude(samples@.take(i as int)),
            total <= i * 0x8000_0000,
        decreases samples.len() - i,
    {
        proof {
            let next = samples@.take(i + 1);
            assert(next.drop_last() =~= samples@.take(i as int));
            assert(next.last() == samples@[i as int]);
        }
        total = total + magnitude_of(samples[i]) as u128;
        i += 1;
    }
    assert(samples@.take(samples.len() as int) =~= samples@);
    total
}

/// Whether window number `window` of `samples` is a full window that holds a
/// peak.
pub fn has_peak(samples: &[i32], window: usize) -> (peaks: bool)
    ensures
        peaks == (window < window_count(samples@) && window_peaks(samples@, window as int)),
{
    if window >= samples.len() / WINDOW {
        return false;
    }
    assert((window + 1) * WINDOW <= samples.len());
    let first: usize = window * WINDOW;
    let mut at: usize = first;
    while at < first + WINDOW
        invariant
            first == window * WINDOW,
            first + WINDOW <= samples.len(),
            first <= at <= first + WINDOW,
            forall|seen: int| first <= seen < at ==> magnitude(#[trigger] samples@[seen]) <= PEAK_ABOVE,
        decreases first + WINDOW - at,
    {
        if magnitude_of(samples[at]) > PEAK_ABOVE as u32 {
            return true;
        }
        at += 1;
    }
    false
}

/// Whether `RUN_LENGTH` full windows in a row hold a peak. The scan stops at
/// the first such run.
pub fn has_peak_run(samples: &[i32]) -> (found: bool)
    ensures
        found == repetitive(samples@),
{
    let windows: usize = samples.len() / WINDOW;
    let mut run: usize = 0;
    let mut window: usize = 0;
    while window < windows
        invariant
            windows == window_count(samples@),
            window <= windows,
            run < RUN_LENGTH,
            run <= window,
            forall|earlier: int|
                window - run <= earlier < window ==> #[trigger] window_peaks(samples@, earlier),
            run < window ==> !window_peaks(samples@, window - run - 1),
            forall|earlier: int| 0 <= earlier < window ==> !peak_run_ends_at(samples@, earlier),
        decreases windows - window,
    {
        if has_peak(samples, window) {
            run += 1;
        } else {
            run = 0;
        }
        if run >= RUN_LENGTH {
            assert(peak_run_ends_at(samples@, window as int));
            return true;
        }
        proof {
            if run > 0 && run <= window {
                assert(!window_peaks(samples@, window - run));
            }
            assert(!peak_run_ends_at(samples@, window as int));
        }
        window += 1;
    }
    false
}

impl DwightAI {
    /// What is observed of a recording: of its volume, if it is loud or
    /// quiet, and then of its peaks, if they come in a run. An empty
    /// recording gives no observation.
    pub fn analyze_audio_patterns(&self, audio_data: &[i32]) -> (patterns: Vec<String>)
        ensures
            patterns.deep_view() == observations(audio_data@),
    {
        let mut patterns: Vec<String> = Vec::new();
        let total: u128 = sum_of_magnitudes(audio_data);
        let count: u128 = audio_data.len() as u128;
        if count > 0 {
            assert(LOUD_ABOVE * count <= u128::MAX && QUIET_BELOW * count <= u128::MAX) by {
                assert(count <= u64::MAX);
            }
            if total > LOUD_ABOVE as u128 * count {
                patterns.push(String::from_str("High volume detected - possible loud event"));
            } else if total < QUIET_BELOW as u128 * count {
                patterns.push(String::from_str("Very quiet - possible silence or ambient noise"));
            }
        }
        assert(patterns.deep_view() =~= volume_observations(audio_data@));
        if has_peak_run(audio_data) {
            patterns.push(
                String::from_str("Repetitive pattern detected - possible machinery or rhythmic sounds"),
            );
        }
        assert(patterns.deep_view() =~= observations(audio_data@));
        patterns
    }
}

} // verus!
