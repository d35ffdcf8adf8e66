//! Laws of the audio heuristics, proved of every recording.

use vstd::prelude::*;

use crate::audio::{
    loud_observation, magnitude, mean_above, mean_below, observations, pattern_observations,
    peak_run_ends_at, quiet_observation, repetitive, repetitive_observation, total_magnitude,
    volume_observations, window_count, window_peaks, LOUD_ABOVE, QUIET_BELOW,
    RUN_LENGTH, WINDOW,
};

verus! {

/// Where every sample has at least the magnitude `floor`, the sum of the
/// magnitudes is at least `floor` times the number of samples.
pub proof fn lemma_total_at_least(samples: Seq<i32>, floor: nat)
    requires
        forall|at: int| 0 <= at < samples.len() ==> magnitude(#[trigger] samples[at]) >= floor,
    ensures
        total_magnitude(samples) >= floor * samples.len(),
    decreases samples.len(),
{
    if samples.len() > 0 {
        let earlier = samples.drop_last();
        assert forall|at: int| 0 <= at < earlier.len() implies magnitude(#[trigger] earlier[at])
            >= floor by {
            assert(earlier[at] == samples[at]);
        }
        lemma_total_at_least(earlier, floor);
        assert(floor * samples.len() == floor * earlier.len() + floor) by (nonlinear_arith)
            requires
                samples.len() == earlier.len() + 1,
        ;
    }
}

/// Where every sample has at most the magnitude `ceiling`, the sum of the
/// magnitudes is at most `ceiling` times the number of samples.
pub proof fn lemma_total_at_most(samples: Seq<i32>, ceiling: nat)
    requires
        forall|at: int| 0 <= at < samples.len() ==> magnitude(#[trigger] samples[at]) <= ceiling,
    ensures
        total_magnitude(samples) <= ceiling * samples.len(),
    decreases samples.len(),
{
    if samples.len() > 0 {
        let earlier = samples.drop_last();
        assert forall|at: int| 0 <= at < earlier.len() implies magnitude(#[trigger] earlier[at])
            <= ceiling by {
            assert(earlier[at] == samples[at]);
        }
        lemma_total_at_most(earlier, ceiling);
        assert(ceiling * samples.len() == ceiling * earlier.len() + ceiling) by (nonlinear_arith)
            requires
                samples.len() == earlier.len() + 1,
        ;
    }
}

/// A recording that is not empty and in which every sample is louder than
/// `LOUD_ABOVE` is reported as loud, before anything else.
pub proof fn lemma_loud_throughout(samples: Seq<i32>)
    requires
        samples.len() > 0,
        forall|at: int| 0 <= at < samples.len() ==> magnitude(#[trigger] samples[at]) > LOUD_ABOVE,
    ensures
        volume_observations(samples) == seq![loud_observation()],
        observations(samples).len() > 0,
        observations(samples)[0] == loud_observation(),
{
    lemma_total_at_least(samples, (LOUD_ABOVE + 1) as nat);
    assert((LOUD_ABOVE + 1) * samples.len() > LOUD_ABOVE * samples.len()) by (nonlinear_arith)
        requires
            samples.len() > 0,
    ;
    assert(mean_above(samples, LOUD_ABOVE as int));
}

/// A recording that is not empty and holds nothing but zeros is reported as
/// quiet, and nothing else is said of it.
pub proof fn lemma_silence_is_quiet(samples: Seq<i32>)
    requires
        samples.len() > 0,
        forall|at: int| 0 <= at < samples.len() ==> #[trigger] samples[at] == 0,
    ensures
        observations(samples) == seq![quiet_observation()],
{
    lemma_total_at_most(samples, 0);
    assert(total_magnitude(samples) == 0);
    assert(QUIET_BELOW * samples.len() > 0) by (nonlinear_arith)
        requires
            samples.len() > 0,
    ;
    assert(!mean_above(samples, LOUD_ABOVE as int)) by {
        assert(LOUD_ABOVE * samples.len() >= 0) by (nonlinear_arith);
    }
    assert(mean_below(samples, QUIET_BELOW as int));
    assert forall|window: int| !peak_run_ends_at(samples, window) by {
        if peak_run_ends_at(samples, window) {
            assert(window_peaks(samples, window));
        }
    }
    assert(observations(samples) =~= seq![quiet_observation()]);
}

/// Where `RUN_LENGTH` full windows in a row, the last of them `window`, each
/// hold a peak, the pattern is reported, and it is said last.
pub proof fn lemma_run_of_peaks_is_reported(samples: Seq<i32>, window: int)
    requires
        RUN_LENGTH - 1 <= window < window_count(samples),
        forall|earlier: int|
            window - RUN_LENGTH < earlier <= window ==> #[trigger] window_peaks(samples, earlier),
    ensures
        pattern_observations(samples) == seq![repetitive_observation()],
        observations(samples).len() > 0,
        observations(samples).last() == repetitive_observation(),
{
    assert(peak_run_ends_at(samples, window));
}

/// A recording of exactly `RUN_LENGTH + 1` windows, each holding a peak, has
/// the pattern reported.
pub proof fn lemma_seven_windows_of_peaks(samples: Seq<i32>)
    requires
        samples.len() == (RUN_LENGTH + 1) * WINDOW,
        forall|window: int| 0 <= window <= RUN_LENGTH ==> #[trigger] window_peaks(samples, window),
    ensures
        observations(samples).len() > 0,
        observations(samples).last() == repetitive_observation(),
{
    lemma_run_of_peaks_is_reported(samples, RUN_LENGTH - 1);
}

/// A recording with no more than `RUN_LENGTH` full windows, one of which
/// holds no peak, has no pattern reported: five windows with a peak and one
/// without are not enough, in whatever order.
pub proof fn lemma_broken_run_is_not_reported(samples: Seq<i32>, gap: int)
    requires
        window_count(samples) <= RUN_LENGTH,
        0 <= gap < window_count(samples),
        !window_peaks(samples, gap),
    ensures
        !repetitive(samples),
        pattern_observations(samples) == Seq::<Seq<char>>::empty(),
        observations(samples) == volume_observations(samples),
{
    assert forall|window: int| !peak_run_ends_at(samples, window) by {
        if peak_run_ends_at(samples, window) {
            assert(window_peaks(samples, gap));
        }
    }
    assert(observations(samples) =~= volume_observations(samples));
}

/// No observation is made of an empty recording.
pub proof fn lemma_empty_recording_is_silent(samples: Seq<i32>)
    requires
        samples.len() == 0,
    ensures
        observations(samples) == Seq::<Seq<char>>::empty(),
{
    assert forall|window: int| !peak_run_ends_at(samples, window) by {}
    assert(observations(samples) =~= Seq::<Seq<char>>::empty());
}

/// A recording is never reported as both loud and quiet, and at most two
/// observations are made of it.
pub proof fn lemma_at_most_two_observations(samples: Seq<i32>)
    ensures
        !(mean_above(samples, LOUD_ABOVE as int) && mean_below(samples, QUIET_BELOW as int)),
        volume_observations(samples).len() <= 1,
        observations(samples).len() <= 2,
{
    if samples.len() > 0 {
        assert(QUIET_BELOW * samples.len() <= LOUD_ABOVE * samples.len()) by (nonlinear_arith)
            requires
                samples.len() > 0,
        ;
    }
}

} // verus!
