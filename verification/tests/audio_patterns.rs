use dwight::ai::DwightAI;
use dwight::audio::{has_peak, has_peak_run, magnitude_of, sum_of_magnitudes};

const LOUD: &str = "High volume detected - possible loud event";
const QUIET: &str = "Very quiet - possible silence or ambient noise";
const REPETITIVE: &str = "Repetitive pattern detected - possible machinery or rhythmic sounds";

fn observe(samples: &[i32]) -> Vec<String> {
    DwightAI::new().analyze_audio_patterns(samples)
}

/// `windows` windows of 100 samples, each silent but for one sample of the
/// given level at the given place in the window.
fn spiked(windows: usize, place: usize, level: i32) -> Vec<i32> {
    let mut samples = vec![0; windows * 100];
    for window in 0..windows {
        samples[window * 100 + place] = level;
    }
    samples
}

#[test]
fn loud_throughout_is_reported_as_loud() {
    let samples = vec![900_000; 1000];
    assert_eq!(observe(&samples), vec![String::from(LOUD), String::from(REPETITIVE)]);
}

#[test]
fn loud_start_and_silent_rest_is_not_loud_on_average() {
    let mut samples = vec![900_000; 600];
    samples.extend(vec![0; 400]);
    assert_eq!(sum_of_magnitudes(&samples), 540_000_000);
    assert_eq!(observe(&samples), vec![String::from(REPETITIVE)]);
}

#[test]
fn seven_windows_with_a_peak_are_a_pattern() {
    let samples = spiked(7, 50, 700_000);
    assert_eq!(samples.len(), 700);
    let seen = observe(&samples);
    assert!(seen.contains(&String::from(REPETITIVE)));
    assert_eq!(seen, vec![String::from(QUIET), String::from(REPETITIVE)]);
}

#[test]
fn five_windows_with_a_peak_and_one_without_are_no_pattern() {
    let mut samples = spiked(5, 0, 700_000);
    samples.extend(vec![0; 100]);
    assert_eq!(samples.len(), 600);
    let seen = observe(&samples);
    assert!(!seen.contains(&String::from(REPETITIVE)));
    assert_eq!(seen, vec![String::from(QUIET)]);
}

#[test]
fn six_windows_with_a_peak_are_just_enough() {
    let samples = spiked(6, 99, -700_000);
    assert!(has_peak_run(&samples));
    let samples = spiked(5, 99, -700_000);
    assert!(!has_peak_run(&samples));
}

#[test]
fn silence_is_quiet_and_nothing_else() {
    assert_eq!(observe(&vec![0; 100]), vec![String::from(QUIET)]);
    assert_eq!(observe(&vec![0; 1000]), vec![String::from(QUIET)]);
    assert_eq!(observe(&vec![0; 1]), vec![String::from(QUIET)]);
}

#[test]
fn empty_recording_gives_no_observation() {
    let seen = observe(&[]);
    assert!(seen.is_empty());
    assert!(!has_peak_run(&[]));
    assert_eq!(sum_of_magnitudes(&[]), 0);
}

#[test]
fn partial_window_is_skipped() {
    let samples = vec![700_000; 599];
    assert!(observe(&samples).is_empty());
    let samples = vec![700_000; 600];
    assert_eq!(observe(&samples), vec![String::from(REPETITIVE)]);
    let mut samples = spiked(5, 10, 700_000);
    samples.extend(vec![700_000; 99]);
    assert!(!has_peak_run(&samples));
}

#[test]
fn windows_do_not_overlap() {
    let samples = spiked(5, 0, 700_000);
    assert_eq!(samples.len(), 500);
    assert!(!has_peak_run(&samples));
    let mut shifted = vec![0; 50];
    shifted.extend(vec![700_000; 500]);
    shifted.extend(vec![0; 50]);
    assert!(has_peak_run(&shifted));
    let mut straddling = vec![0; 600];
    for place in [99, 100, 299, 300, 499, 500] {
        straddling[place] = 700_000;
    }
    assert!(has_peak_run(&straddling));
    straddling[500] = 0;
    assert!(!has_peak_run(&straddling));
}

#[test]
fn a_gap_starts_the_count_again() {
    let mut samples = spiked(11, 3, 650_000);
    samples[5 * 100 + 3] = 0;
    assert!(!has_peak_run(&samples));
    let mut samples = spiked(12, 3, 650_000);
    samples[5 * 100 + 3] = 0;
    assert!(has_peak_run(&samples));
    assert_eq!(observe(&samples), vec![String::from(QUIET), String::from(REPETITIVE)]);
}

#[test]
fn pattern_is_reported_once() {
    let samples = vec![700_000; 5000];
    assert_eq!(observe(&samples), vec![String::from(REPETITIVE)]);
}

#[test]
fn thresholds_are_strict() {
    assert!(observe(&vec![800_000; 50]).is_empty());
    assert_eq!(observe(&vec![800_001; 50]), vec![String::from(LOUD)]);
    assert!(observe(&vec![100_000; 50]).is_empty());
    assert_eq!(observe(&vec![99_999; 50]), vec![String::from(QUIET)]);
    assert!(!has_peak_run(&vec![600_000; 600]));
    assert!(has_peak_run(&vec![600_001; 600]));
}

#[test]
fn mean_is_taken_over_the_whole_recording() {
    assert_eq!(observe(&[1_000_000, 600_001]), vec![String::from(LOUD)]);
    assert!(observe(&[1_000_000, 600_000]).is_empty());
    assert_eq!(observe(&[199_999, 0]), vec![String::from(QUIET)]);
    assert!(observe(&[200_000, 0]).is_empty());
}

#[test]
fn negative_samples_count_by_their_magnitude() {
    assert_eq!(observe(&vec![-900_000; 1000]), vec![String::from(LOUD), String::from(REPETITIVE)]);
    assert_eq!(magnitude_of(-5), 5);
    assert_eq!(magnitude_of(5), 5);
    assert_eq!(magnitude_of(0), 0);
    assert_eq!(magnitude_of(i32::MIN), 2_147_483_648);
    assert_eq!(magnitude_of(i32::MAX), 2_147_483_647);
    assert_eq!(sum_of_magnitudes(&[i32::MIN, i32::MAX, -1, 1]), 4_294_967_297);
}

#[test]
fn a_window_has_a_peak_where_one_sample_is_above_the_level() {
    let mut samples = vec![0; 300];
    samples[199] = -600_001;
    assert!(!has_peak(&samples, 0));
    assert!(has_peak(&samples, 1));
    assert!(!has_peak(&samples, 2));
    samples[200] = 600_000;
    assert!(!has_peak(&samples, 2));
}

#[test]
fn a_window_that_is_not_full_has_no_peak() {
    let samples = vec![900_000; 250];
    assert!(has_peak(&samples, 0));
    assert!(has_peak(&samples, 1));
    assert!(!has_peak(&samples, 2));
    assert!(!has_peak(&samples, 3));
    assert!(!has_peak(&samples, usize::MAX));
    assert!(!has_peak(&[], 0));
}

#[test]
fn volume_comes_before_pattern() {
    let seen = observe(&vec![i32::MAX; 600]);
    assert_eq!(seen, vec![String::from(LOUD), String::from(REPETITIVE)]);
    let seen = observe(&vec![i32::MIN; 600]);
    assert_eq!(seen, vec![String::from(LOUD), String::from(REPETITIVE)]);
}
