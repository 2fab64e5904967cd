use tickwork::easing::{ease, EasingFunction};
use tickwork::fixed::FRAC_SCALE;

#[test]
fn ease_in_out_samples_are_nondecreasing_with_exact_endpoints() {
    let samples = [0u64, 250, 500, 750, 1000];
    let mut previous = 0u64;
    for (i, &t) in samples.iter().enumerate() {
        let y = ease(EasingFunction::EaseInOut, t);
        if i > 0 {
            assert!(y >= previous);
        }
        previous = y;
    }
    assert_eq!(ease(EasingFunction::EaseInOut, 0), 0);
    assert_eq!(ease(EasingFunction::EaseInOut, FRAC_SCALE), FRAC_SCALE);
}

#[test]
fn cubic_progress_exact_values() {
    assert_eq!(ease(EasingFunction::EaseInOut, 250), 156);
    assert_eq!(ease(EasingFunction::EaseInOut, 500), 500);
    assert_eq!(ease(EasingFunction::EaseInOut, 750), 843);
}

#[test]
fn instant_snaps_to_completion_for_any_positive_progress() {
    assert_eq!(ease(EasingFunction::Instant, 0), 0);
    assert_eq!(ease(EasingFunction::Instant, 1), FRAC_SCALE);
    assert_eq!(ease(EasingFunction::Instant, 999), FRAC_SCALE);
    assert_eq!(ease(EasingFunction::Instant, FRAC_SCALE), FRAC_SCALE);
}

#[test]
fn every_preset_is_monotone_across_a_sweep() {
    let presets = [
        EasingFunction::Instant,
        EasingFunction::Linear,
        EasingFunction::EaseIn,
        EasingFunction::EaseOut,
        EasingFunction::EaseInOut,
    ];
    for preset in presets {
        let mut previous = ease(preset, 0);
        let mut t = 50u64;
        while t <= FRAC_SCALE {
            let y = ease(preset, t);
            assert!(y >= previous);
            assert!(y <= FRAC_SCALE);
            previous = y;
            t += 50;
        }
        assert_eq!(ease(preset, FRAC_SCALE), FRAC_SCALE);
    }
}
