use tickwork::fixed::FRAC_SCALE;
use tickwork::transition::{
    catch_ambient_audio_events, update_ambient_audio_events, update_blackout, AmbientAudio,
    AmbientAudioEvent, AmbientAudioType, BlackoutTransition,
};

#[test]
fn volume_fade_captures_live_start_and_lands_on_target() {
    let intent = AmbientAudioEvent::volume_fade(AmbientAudioType::Storm, 1000, 200);
    let mut fade = catch_ambient_audio_events(&intent, 600);
    assert_eq!(fade.get_starting_volume(), 600);

    let first = update_ambient_audio_events(&mut fade, 400);
    assert_eq!(first.volume, 600);
    assert!(!first.detach);

    let second = update_ambient_audio_events(&mut fade, 400);
    assert_eq!(second.volume, 440);
    assert!(!second.detach);

    let last = update_ambient_audio_events(&mut fade, 300);
    assert_eq!(last.volume, 200);
    assert!(last.detach);
    assert!(!last.pause);
}

#[test]
fn fade_out_ends_at_exact_silence_and_pauses() {
    let intent = AmbientAudioEvent::fade_out(AmbientAudioType::Storm, 1000);
    let mut fade = catch_ambient_audio_events(&intent, 600);
    assert_eq!(fade.get_starting_volume(), 600);

    let first = update_ambient_audio_events(&mut fade, 400);
    assert_eq!(first.volume, 600);
    assert!(!first.pause);

    let second = update_ambient_audio_events(&mut fade, 400);
    assert_eq!(second.volume, 360);

    let last = update_ambient_audio_events(&mut fade, 200);
    assert_eq!(last.volume, 0);
    assert!(last.pause);
    assert!(last.detach);
}

#[test]
fn fade_in_starts_from_silence_and_ends_at_target() {
    let mut fade = AmbientAudioEvent::fade_in(AmbientAudioType::Computer, 500, 800);
    assert_eq!(fade.get_starting_volume(), 0);

    let first = update_ambient_audio_events(&mut fade, 250);
    assert_eq!(first.volume, 0);
    assert!(!first.detach);

    let last = update_ambient_audio_events(&mut fade, 250);
    assert_eq!(last.volume, 800);
    assert!(last.detach);
}

#[test]
fn adoption_does_not_touch_a_fade_in_baseline() {
    let intent = AmbientAudioEvent::fade_in(AmbientAudioType::Computer, 500, 800);
    let adopted = catch_ambient_audio_events(&intent, 600);
    assert_eq!(adopted.get_starting_volume(), 0);
}

#[test]
fn play_sets_volume_immediately_and_detaches() {
    let mut play = AmbientAudioEvent::play(AmbientAudioType::Computer, 450);
    assert_eq!(play.ambient_type(), AmbientAudioType::Computer);
    let step = update_ambient_audio_events(&mut play, 0);
    assert_eq!(step.volume, 450);
    assert!(step.detach);
    assert!(!step.pause);
}

#[test]
fn ambient_marker_matches_its_type() {
    let marker = AmbientAudio(AmbientAudioType::Storm);
    assert!(marker.is_type(&AmbientAudioType::Storm));
    assert!(!marker.is_type(&AmbientAudioType::Computer));
}

#[test]
fn blackout_fade_out_thickens_to_full_black() {
    let mut fade = BlackoutTransition::fade_out(1000);
    let first = update_blackout(&mut fade, 500);
    assert_eq!(first.alpha, 0);
    assert!(!first.detach);

    let second = update_blackout(&mut fade, 400);
    assert_eq!(second.alpha, 500);

    let last = update_blackout(&mut fade, 100);
    assert_eq!(last.alpha, FRAC_SCALE);
    assert!(last.detach);
}

#[test]
fn blackout_fade_in_thins_to_exactly_clear() {
    let mut fade = BlackoutTransition::fade_in(1000);
    let first = update_blackout(&mut fade, 250);
    assert_eq!(first.alpha, FRAC_SCALE);

    let second = update_blackout(&mut fade, 250);
    assert_eq!(second.alpha, 750);

    let last = update_blackout(&mut fade, 500);
    assert_eq!(last.alpha, 0);
    assert!(last.detach);
}
