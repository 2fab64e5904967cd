use tickwork::path::Vec3Fixed;
use tickwork::sound::{update_sound_effects, PlaySoundEvent, SoundFinishedEvent};
use tickwork::transition::AmbientAudioType;

#[test]
fn play_requests_are_spatial_exactly_when_positioned() {
    let here = Vec3Fixed { x: 1, y: 2, z: 3 };
    let spatial = PlaySoundEvent::new(7, 300, Some(here));
    assert!(spatial.catch_play_sound_events());
    assert_eq!(spatial.volume, 300);

    let flat = PlaySoundEvent::new(7, 300, None);
    assert!(!flat.catch_play_sound_events());
}

#[test]
fn finished_sounds_are_despawned_only_once_a_sink_drains() {
    assert!(!update_sound_effects(None, None));
    assert!(!update_sound_effects(Some(false), None));
    assert!(update_sound_effects(Some(true), None));
    assert!(update_sound_effects(None, Some(true)));
    assert!(update_sound_effects(Some(false), Some(true)));
    assert!(!update_sound_effects(Some(false), Some(false)));
}

#[test]
fn sound_finished_event_carries_its_asset_key() {
    let done = SoundFinishedEvent(42);
    assert_eq!(done.0, 42);
}

#[test]
fn ambient_types_enumerate_in_spawn_order_with_labels() {
    let all = AmbientAudioType::all();
    assert_eq!(all, vec![AmbientAudioType::Computer, AmbientAudioType::Storm]);
    assert_eq!(AmbientAudioType::Computer.label(), "Computer");
    assert_eq!(AmbientAudioType::Storm.label(), "Storm");
}
