use tickwork::path::{QuatFixed, Transform, Vec3Fixed};
use tickwork::transition::AmbientAudioType;
use tickwork::world::{
    check_for_loading_complete, check_for_scene_complete, switch_game_world, AssetLoadState,
    CurrentGameWorld, DebugMode, GameState, GameWorld, OnGameWorldChangeEvent,
};
use tickwork::zone::{
    detect_back_up, detect_camera_zone_click, CameraZone, CameraZoneAction, Cuboid, ZoneNode,
};

fn pose(x: i64, y: i64, z: i64) -> Transform {
    Transform {
        translation: Vec3Fixed { x, y, z },
        rotation: QuatFixed { x: 0, y: 0, z: 0, w: 1000 },
    }
}

fn demo_zones() -> (Vec<ZoneNode>, Transform, Transform) {
    let root_pose = pose(-1000, 1000, -1000);
    let desk_pose = pose(0, 1000, 841);
    let root = ZoneNode {
        zone: CameraZone::new_movement_zone(Cuboid::new(1000, 1000, 1000), root_pose),
        parent: None,
        children: vec![1],
    };
    let desk = ZoneNode {
        zone: CameraZone::new_movement_zone(Cuboid::new(1000, 1000, 1000), desk_pose),
        parent: Some(0),
        children: vec![2],
    };
    let computer = ZoneNode {
        zone: CameraZone::new(Cuboid::new(580, 580, 420), CameraZoneAction::Computer),
        parent: Some(1),
        children: vec![],
    };
    (vec![root, desk, computer], root_pose, desk_pose)
}

#[test]
fn clicking_a_child_move_zone_starts_a_path_and_updates_the_current_zone() {
    let (zones, _, desk_pose) = demo_zones();
    let outcome = detect_camera_zone_click(&zones, 0, 1, &pose(0, 0, 0)).unwrap();
    assert_eq!(outcome.new_current, Some(1));
    assert_eq!(*outcome.follower.get_current_target(), desk_pose);
    assert_eq!(outcome.follower.get_current_length(), 1000);
    assert!(outcome.fade_out_ms.is_none());
    assert!(outcome.ambient_fade_out.is_none());
    assert!(outcome.delayed_toggle_ms.is_none());
}

#[test]
fn clicking_the_computer_zone_fades_and_schedules_the_world_toggle() {
    let (zones, _, _) = demo_zones();
    let computer_view = pose(191, 1078, 1587);
    let outcome = detect_camera_zone_click(&zones, 1, 2, &computer_view).unwrap();
    assert!(outcome.new_current.is_none());
    assert_eq!(*outcome.follower.get_current_target(), computer_view);
    assert_eq!(outcome.fade_out_ms, Some(1000));
    assert_eq!(outcome.ambient_fade_out, Some((AmbientAudioType::Storm, 1000)));
    assert_eq!(outcome.delayed_toggle_ms, Some(1200));
}

#[test]
fn clicks_outside_the_current_zones_children_do_nothing() {
    let (zones, _, _) = demo_zones();
    assert!(detect_camera_zone_click(&zones, 0, 2, &pose(0, 0, 0)).is_none());
    assert!(detect_camera_zone_click(&zones, 5, 1, &pose(0, 0, 0)).is_none());
    assert!(detect_camera_zone_click(&zones, 0, 9, &pose(0, 0, 0)).is_none());
}

#[test]
fn backing_up_moves_to_the_parent_pose() {
    let (zones, root_pose, desk_pose) = demo_zones();
    let follower = detect_back_up(&zones, 1).unwrap();
    assert_eq!(*follower.get_current_target(), root_pose);

    let follower = detect_back_up(&zones, 2).unwrap();
    assert_eq!(*follower.get_current_target(), desk_pose);

    assert!(detect_back_up(&zones, 0).is_none());
    assert!(detect_back_up(&zones, 7).is_none());
}

#[test]
fn world_toggle_flips_and_announces_the_new_world() {
    let mut current = CurrentGameWorld::default();
    assert_eq!(current.0, GameWorld::Room);

    let outcome = switch_game_world(&mut current);
    assert_eq!(current.0, GameWorld::Computer);
    assert_eq!(outcome.activate, GameWorld::Computer);
    assert_eq!(outcome.change_event, OnGameWorldChangeEvent(GameWorld::Computer));

    let outcome = switch_game_world(&mut current);
    assert_eq!(current.0, GameWorld::Room);
    assert_eq!(outcome.activate, GameWorld::Room);
}

#[test]
fn loading_gate_advances_only_when_everything_loaded() {
    let pending = vec![AssetLoadState::Loaded, AssetLoadState::Loading, AssetLoadState::Loaded];
    assert!(check_for_loading_complete(&pending).is_none());

    let failed = vec![AssetLoadState::Failed];
    assert!(check_for_loading_complete(&failed).is_none());

    let done = vec![AssetLoadState::Loaded, AssetLoadState::Loaded];
    assert_eq!(check_for_loading_complete(&done), Some(GameState::PreparingScene));

    let nothing: Vec<AssetLoadState> = vec![];
    assert_eq!(check_for_loading_complete(&nothing), Some(GameState::PreparingScene));
}

#[test]
fn scene_gate_advances_only_when_every_instance_is_ready() {
    assert!(check_for_scene_complete(&vec![true, false]).is_none());
    assert_eq!(check_for_scene_complete(&vec![true, true]), Some(GameState::Active));
}

#[test]
fn debug_mode_starts_enabled_and_toggles() {
    let mut debug = DebugMode::default();
    assert!(debug.is_enabled());
    debug.toggle();
    assert!(!debug.is_enabled());
    debug.toggle();
    assert!(debug.is_enabled());
}
