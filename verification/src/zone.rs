//! Camera zones: spatial trigger volumes arranged in a tree.
//!
//! Each zone carries an action — move the camera to a pose, or open the
//! in-world computer — and the tree is held as an arena of nodes with
//! parent and child indices. A camera tracks its current zone; clicking a
//! child zone of the current one performs that child's action, and backing
//! up looks up the current zone's parent and moves to its pose. The
//! geometric hit test against the zone's bounds is the caller's concern:
//! these functions decide what a resolved click or back-up does.

use vstd::prelude::*;

verus! {

use crate::easing::EasingFunction;
use crate::path::{CameraPathFollower, CameraPathSegment, Transform};
use crate::timer::CountdownTimer;
use crate::transition::AmbientAudioType;

/// How long a zone move takes, in milliseconds.
pub const ZONE_MOVE_DURATION_MS: u64 = 1000;

/// How long the blackout fade before entering the computer takes.
pub const COMPUTER_FADE_OUT_MS: u64 = 1000;

/// How long the storm ambience fades out before entering the computer.
pub const COMPUTER_AMBIENT_FADE_MS: u64 = 1000;

/// How long after a computer click the world toggle is delivered.
pub const WORLD_TOGGLE_DELAY_MS: u64 = 1200;

/// A zone's trigger volume, as full side lengths in fixed-point
/// thousandths. Only the caller's hit test reads it.
#[derive(Clone, Copy, PartialEq, Eq, Structural, Debug)]
pub struct Cuboid {
    pub x_length: i64,
    pub y_length: i64,
    pub z_length: i64,
}

impl Cuboid {
    pub fn new(x_length: i64, y_length: i64, z_length: i64) -> (c: Self)
        ensures
            c == (Cuboid { x_length, y_length, z_length }),
    {
        Cuboid { x_length, y_length, z_length }
    }
}

/// What activating a zone does.
#[derive(Clone, Copy, PartialEq, Eq, Structural, Debug)]
pub enum CameraZoneAction {
    Move(Transform),
    Computer,
}

/// A clickable zone: a trigger volume and its action.
#[derive(Clone, Copy, PartialEq, Eq, Structural, Debug)]
pub struct CameraZone {
    pub bounds: Cuboid,
    pub event: CameraZoneAction,
}

impl CameraZone {
    pub fn new(bounds: Cuboid, event: CameraZoneAction) -> (z: Self)
        ensures
            z == (CameraZone { bounds, event }),
    {
        CameraZone { bounds, event }
    }

    pub fn new_movement_zone(bounds: Cuboid, target_transform: Transform) -> (z: Self)
        ensures
            z == (CameraZone { bounds, event: CameraZoneAction::Move(target_transform) }),
    {
        CameraZone { bounds, event: CameraZoneAction::Move(target_transform) }
    }
}

/// A zone in the arena: its data plus its place in the tree.
#[derive(Clone, Debug)]
pub struct ZoneNode {
    pub zone: CameraZone,
    pub parent: Option<usize>,
    pub children: Vec<usize>,
}

/// The camera's current zone, as an arena index.
#[derive(Clone, Copy, PartialEq, Eq, Structural, Debug)]
pub struct CurrentZone(pub usize);

/// What a resolved click on a zone asks the frame to do.
pub struct ZoneClickOutcome {
    /// The path follower to attach to the camera.
    pub follower: CameraPathFollower,
    /// The camera's new current zone, where the click changes it.
    pub new_current: Option<usize>,
    /// A blackout fade-out to raise, with its duration.
    pub fade_out_ms: Option<u64>,
    /// An ambient fade-out to raise: which source, over how long.
    pub ambient_fade_out: Option<(AmbientAudioType, u64)>,
    /// A world-toggle event to deliver after this delay.
    pub delayed_toggle_ms: Option<u64>,
}

/// The single eased segment a zone move produces.
pub open spec fn zone_move_segments(target: Transform) -> Seq<CameraPathSegment> {
    seq![
        CameraPathSegment {
            target_transform: target,
            curve: EasingFunction::EaseInOut,
            length: ZONE_MOVE_DURATION_MS,
        },
    ]
}

/// Whether `x` occurs in a child-index list.
fn children_contains(children: &Vec<usize>, x: usize) -> (found: bool)
    ensures
        found == children@.contains(x),
{
    let mut i: usize = 0;
    while i < children.len()
        invariant
            0 <= i <= children@.len(),
            forall|j: int| 0 <= j < i ==> children@[j] != x,
        decreases children@.len() - i,
    {
        if children[i] == x {
            return true;
        }
        i = i + 1;
    }
    false
}

/// Resolves a click that the caller's ray test attributed to the zone at
/// index `clicked`: the click acts only if that zone is a child of the
/// camera's current zone. A `Move` zone starts an eased camera path to its
/// pose and becomes the current zone; the `Computer` zone starts an eased
/// path to the computer viewing pose, fades the screen to black and the
/// storm ambience to silence, and schedules the world toggle — leaving the
/// current zone unchanged.
pub fn detect_camera_zone_click(
    zones: &Vec<ZoneNode>,
    current: usize,
    clicked: usize,
    computer_view: &Transform,
) -> (outcome: Option<ZoneClickOutcome>)
    ensures
        outcome is Some <==> (current < zones@.len() && clicked < zones@.len()
            && zones@[current as int].children@.contains(clicked)),
        outcome matches Some(o) ==> match zones@[clicked as int].zone.event {
            CameraZoneAction::Move(target) => {
                &&& o.follower.segments() == zone_move_segments(target)
                &&& o.follower.timer == CountdownTimer::new_spec(ZONE_MOVE_DURATION_MS)
                &&& o.follower.wf()
                &&& o.follower.should_run
                &&& o.new_current == Some(clicked)
                &&& o.fade_out_ms is None
                &&& o.ambient_fade_out is None
                &&& o.delayed_toggle_ms is None
            },
            CameraZoneAction::Computer => {
                &&& o.follower.segments() == zone_move_segments(*computer_view)
                &&& o.follower.timer == CountdownTimer::new_spec(ZONE_MOVE_DURATION_MS)
                &&& o.follower.wf()
                &&& o.follower.should_run
                &&& o.new_current is None
                &&& o.fade_out_ms == Some(COMPUTER_FADE_OUT_MS)
                &&& o.ambient_fade_out == Some(
                    (AmbientAudioType::Storm, COMPUTER_AMBIENT_FADE_MS),
                )
                &&& o.delayed_toggle_ms == Some(WORLD_TOGGLE_DELAY_MS)
            },
        },
{
    if current >= zones.len() || clicked >= zones.len() {
        return None;
    }
    if !children_contains(&zones[current].children, clicked) {
        return None;
    }
    match &zones[clicked].zone.event {
        CameraZoneAction::Move(target) => {
            let follower = CameraPathFollower::to_transform(*target, ZONE_MOVE_DURATION_MS);
            Some(
                ZoneClickOutcome {
                    follower,
                    new_current: Some(clicked),
                    fade_out_ms: None,
                    ambient_fade_out: None,
                    delayed_toggle_ms: None,
                },
            )
        },
        CameraZoneAction::Computer => {
            let follower = CameraPathFollower::to_transform(*computer_view, ZONE_MOVE_DURATION_MS);
            Some(
                ZoneClickOutcome {
                    follower,
                    new_current: None,
                    fade_out_ms: Some(COMPUTER_FADE_OUT_MS),
                    ambient_fade_out: Some((AmbientAudioType::Storm, COMPUTER_AMBIENT_FADE_MS)),
                    delayed_toggle_ms: Some(WORLD_TOGGLE_DELAY_MS),
                },
            )
        },
    }
}

/// Resolves a back-up request (escape): looks up the current zone's parent
/// and, where that parent is a `Move` zone, starts an eased camera path to
/// its pose. The current-zone pointer keeps its node. Returns nothing when
/// the current zone has no parent or the parent is not a `Move` zone.
pub fn detect_back_up(zones: &Vec<ZoneNode>, current: usize) -> (follower: Option<
    CameraPathFollower,
>)
    ensures
        follower is Some <==> ({
            &&& current < zones@.len()
            &&& zones@[current as int].parent is Some
            &&& zones@[current as int].parent->Some_0 < zones@.len()
            &&& zones@[zones@[current as int].parent->Some_0 as int].zone.event is Move
        }),
        follower matches Some(f) ==> ({
            let p = zones@[current as int].parent->Some_0;
            let target = zones@[p as int].zone.event->Move_0;
            &&& f.segments() == zone_move_segments(target)
            &&& f.timer == CountdownTimer::new_spec(ZONE_MOVE_DURATION_MS)
            &&& f.wf()
            &&& f.should_run
        }),
{
    if current >= zones.len() {
        return None;
    }
    match zones[current].parent {
        Some(p) => {
            if p >= zones.len() {
                return None;
            }
            match &zones[p].zone.event {
                CameraZoneAction::Move(target) => {
                    Some(CameraPathFollower::to_transform(*target, ZONE_MOVE_DURATION_MS))
                },
                CameraZoneAction::Computer => None,
            }
        },
        None => None,
    }
}

} // verus!
