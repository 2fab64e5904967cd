//! Game worlds, game state, and load-progress tracking.
//!
//! The game runs one of two worlds — the 3D room or the in-world computer —
//! and toggles between them on request, announcing each change. Loading is
//! a two-stage gate: first every tracked asset must finish loading, then
//! every spawned scene instance must become ready.

use vstd::prelude::*;

verus! {

/// The top-level lifecycle of a session.
#[derive(Clone, Copy, PartialEq, Eq, Structural, Hash, Debug)]
pub enum GameState {
    Loading,
    PreparingScene,
    Active,
    Paused,
}

impl Default for GameState {
    /// A session starts loading.
    fn default() -> (s: Self)
        ensures
            s == GameState::Loading,
    {
        GameState::Loading
    }
}

/// Which of the two worlds the player currently inhabits.
#[derive(Clone, Copy, PartialEq, Eq, Structural, Hash, Debug)]
pub enum GameWorld {
    Computer,
    Room,
}

impl Default for GameWorld {
    /// The game opens in the room.
    fn default() -> (w: Self)
        ensures
            w == GameWorld::Room,
    {
        GameWorld::Room
    }
}

/// The world the game is currently in.
#[derive(Clone, Copy, PartialEq, Eq, Structural, Debug)]
pub struct CurrentGameWorld(pub GameWorld);

impl Default for CurrentGameWorld {
    fn default() -> (w: Self)
        ensures
            w == CurrentGameWorld(GameWorld::Room),
    {
        CurrentGameWorld(GameWorld::Room)
    }
}

/// The world that is not the given one.
pub open spec fn other_world(w: GameWorld) -> GameWorld {
    match w {
        GameWorld::Computer => GameWorld::Room,
        GameWorld::Room => GameWorld::Computer,
    }
}

impl CurrentGameWorld {
    /// Switches to the other world.
    pub fn toggle(&mut self)
        ensures
            final(self).0 == other_world(old(self).0),
    {
        self.0 = match self.0 {
            GameWorld::Computer => GameWorld::Room,
            GameWorld::Room => GameWorld::Computer,
        };
    }
}

/// Request to switch between the room and the computer world.
#[derive(Clone, Copy, PartialEq, Eq, Structural, Debug)]
pub struct ToggleGameWorldEvent;

/// Announcement that the world just changed, carrying the world now active.
#[derive(Clone, Copy, PartialEq, Eq, Structural, Debug)]
pub struct OnGameWorldChangeEvent(pub GameWorld);

/// Marker for the camera that is driving the primary view.
#[derive(Clone, Copy, Debug)]
pub struct ActiveCamera;

/// Session-wide boolean switches.
#[derive(Clone, Copy, Debug)]
pub struct GameFlags {}

impl Default for GameFlags {
    fn default() -> (f: Self)
        ensures
            f == (GameFlags {  }),
    {
        GameFlags {  }
    }
}

/// What one world switch asks the frame to do.
#[derive(Clone, Copy, PartialEq, Eq, Structural, Debug)]
pub struct SwitchOutcome {
    /// The world whose camera becomes the active one.
    pub activate: GameWorld,
    /// The change announcement to broadcast.
    pub change_event: OnGameWorldChangeEvent,
}

/// Performs a requested world toggle: the other world's camera takes over
/// the primary view, the current-world record flips, and the change is
/// announced with the newly active world.
pub fn switch_game_world(current: &mut CurrentGameWorld) -> (outcome: SwitchOutcome)
    ensures
        final(current).0 == other_world(old(current).0),
        outcome.activate == other_world(old(current).0),
        outcome.change_event == OnGameWorldChangeEvent(other_world(old(current).0)),
{
    let target = match current.0 {
        GameWorld::Computer => GameWorld::Room,
        GameWorld::Room => GameWorld::Computer,
    };
    current.toggle();
    SwitchOutcome { activate: target, change_event: OnGameWorldChangeEvent(target) }
}

/// What the asset server reports for one tracked asset.
#[derive(Clone, Copy, PartialEq, Eq, Structural, Debug)]
pub enum AssetLoadState {
    Loaded,
    Loading,
    Failed,
    NotLoaded,
}

/// The loading gate: once every tracked asset reports loaded, the session
/// advances to scene preparation; until then it stays where it is.
pub fn check_for_loading_complete(states: &Vec<AssetLoadState>) -> (next: Option<GameState>)
    ensures
        next is Some <==> (forall|i: int|
            0 <= i < states@.len() ==> (#[trigger] states@[i]) is Loaded),
        next is Some ==> next == Some(GameState::PreparingScene),
{
    let mut i: usize = 0;
    while i < states.len()
        invariant
            0 <= i <= states@.len(),
            forall|j: int| 0 <= j < i ==> (#[trigger] states@[j]) is Loaded,
        decreases states@.len() - i,
    {
        match states[i] {
            AssetLoadState::Loaded => {
            },
            _ => {
                return None;
            },
        }
        i = i + 1;
    }
    Some(GameState::PreparingScene)
}

/// The scene gate: once every spawned scene instance reports ready, the
/// session becomes active.
pub fn check_for_scene_complete(ready: &Vec<bool>) -> (next: Option<GameState>)
    ensures
        next is Some <==> (forall|i: int| 0 <= i < ready@.len() ==> #[trigger] ready@[i]),
        next is Some ==> next == Some(GameState::Active),
{
    let mut i: usize = 0;
    while i < ready.len()
        invariant
            0 <= i <= ready@.len(),
            forall|j: int| 0 <= j < i ==> #[trigger] ready@[j],
        decreases ready@.len() - i,
    {
        if !ready[i] {
            return None;
        }
        i = i + 1;
    }
    Some(GameState::Active)
}

/// The debug overlay switch.
#[derive(Clone, Copy, PartialEq, Eq, Structural, Debug)]
pub struct DebugMode(pub bool);

impl Default for DebugMode {
    /// Debugging starts enabled.
    fn default() -> (d: Self)
        ensures
            d == DebugMode(true),
    {
        DebugMode(true)
    }
}

impl DebugMode {
    pub fn toggle(&mut self)
        ensures
            final(self).0 == !old(self).0,
    {
        self.0 = !self.0;
    }

    pub fn is_enabled(&self) -> (e: bool)
        ensures
            e == self.0,
    {
        self.0
    }
}

} // verus!
