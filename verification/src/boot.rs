//! The computer's boot screen: a timer-driven startup sequence.
//!
//! When the player enters the computer world while the machine is off, the
//! boot screen starts an eight-second countdown, plays the power-up sound,
//! and schedules the computer ambience to start just before the countdown
//! ends. While it runs, the display shows a staged wall of boot text and
//! then a growing progress box; when the countdown completes, the screen
//! hides itself, the terminal becomes visible, and the computer is up.

use vstd::prelude::*;

verus! {

use crate::delayed::{DelayedEvent, entry_wf, fresh_entry};
use crate::timer::{CountdownTimer, TimerMode, once_crosses, once_step_elapsed};
use crate::transition::{AmbientAudioEvent, AmbientAudioType};

/// How long the boot sequence takes.
pub const BOOT_DURATION_MS: u64 = 8000;

/// The power-up sound's playback volume, in thousandths.
pub const BOOT_REV_VOLUME: u64 = 100;

/// The computer ambience's volume once it starts, in thousandths.
pub const BOOT_AMBIENT_VOLUME: u64 = 100;

/// How long after boot begins the computer ambience starts.
pub const BOOT_AMBIENT_DELAY_MS: u64 = 7990;

/// The lifecycle of the in-world computer.
#[derive(Clone, Copy, PartialEq, Eq, Structural, PartialOrd, Ord, Debug)]
pub enum ComputerState {
    Off,
    OS,
    Game,
}

impl Default for ComputerState {
    /// The computer starts powered off.
    fn default() -> (s: Self)
        ensures
            s == ComputerState::Off,
    {
        ComputerState::Off
    }
}

/// The boot screen attached to the computer's display.
pub struct LoadingScreenComponent {
    pub progress: CountdownTimer,
    pub is_loading: bool,
}

impl Default for LoadingScreenComponent {
    /// A fresh, idle boot screen with the full countdown ahead of it.
    fn default() -> (c: Self)
        ensures
            c.progress == CountdownTimer::new_spec(BOOT_DURATION_MS),
            !c.is_loading,
            c.wf(),
    {
        LoadingScreenComponent {
            progress: CountdownTimer::new(BOOT_DURATION_MS, TimerMode::Once),
            is_loading: false,
        }
    }
}

/// What the boot screen shows at a given point of the countdown.
#[derive(Clone, Copy, PartialEq, Eq, Structural, Debug)]
pub enum BootDisplay {
    /// The first `stages` lines of boot text, in order.
    BootText { stages: u8 },
    /// A centered progress box of this width (0 to 22 columns); once
    /// complete it carries the machine's nameplate.
    ProgressBox { width: u64, complete: bool },
}

/// The display for a given elapsed boot time, in milliseconds: five staged
/// text reveals over the first 2.5 seconds, then a progress box that grows
/// to its full 22 columns over half a second and then stays complete.
pub open spec fn boot_display_spec(elapsed: int) -> BootDisplay {
    if elapsed <= 800 {
        BootDisplay::BootText { stages: 1 }
    } else if elapsed <= 1500 {
        BootDisplay::BootText { stages: 2 }
    } else if elapsed <= 1800 {
        BootDisplay::BootText { stages: 3 }
    } else if elapsed <= 2000 {
        BootDisplay::BootText { stages: 4 }
    } else if elapsed <= 2500 {
        BootDisplay::BootText { stages: 5 }
    } else {
        let progress = if elapsed >= 3000 {
            1000int
        } else {
            (elapsed - 2500) * 2
        };
        BootDisplay::ProgressBox {
            width: ((progress * 22 + 500) / 1000) as u64,
            complete: progress >= 1000,
        }
    }
}

impl LoadingScreenComponent {
    /// The countdown is a one-shot that is live while the boot runs.
    pub open spec fn wf(self) -> bool {
        &&& self.progress.wf()
        &&& self.progress.mode_spec() is Once
        &&& self.progress.duration() == BOOT_DURATION_MS
        &&& self.is_loading ==> !self.progress.is_completed()
    }

    /// What the screen shows right now.
    pub fn render(&self) -> (display: BootDisplay)
        requires
            self.wf(),
        ensures
            display == boot_display_spec(self.progress.elapsed()),
    {
        let elapsed = self.progress.elapsed_ms();
        if elapsed <= 800 {
            BootDisplay::BootText { stages: 1 }
        } else if elapsed <= 1500 {
            BootDisplay::BootText { stages: 2 }
        } else if elapsed <= 1800 {
            BootDisplay::BootText { stages: 3 }
        } else if elapsed <= 2000 {
            BootDisplay::BootText { stages: 4 }
        } else if elapsed <= 2500 {
            BootDisplay::BootText { stages: 5 }
        } else {
            let progress: u64 = if elapsed >= 3000 {
                1000
            } else {
                (elapsed - 2500) * 2
            };
            BootDisplay::ProgressBox {
                width: (progress * 22 + 500) / 1000,
                complete: progress >= 1000,
            }
        }
    }
}

/// One line of the staged boot text, for stages 1 through 5.
pub fn boot_stage_line(stage: u8) -> (line: &'static str)
    requires
        1 <= stage <= 5,
    ensures
        stage == 1 ==> line@ == "Initializing boot..."@,
        stage == 2 ==> line@ == "Loading G64 unified Os..."@,
        stage == 3 ==> line@ == "64MB RAM detected..."@,
        stage == 4 ==> line@ == "G64 Power+ APU detected..."@,
        stage == 5 ==> line@ == "Loading Interface..."@,
{
    match stage {
        1u8 => "Initializing boot...",
        2u8 => "Loading G64 unified Os...",
        3u8 => "64MB RAM detected...",
        4u8 => "G64 Power+ APU detected...",
        _ => "Loading Interface...",
    }
}

/// The nameplate shown once the progress box completes.
pub fn boot_complete_label() -> (label: &'static str)
    ensures
        label@ == "G64+ Pro"@,
{
    "G64+ Pro"
}

/// What starting the boot sequence asks the frame to do.
pub struct StartupActions {
    /// Play the power-up sound at this volume.
    pub rev_sound_volume: u64,
    /// Schedule the computer ambience to start near the end of the boot.
    pub delayed_ambient: DelayedEvent<AmbientAudioEvent>,
}

/// Reacts to a world change: when the player has just switched worlds and
/// the computer is off, the boot sequence begins — the screen becomes
/// visible and loading, the power-up sound plays, and the computer
/// ambience is scheduled to start just before the countdown ends.
/// Otherwise nothing happens.
pub fn begin_startup(
    screen: &mut LoadingScreenComponent,
    computer_state: &ComputerState,
    world_changed: bool,
) -> (actions: Option<StartupActions>)
    requires
        old(screen).wf(),
    ensures
        final(screen).wf(),
        actions is Some <==> (world_changed && *computer_state == ComputerState::Off),
        actions matches Some(a) ==> ({
            &&& a.rev_sound_volume == BOOT_REV_VOLUME
            &&& a.delayed_ambient == fresh_entry(
                AmbientAudioEvent::Play {
                    audio_type: AmbientAudioType::Computer,
                    volume: BOOT_AMBIENT_VOLUME,
                },
                BOOT_AMBIENT_DELAY_MS,
            )
            &&& entry_wf(a.delayed_ambient)
            &&& final(screen).is_loading
            &&& final(screen).progress.elapsed() == 0
        }),
        actions is None ==> *final(screen) == *old(screen),
{
    if world_changed && *computer_state == ComputerState::Off {
        screen.is_loading = true;
        screen.progress.reset();
        let ambient = DelayedEvent::new(
            AmbientAudioEvent::play(AmbientAudioType::Computer, BOOT_AMBIENT_VOLUME),
            BOOT_AMBIENT_DELAY_MS,
        );
        Some(StartupActions { rev_sound_volume: BOOT_REV_VOLUME, delayed_ambient: ambient })
    } else {
        None
    }
}

/// What one boot-screen tick asks of the frame.
#[derive(Clone, Copy, PartialEq, Eq, Structural, Debug)]
pub struct BootScreenStep {
    /// The display changed and must be redrawn.
    pub dirty: bool,
    /// The boot just completed: hide the screen and show the terminal.
    pub finished: bool,
}

/// One frame of a running boot screen: advances the countdown and, on the
/// tick that completes it, stops loading, rewinds the countdown for the
/// next boot, marks the computer as running its operating system, and
/// reports that the terminal should take over. Idle screens do nothing.
pub fn update_loading_screen(
    screen: &mut LoadingScreenComponent,
    computer_state: &mut ComputerState,
    delta_ms: u64,
) -> (step: BootScreenStep)
    requires
        old(screen).wf(),
    ensures
        final(screen).wf(),
        !old(screen).is_loading ==> (*final(screen) == *old(screen) && *final(computer_state)
            == *old(computer_state) && step == (BootScreenStep { dirty: false, finished: false })),
        old(screen).is_loading ==> ({
            let crossed = once_crosses(
                old(screen).progress.duration(),
                old(screen).progress.elapsed(),
                delta_ms as int,
            );
            &&& step.dirty
            &&& step.finished == crossed
            &&& (crossed ==> (!final(screen).is_loading && final(screen).progress.elapsed() == 0
                && !final(screen).progress.is_completed() && *final(computer_state)
                == ComputerState::OS))
            &&& (!crossed ==> (final(screen).is_loading && *final(computer_state) == *old(
                computer_state,
            ) && final(screen).progress.elapsed() == once_step_elapsed(
                old(screen).progress.duration(),
                old(screen).progress.elapsed(),
                delta_ms as int,
            )))
        }),
{
    if !screen.is_loading {
        return BootScreenStep { dirty: false, finished: false };
    }
    let just = screen.progress.tick(delta_ms);
    if just {
        screen.is_loading = false;
        screen.progress.reset();
        *computer_state = ComputerState::OS;
        BootScreenStep { dirty: true, finished: true }
    } else {
        BootScreenStep { dirty: true, finished: false }
    }
}

} // verus!
