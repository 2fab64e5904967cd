//! The in-world text terminal: line history, input editing and commands.
//!
//! The terminal keeps a history of display lines, the line being typed, a
//! scroll offset and a blinking cursor driven by a repeating timer. Long
//! lines are broken into width-sized rows as they are added; submitting
//! the input echoes it behind the prompt, caps the history, and raises a
//! command event. The command dispatcher knows `help`, `clear` and `exit`;
//! anything else is echoed back as unknown.

use vstd::prelude::*;

verus! {

use crate::easing::EasingFunction;
use crate::path::{CameraPathFollower, CameraPathSegment};
use crate::timer::{CountdownTimer, TimerMode};
use crate::zone::CameraZoneAction;

/// The most history lines kept; one older line is dropped past this.
pub const TERMINAL_MAX_LINES: usize = 400;

/// How fast the input cursor blinks.
pub const TERMINAL_BLINK_MS: u64 = 500;

/// How long the camera move back out of the computer takes.
pub const TERMINAL_EXIT_MOVE_MS: u64 = 500;

/// How long the blackout fade back into the room takes.
pub const TERMINAL_EXIT_FADE_MS: u64 = 500;

/// A line the player submitted at the terminal prompt.
#[derive(Clone, Debug)]
pub struct TerminalCommandEvent(pub String);

/// A string broken into rows of at most `width` characters, in order; a
/// string no longer than `width` (the empty string included) is one row.
pub open spec fn break_lines(s: Seq<char>, width: int) -> Seq<Seq<char>>
    recommends
        width > 0,
    decreases s.len(),
{
    if width <= 0 || s.len() <= width {
        seq![s]
    } else {
        seq![s.take(width)] + break_lines(s.skip(width), width)
    }
}

/// The terminal attached to the computer's display.
pub struct TerminalComponent {
    pub lines: Vec<String>,
    pub current_input: String,
    pub scroll: u32,
    pub blink_timer: CountdownTimer,
    pub blink: bool,
}

impl TerminalComponent {
    /// The history as character rows.
    pub open spec fn lines_view(self) -> Seq<Seq<char>> {
        self.lines.deep_view()
    }

    /// The cursor timer is a repeating half-second blink.
    pub open spec fn wf(self) -> bool {
        &&& self.blink_timer.wf()
        &&& self.blink_timer.mode_spec() is Repeating
        &&& self.blink_timer.duration() == TERMINAL_BLINK_MS
    }

    /// Appends a line to the history, broken into `width`-character rows.
    #[verifier::loop_isolation(false)]
    pub fn add_line(&mut self, line: &str, width: u32)
        requires
            width > 0,
        ensures
            final(self).lines_view() == old(self).lines_view() + break_lines(
                line@,
                width as int,
            ),
            final(self).current_input == old(self).current_input,
            final(self).scroll == old(self).scroll,
            final(self).blink_timer == old(self).blink_timer,
            final(self).blink == old(self).blink,
    {
        let ghost whole = line@;
        let mut rest: &str = line;
        loop
            invariant
                width > 0,
                self.lines.deep_view() + break_lines(rest@, width as int) == old(
                    self,
                ).lines_view() + break_lines(whole, width as int),
                self.current_input == old(self).current_input,
                self.scroll == old(self).scroll,
                self.blink_timer == old(self).blink_timer,
                self.blink == old(self).blink,
            decreases rest@.len(),
        {
            let len = rest.unicode_len();
            if len <= width as usize {
                let ghost pre = self.lines@;
                let owned = rest.to_owned();
                self.lines.push(owned);
                proof {
                    assert(break_lines(rest@, width as int) == seq![rest@]);
                    assert forall|i: int| 0 <= i < pre.len() implies #[trigger] self
                        .lines
                        .deep_view()[i] == pre[i].deep_view() by {
                        assert(self.lines@[i] == pre[i]);
                    }
                    assert(self.lines@[pre.len() as int] == owned);
                    assert(self.lines.deep_view()[pre.len() as int] == rest@);
                    assert(self.lines.deep_view() =~= old(self).lines_view() + break_lines(
                        whole,
                        width as int,
                    ));
                }
                return ;
            }
            let head = rest.substring_char(0, width as usize);
            let ghost pre = self.lines@;
            let owned = head.to_owned();
            self.lines.push(owned);
            let tail = rest.substring_char(width as usize, len);
            proof {
                assert(head@ =~= rest@.take(width as int));
                assert(tail@ =~= rest@.skip(width as int));
                assert forall|i: int| 0 <= i < pre.len() implies #[trigger] self
                    .lines
                    .deep_view()[i] == pre[i].deep_view() by {
                    assert(self.lines@[i] == pre[i]);
                }
                assert(self.lines@[pre.len() as int] == owned);
                assert(self.lines.deep_view()[pre.len() as int] == head@);
                assert(self.lines.deep_view() + break_lines(tail@, width as int) =~= old(
                    self,
                ).lines_view() + break_lines(whole, width as int));
            }
            rest = tail;
        }
    }

    /// Appends typed characters to the input line; typing snaps the view
    /// back to the bottom.
    pub fn append_input(&mut self, text: &str)
        ensures
            final(self).current_input@ == old(self).current_input@ + text@,
            final(self).scroll == if text@.len() > 0 {
                0u32
            } else {
                old(self).scroll
            },
            final(self).lines == old(self).lines,
            final(self).blink_timer == old(self).blink_timer,
            final(self).blink == old(self).blink,
    {
        if !text.is_empty() {
            self.scroll = 0;
        }
        self.current_input.append(text);
    }

    /// Deletes the last typed character, if any, and snaps the view back
    /// to the bottom.
    pub fn backspace(&mut self)
        ensures
            old(self).current_input@.len() == 0 ==> final(self).current_input@ == old(
                self,
            ).current_input@,
            old(self).current_input@.len() > 0 ==> final(self).current_input@ == old(
                self,
            ).current_input@.drop_last(),
            final(self).scroll == 0,
            final(self).lines == old(self).lines,
            final(self).blink_timer == old(self).blink_timer,
            final(self).blink == old(self).blink,
    {
        self.scroll = 0;
        let len = self.current_input.as_str().unicode_len();
        if len > 0 {
            let shortened = self.current_input.as_str().substring_char(0, len - 1);
            let shortened = shortened.to_owned();
            proof {
                assert(shortened@ =~= self.current_input@.drop_last());
            }
            self.current_input = shortened;
        }
    }

    /// The highest useful scroll offset for a viewport of `height` rows.
    pub open spec fn spec_max_scroll(self, height: int) -> int {
        if self.lines_view().len() + 7 - height >= 0 {
            self.lines_view().len() + 7 - height
        } else {
            0
        }
    }

    /// Scrolls the history by a number of rows (negative is toward the
    /// bottom), clamped between the bottom and the oldest useful row.
    pub fn apply_scroll(&mut self, delta_rows: i64, height: u32)
        ensures
            ({
                let moved = old(self).scroll + delta_rows;
                let clamped_low = if moved >= 0 {
                    moved
                } else {
                    0int
                };
                let max_scroll = old(self).spec_max_scroll(height as int);
                let target = if clamped_low <= max_scroll {
                    clamped_low
                } else {
                    max_scroll
                };
                final(self).scroll == if target <= u32::MAX {
                    target
                } else {
                    u32::MAX as int
                }
            }),
            final(self).lines == old(self).lines,
            final(self).current_input == old(self).current_input,
            final(self).blink_timer == old(self).blink_timer,
            final(self).blink == old(self).blink,
    {
        proof {
            assert(self.lines.deep_view().len() == self.lines@.len());
        }
        let moved: i128 = self.scroll as i128 + delta_rows as i128;
        let lifted: i128 = if moved >= 0 {
            moved
        } else {
            0
        };
        let limit: i128 = self.lines.len() as i128 + 7 - height as i128;
        let max_scroll: i128 = if limit >= 0 {
            limit
        } else {
            0
        };
        let target: i128 = if lifted <= max_scroll {
            lifted
        } else {
            max_scroll
        };
        self.scroll = if target <= u32::MAX as i128 {
            target as u32
        } else {
            u32::MAX
        };
    }

    /// Advances the cursor blink; each wrap of the repeating timer flips
    /// the cursor and asks for a redraw.
    pub fn tick_blink(&mut self, delta_ms: u64) -> (dirty: bool)
        requires
            old(self).wf(),
        ensures
            final(self).wf(),
            dirty == (old(self).blink_timer.elapsed() + delta_ms >= TERMINAL_BLINK_MS),
            final(self).blink == if dirty {
                !old(self).blink
            } else {
                old(self).blink
            },
            final(self).lines == old(self).lines,
            final(self).current_input == old(self).current_input,
            final(self).scroll == old(self).scroll,
    {
        let wrapped = self.blink_timer.tick(delta_ms);
        if wrapped {
            self.blink = !self.blink;
        }
        wrapped
    }

    /// Submits the typed line: echoes it behind the prompt into the
    /// history (dropping one oldest line past the cap), clears the input,
    /// snaps the view to the bottom, restarts the cursor blink, and hands
    /// back the command event to dispatch.
    pub fn submit_input(&mut self, width: u32) -> (cmd: TerminalCommandEvent)
        requires
            width > 0,
            old(self).wf(),
        ensures
            final(self).wf(),
            cmd.0@ == old(self).current_input@,
            ({
                let appended = old(self).lines_view() + break_lines(
                    "User:> "@ + old(self).current_input@,
                    width as int,
                );
                final(self).lines_view() == if appended.len() > TERMINAL_MAX_LINES {
                    appended.drop_first()
                } else {
                    appended
                }
            }),
            final(self).current_input@ == Seq::<char>::empty(),
            final(self).scroll == 0,
            final(self).blink,
            final(self).blink_timer.elapsed() == 0,
    {
        let input = self.current_input.as_str().to_owned();
        let mut echoed = String::new();
        echoed.append("User:> ");
        echoed.append(input.as_str());
        self.add_line(echoed.as_str(), width);
        if self.lines.len() > TERMINAL_MAX_LINES {
            self.lines.remove(0);
            proof {
                assert(self.lines.deep_view() =~= (old(self).lines_view() + break_lines(
                    "User:> "@ + old(self).current_input@,
                    width as int,
                )).drop_first());
            }
        }
        self.current_input = String::new();
        self.scroll = 0;
        self.blink = true;
        self.blink_timer.reset();
        proof {
            assert(self.current_input@ =~= Seq::<char>::empty());
        }
        TerminalCommandEvent(input)
    }
}

impl Default for TerminalComponent {
    /// A fresh terminal showing the greeting, with an empty prompt and a
    /// blinking cursor.
    fn default() -> (t: Self)
        ensures
            t.lines_view() == seq![
                "G64 Os 1.36.7 (build 10)"@,
                "Welcome! Type 'help' for help."@,
                ""@,
            ],
            t.current_input@ == Seq::<char>::empty(),
            t.scroll == 0,
            t.blink,
            t.blink_timer == (CountdownTimer {
                duration_ms: TERMINAL_BLINK_MS,
                elapsed_ms: 0,
                mode: TimerMode::Repeating,
                completed: false,
            }),
            t.wf(),
    {
        let mut lines: Vec<String> = Vec::new();
        lines.push("G64 Os 1.36.7 (build 10)".to_owned());
        lines.push("Welcome! Type 'help' for help.".to_owned());
        lines.push("".to_owned());
        let t = TerminalComponent {
            lines,
            current_input: String::new(),
            scroll: 0,
            blink_timer: CountdownTimer::new(TERMINAL_BLINK_MS, TimerMode::Repeating),
            blink: true,
        };
        proof {
            assert(t.lines_view() =~= seq![
                "G64 Os 1.36.7 (build 10)"@,
                "Welcome! Type 'help' for help."@,
                ""@,
            ]);
        }
        t
    }
}

/// The rows the `help` command prints, already broken to `width`.
pub open spec fn help_lines(width: int) -> Seq<Seq<char>> {
    break_lines(""@, width) + break_lines("Available commands:"@, width) + break_lines(
        "  help - display this message"@,
        width,
    ) + break_lines("  clear - clear the terminal"@, width) + break_lines(
        "  exit - leave the computer"@,
        width,
    ) + break_lines("  off - turn the computer off"@, width) + break_lines(
        "  load - loads program off of cartridge."@,
        width,
    ) + break_lines(""@, width)
}

/// What a successful `exit` command asks the frame to do; the caller also
/// toggles the game world.
pub struct ExitOutcome {
    /// The eased camera move back to the current zone's pose.
    pub follower: CameraPathFollower,
    /// The blackout fade back into the room, with its duration.
    pub fade_in_ms: u64,
}

/// Dispatches a submitted terminal command. `help` prints the command
/// summary, `clear` wipes the history, `exit` — when the camera's current
/// zone has a pose to return to — asks for the world toggle, an eased
/// camera move to that pose, and a fade back in; anything else is echoed
/// as unknown. Only a successful `exit` returns an outcome.
pub fn on_terminal_command(
    terminal: &mut TerminalComponent,
    command: &TerminalCommandEvent,
    width: u32,
    current_zone_action: Option<&CameraZoneAction>,
) -> (exit: Option<ExitOutcome>)
    requires
        width > 0,
        old(terminal).wf(),
    ensures
        final(terminal).wf(),
        command.0@ == "help"@ ==> (final(terminal).lines_view() == old(terminal).lines_view()
            + help_lines(width as int) && exit is None),
        command.0@ == "clear"@ ==> (final(terminal).lines_view() == Seq::<Seq<char>>::empty()
            && exit is None),
        command.0@ == "exit"@ ==> ({
            &&& final(terminal).lines_view() == old(terminal).lines_view()
            &&& exit is Some <==> (current_zone_action matches Some(a) && *a matches
            CameraZoneAction::Move(_))
            &&& exit matches Some(o) ==> ({
                let target = (*current_zone_action->Some_0)->Move_0;
                &&& o.follower.segments() == seq![
                    CameraPathSegment {
                        target_transform: target,
                        curve: EasingFunction::EaseInOut,
                        length: TERMINAL_EXIT_MOVE_MS,
                    },
                ]
                &&& o.follower.timer == CountdownTimer::new_spec(TERMINAL_EXIT_MOVE_MS)
                &&& o.follower.wf()
                &&& o.follower.should_run
                &&& o.fade_in_ms == TERMINAL_EXIT_FADE_MS
            })
        }),
        (command.0@ != "help"@ && command.0@ != "clear"@ && command.0@ != "exit"@) ==> ({
            &&& final(terminal).lines_view() == old(terminal).lines_view() + break_lines(
                "Unknown command: "@ + command.0@,
                width as int,
            )
            &&& exit is None
        }),
{
    proof {
        reveal_strlit("help");
        reveal_strlit("clear");
        reveal_strlit("exit");
        assert("help"@.len() == 4);
        assert("clear"@.len() == 5);
        assert("exit"@.len() == 4);
        assert("help"@ != "clear"@);
        assert("exit"@ != "clear"@);
        assert("help"@ != "exit"@) by {
            assert("help"@[0] == 'h');
            assert("exit"@[0] == 'e');
        }
    }
    let help_word = "help".to_owned();
    let clear_word = "clear".to_owned();
    let exit_word = "exit".to_owned();
    if command.0 == help_word {
        terminal.add_line("", width);
        terminal.add_line("Available commands:", width);
        terminal.add_line("  help - display this message", width);
        terminal.add_line("  clear - clear the terminal", width);
        terminal.add_line("  exit - leave the computer", width);
        terminal.add_line("  off - turn the computer off", width);
        terminal.add_line("  load - loads program off of cartridge.", width);
        terminal.add_line("", width);
        proof {
            assert(terminal.lines_view() =~= old(terminal).lines_view() + help_lines(
                width as int,
            ));
        }
        None
    } else if command.0 == clear_word {
        terminal.lines.clear();
        proof {
            assert(terminal.lines_view() =~= Seq::<Seq<char>>::empty());
        }
        None
    } else if command.0 == exit_word {
        match current_zone_action {
            Some(action) => match action {
                CameraZoneAction::Move(target) => {
                    let follower = CameraPathFollower::to_transform(
                        *target,
                        TERMINAL_EXIT_MOVE_MS,
                    );
                    Some(ExitOutcome { follower, fade_in_ms: TERMINAL_EXIT_FADE_MS })
                },
                CameraZoneAction::Computer => None,
            },
            None => None,
        }
    } else {
        let mut echoed = String::new();
        echoed.append("Unknown command: ");
        echoed.append(command.0.as_str());
        proof {
            assert(echoed@ =~= "Unknown command: "@ + command.0@);
        }
        terminal.add_line(echoed.as_str(), width);
        None
    }
}

} // verus!
