use tickwork::path::{QuatFixed, Transform, Vec3Fixed};
use tickwork::terminal::{on_terminal_command, TerminalCommandEvent, TerminalComponent};
use tickwork::zone::CameraZoneAction;

fn pose(x: i64, y: i64, z: i64) -> Transform {
    Transform {
        translation: Vec3Fixed { x, y, z },
        rotation: QuatFixed { x: 0, y: 0, z: 0, w: 1000 },
    }
}

#[test]
fn a_fresh_terminal_greets_the_user() {
    let t = TerminalComponent::default();
    assert_eq!(t.lines.len(), 3);
    assert_eq!(t.lines[0], "G64 Os 1.36.7 (build 10)");
    assert_eq!(t.lines[1], "Welcome! Type 'help' for help.");
    assert_eq!(t.lines[2], "");
    assert_eq!(t.current_input, "");
    assert!(t.blink);
}

#[test]
fn long_lines_break_into_width_sized_rows() {
    let mut t = TerminalComponent::default();
    t.lines.clear();
    t.add_line("abcdef", 3);
    assert_eq!(t.lines, vec!["abc".to_string(), "def".to_string()]);
    t.lines.clear();
    t.add_line("abcd", 3);
    assert_eq!(t.lines, vec!["abc".to_string(), "d".to_string()]);
    t.lines.clear();
    t.add_line("ab", 3);
    assert_eq!(t.lines, vec!["ab".to_string()]);
    t.lines.clear();
    t.add_line("", 3);
    assert_eq!(t.lines, vec!["".to_string()]);
}

#[test]
fn typing_editing_and_submitting_echo_behind_the_prompt() {
    let mut t = TerminalComponent::default();
    t.append_input("hid");
    assert_eq!(t.current_input, "hid");
    t.backspace();
    assert_eq!(t.current_input, "hi");
    t.backspace();
    t.backspace();
    assert_eq!(t.current_input, "");
    t.backspace();
    assert_eq!(t.current_input, "");
    t.append_input("hi");
    let cmd = t.submit_input(40);
    assert_eq!(cmd.0, "hi");
    assert_eq!(t.current_input, "");
    assert_eq!(t.lines.last().unwrap(), "User:> hi");
    assert_eq!(t.scroll, 0);
    assert!(t.blink);
}

#[test]
fn the_history_is_capped_by_dropping_the_oldest_line() {
    let mut t = TerminalComponent::default();
    for _ in 0..398 {
        t.add_line("filler", 40);
    }
    assert_eq!(t.lines.len(), 401);
    let first_before = t.lines[0].clone();
    t.submit_input(40);
    assert_eq!(t.lines.len(), 401);
    assert_ne!(t.lines[0], first_before);
}

#[test]
fn help_prints_the_command_summary() {
    let mut t = TerminalComponent::default();
    let before = t.lines.len();
    let outcome = on_terminal_command(&mut t, &TerminalCommandEvent("help".to_string()), 40, None);
    assert!(outcome.is_none());
    assert_eq!(t.lines.len(), before + 8);
    assert_eq!(t.lines[before + 1], "Available commands:");
}

#[test]
fn clear_wipes_the_history() {
    let mut t = TerminalComponent::default();
    let outcome = on_terminal_command(&mut t, &TerminalCommandEvent("clear".to_string()), 40, None);
    assert!(outcome.is_none());
    assert!(t.lines.is_empty());
}

#[test]
fn unknown_commands_are_echoed_back() {
    let mut t = TerminalComponent::default();
    let before = t.lines.len();
    let outcome = on_terminal_command(&mut t, &TerminalCommandEvent("foo".to_string()), 40, None);
    assert!(outcome.is_none());
    assert_eq!(t.lines.len(), before + 1);
    assert_eq!(t.lines.last().unwrap(), "Unknown command: foo");
}

#[test]
fn exit_returns_to_the_current_zones_pose() {
    let mut t = TerminalComponent::default();
    let target = pose(0, 1000, 841);
    let action = CameraZoneAction::Move(target);
    let outcome = on_terminal_command(
        &mut t,
        &TerminalCommandEvent("exit".to_string()),
        40,
        Some(&action),
    )
    .unwrap();
    assert_eq!(*outcome.follower.get_current_target(), target);
    assert_eq!(outcome.follower.get_current_length(), 500);
    assert_eq!(outcome.fade_in_ms, 500);

    let no_pose = on_terminal_command(
        &mut t,
        &TerminalCommandEvent("exit".to_string()),
        40,
        Some(&CameraZoneAction::Computer),
    );
    assert!(no_pose.is_none());

    let nowhere = on_terminal_command(&mut t, &TerminalCommandEvent("exit".to_string()), 40, None);
    assert!(nowhere.is_none());
}

#[test]
fn scrolling_is_clamped_to_the_useful_range() {
    let mut t = TerminalComponent::default();
    t.lines.clear();
    for _ in 0..20 {
        t.add_line("row", 40);
    }
    // 20 rows in a 10-row viewport: offsets 0 through 17 are useful.
    t.apply_scroll(5, 10);
    assert_eq!(t.scroll, 5);
    t.apply_scroll(100, 10);
    assert_eq!(t.scroll, 17);
    t.apply_scroll(-100, 10);
    assert_eq!(t.scroll, 0);

    // A short history cannot scroll at all.
    t.lines.truncate(3);
    t.apply_scroll(5, 10);
    assert_eq!(t.scroll, 0);
}

#[test]
fn the_cursor_blinks_on_the_timer() {
    let mut t = TerminalComponent::default();
    assert!(t.blink);
    assert!(!t.tick_blink(499));
    assert!(t.blink);
    assert!(t.tick_blink(1));
    assert!(!t.blink);
    assert!(t.tick_blink(500));
    assert!(t.blink);
}
