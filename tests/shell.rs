use minikernel::commands::{clear, command_fn, lookup, CommandKind, CommandOutput, ShellAction};
use minikernel::datetime::{get_date, get_time, DateTime};
use minikernel::line::{LineBuffer, COLS, ROWS};
use minikernel::shell::Shell;

/// A buffer with `$: ` and `typed` on row `row`.
fn typed_on(row: usize, typed: &str) -> LineBuffer {
    let mut buffer = LineBuffer::new();
    let mut line = b"$: ".to_vec();
    line.extend_from_slice(typed.as_bytes());
    buffer.write_text(row, 0, &line);
    buffer
}

fn run(typed: &str, clock: &mut DateTime) -> (CommandOutput, LineBuffer) {
    let mut buffer = typed_on(4, typed);
    let out = command_fn(&mut buffer, 4, clock);
    (out, buffer)
}

fn row_text(buffer: &LineBuffer, row: usize, len: usize) -> Vec<u8> {
    (0..len).map(|c| buffer.get(row, c)).collect()
}

#[test]
fn hello_replies_on_next_row() {
    let mut clock = DateTime::default();
    let (out, buffer) = run("hello", &mut clock);
    assert_eq!(out.message, b"HELLO!".to_vec());
    assert_eq!(out.row, 5);
    assert_eq!(out.action, ShellAction::Continue);
    assert!(!out.reset());
    assert_eq!(row_text(&buffer, 5, 6), b"HELLO!".to_vec());
    assert_eq!(buffer.get(5, 6), 0);
    assert_eq!(clock, DateTime::default());
}

#[test]
fn partial_or_extended_names_are_errors() {
    let mut clock = DateTime::default();
    for typed in ["hell", "helloo", "HELLO", "", "tim", "time_", "clearx"] {
        let (out, buffer) = run(typed, &mut clock);
        assert_eq!(out.message, b"Error: command".to_vec(), "typed {:?}", typed);
        assert_eq!(out.action, ShellAction::Continue);
        assert_eq!(row_text(&buffer, 5, 14), b"Error: command".to_vec());
    }
}

#[test]
fn arguments_after_space_are_ignored_and_nul_stripped() {
    let mut clock = DateTime::default();
    let (out, _) = run("hello world", &mut clock);
    assert_eq!(out.message, b"HELLO!".to_vec());
    let mut buffer = typed_on(0, "hel");
    buffer.set(0, 6, 0);
    buffer.set(0, 7, b'l');
    buffer.set(0, 8, b'\t');
    buffer.set(0, 9, b'o');
    let out = command_fn(&mut buffer, 0, &mut clock);
    assert_eq!(out.message, b"HELLO!".to_vec());
}

#[test]
fn error_command_itself() {
    let mut clock = DateTime::default();
    let (out, _) = run("error", &mut clock);
    assert_eq!(out.message, b"Error: command".to_vec());
}

#[test]
fn time_set_valid() {
    let mut clock = DateTime::default();
    let (out, buffer) = run("time_set 12:30:00", &mut clock);
    assert_eq!(out.message, b"Time set!".to_vec());
    assert_eq!(get_time(&clock), (12, 30, 0));
    assert_eq!(get_date(&clock), (1, 1, 2023));
    assert_eq!(row_text(&buffer, 5, 9), b"Time set!".to_vec());
}

#[test]
fn time_set_out_of_range_is_accepted() {
    let mut clock = DateTime::default();
    let (out, _) = run("time_set 99:99:99", &mut clock);
    assert_eq!(out.message, b"Time set!".to_vec());
    assert_eq!(get_time(&clock), (99, 99, 99));
}

#[test]
fn time_set_malformed_leaves_clock() {
    for typed in [
        "time_set ab:cd:ef",
        "time_set 12:30",
        "time_set 1:2:3",
        "time_set 300:1:2",
        "time_set",
        "time_set 1:2:3:45",
        "time_set 12-30-00",
    ] {
        let mut clock = DateTime::default();
        let (out, _) = run(typed, &mut clock);
        assert_eq!(out.message, b"Invalid time format!".to_vec(), "typed {:?}", typed);
        assert_eq!(clock, DateTime::default());
    }
}

#[test]
fn time_set_with_plus_signs_and_padding() {
    let mut clock = DateTime::default();
    let (out, _) = run("time_set +1:+2:+3", &mut clock);
    assert_eq!(out.message, b"Time set!".to_vec());
    assert_eq!(get_time(&clock), (1, 2, 3));
    let mut clock = DateTime::default();
    let (out, _) = run("time_set  1:2:30 ", &mut clock);
    assert_eq!(out.message, b"Time set!".to_vec());
    assert_eq!(get_time(&clock), (1, 2, 30));
}

#[test]
fn date_set_valid_and_invalid() {
    let mut clock = DateTime::default();
    let (out, _) = run("date_set 29.02.2024", &mut clock);
    assert_eq!(out.message, b"Date set!".to_vec());
    assert_eq!(get_date(&clock), (29, 2, 2024));
    assert_eq!(get_time(&clock), (12, 0, 0));
    let (out, _) = run("date_set 1.1.99999 ", &mut clock);
    assert_eq!(out.message, b"Invalid date format!".to_vec());
    assert_eq!(get_date(&clock), (29, 2, 2024));
    let (out, _) = run("date_set 1/1/2000", &mut clock);
    assert_eq!(out.message, b"Invalid date format!".to_vec());
}

#[test]
fn time_and_date_queries_zero_pad() {
    let mut clock = DateTime { day: 5, month: 7, year: 987, hours: 9, minutes: 5, seconds: 0 };
    let (out, buffer) = run("time", &mut clock);
    assert_eq!(out.message, b"09:05:00".to_vec());
    assert_eq!(row_text(&buffer, 5, 8), b"09:05:00".to_vec());
    let (out, _) = run("date", &mut clock);
    assert_eq!(out.message, b"05.07.0987".to_vec());
    let mut clock = DateTime { day: 255, month: 12, year: 2023, hours: 100, minutes: 5, seconds: 0 };
    let (out, _) = run("time", &mut clock);
    assert_eq!(out.message, b"100:05:00".to_vec());
    let (out, _) = run("date", &mut clock);
    assert_eq!(out.message, b"255.12.2023".to_vec());
}

#[test]
fn reboot_and_shutdown_report_then_act() {
    let mut clock = DateTime::default();
    let (out, _) = run("reboot", &mut clock);
    assert_eq!(out.message, b"Rebooting...".to_vec());
    assert_eq!(out.action, ShellAction::Reboot);
    let (out, _) = run("shutdown", &mut clock);
    assert_eq!(out.message, b"Shutting down...".to_vec());
    assert_eq!(out.action, ShellAction::PowerOff);
}

#[test]
fn clear_command_wipes_everything() {
    let mut clock = DateTime::default();
    let mut buffer = typed_on(7, "clear");
    for r in 0..ROWS {
        if r != 7 {
            buffer.set(r, 40, b'x');
        }
    }
    let out = command_fn(&mut buffer, 7, &mut clock);
    assert!(out.reset());
    assert_eq!(out.action, ShellAction::Reset);
    assert!(out.message.is_empty());
    for r in 0..ROWS {
        for c in 0..COLS {
            assert_eq!(buffer.get(r, c), 0);
        }
    }
}

#[test]
fn clear_function_resets_any_content() {
    let mut buffer = LineBuffer::new();
    for r in 0..ROWS {
        buffer.write_text(r, 0, &[b'#'; COLS]);
    }
    assert!(clear(&mut buffer));
    for r in 0..ROWS {
        assert_eq!(buffer.row_bytes(r), vec![0u8; COLS]);
    }
}

#[test]
fn lookup_by_exact_name() {
    let names = [
        ("hello", CommandKind::Hello),
        ("time", CommandKind::Time),
        ("time_set", CommandKind::TimeSet),
        ("date", CommandKind::Date),
        ("date_set", CommandKind::DateSet),
        ("error", CommandKind::Error),
        ("reboot", CommandKind::Reboot),
        ("shutdown", CommandKind::Shutdown),
        ("clear", CommandKind::Clear),
        ("unknown", CommandKind::Error),
    ];
    for (name, kind) in names {
        assert_eq!(lookup(&name.as_bytes().to_vec()), kind);
    }
}

#[test]
fn shell_types_and_submits() {
    let mut shell = Shell::new();
    let mut clock = DateTime::default();
    shell.print_prompt();
    assert_eq!((shell.row, shell.col), (0, 3));
    for b in b"hellp" {
        shell.insert(*b);
    }
    shell.backspace();
    assert_eq!(shell.col, 7);
    shell.insert(b'o');
    let out = shell.submit(&mut clock);
    assert_eq!(out.message, b"HELLO!".to_vec());
    assert_eq!((shell.row, shell.col), (2, 3));
    assert_eq!(row_text(&shell.buffer, 0, 8), b"$: hello".to_vec());
    assert_eq!(row_text(&shell.buffer, 1, 6), b"HELLO!".to_vec());
    assert_eq!(row_text(&shell.buffer, 2, 3), b"$: ".to_vec());
}

#[test]
fn shell_backspace_stops_at_prompt() {
    let mut shell = Shell::new();
    shell.print_prompt();
    shell.backspace();
    assert_eq!(shell.col, 3);
    assert_eq!(row_text(&shell.buffer, 0, 3), b"$: ".to_vec());
}

#[test]
fn shell_wraps_before_last_column() {
    let mut shell = Shell::new();
    shell.print_prompt();
    for _ in 3..79 {
        shell.insert(b'a');
    }
    assert_eq!(shell.col, 79);
    shell.insert(b'z');
    assert_eq!((shell.row, shell.col), (1, 1));
    assert_eq!(shell.buffer.get(1, 0), b'z');
    assert_eq!(shell.buffer.get(0, 79), 0);
}

#[test]
fn shell_clear_returns_to_top() {
    let mut shell = Shell::new();
    let mut clock = DateTime::default();
    shell.print_prompt();
    for b in b"hello" {
        shell.insert(*b);
    }
    shell.submit(&mut clock);
    for b in b"clear" {
        shell.insert(*b);
    }
    let out = shell.submit(&mut clock);
    assert!(out.reset());
    assert_eq!((shell.row, shell.col), (0, 3));
    assert_eq!(row_text(&shell.buffer, 0, 3), b"$: ".to_vec());
    assert_eq!(shell.buffer.get(1, 0), 0);
    assert_eq!(shell.buffer.get(2, 0), 0);
}
