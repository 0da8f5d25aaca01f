//! The line-command dispatcher: reads the command typed on a row of the line
//! buffer, runs it against the clock and writes the reply on the row below.
use vstd::prelude::*;
use vstd::string::StringSliceAdditionalSpecFns;
use crate::datetime::{DateTime, get_date, get_time, set_date, set_time};
use crate::line::{LineBuffer, COLS, ROWS, blank_cells, cell_index, overwrite, row_of};
use crate::text::{
    copy_range,
    is_space,
    lemma_decimal_len_bound,
    parse_three_numbers,
    pow10,
    push_zero_padded,
    three_numbers,
    zero_padded,
};

verus! {

broadcast use vstd::string::is_ascii_spec_bytes;

/// Width of the prompt `$: ` that starts every input row.
pub const PROMPT_LEN: usize = 3;
/// Column where the argument of `time_set` and `date_set` starts: the prompt,
/// the command name and one space.
pub const ARGUMENT_COL: usize = 12;
/// Width of an `HH:MM:SS` argument.
pub const TIME_ARGUMENT_LEN: usize = 8;
/// Width of a `DD.MM.YYYY` argument.
pub const DATE_ARGUMENT_LEN: usize = 10;

pub const COLON: u8 = 58;
pub const DOT: u8 = 46;

/// The commands of the shell; an unknown word runs `Error`.
#[derive(Clone, Copy, Debug, PartialEq, Eq, Structural)]
pub enum CommandKind {
    Hello,
    Time,
    TimeSet,
    Date,
    DateSet,
    Error,
    Reboot,
    Shutdown,
    Clear,
}

/// One entry of the command table: a name and what it runs.
pub struct Command {
    pub name: &'static str,
    pub action: CommandKind,
}

impl Command {
    pub fn new(name: &'static str, action: CommandKind) -> (r: Command)
        ensures
            r.name == name,
            r.action == action,
    {
        Command { name, action }
    }
}

/// What the shell does once a command has run.
#[derive(Clone, Copy, Debug, PartialEq, Eq, Structural)]
pub enum ShellAction {
    /// Keep the screen and go on one row further down.
    Continue,
    /// The grid was wiped: start again at the top-left corner.
    Reset,
    /// Pulse the keyboard controller's reset line; does not return.
    Reboot,
    /// Ask the firmware to power off, then halt; does not return.
    PowerOff,
}

/// Result of one dispatched line: the reply, which the caller also draws on
/// the visible grid at `row` from column 0, and the follow-up action.
pub struct CommandOutput {
    pub action: ShellAction,
    pub row: usize,
    pub message: Vec<u8>,
}

impl CommandOutput {
    /// The continuation signal: whether the shell starts over at the top.
    pub fn reset(&self) -> (r: bool)
        ensures
            r == (self.action == ShellAction::Reset),
    {
        match self.action {
            ShellAction::Reset => true,
            _ => false,
        }
    }
}

/// The command word of the text after the prompt: what stands before the
/// first space, without NUL and whitespace bytes.
pub open spec fn command_word(s: Seq<u8>) -> Seq<u8>
    decreases s.len(),
{
    if s.len() == 0 || s[0] == 32 {
        Seq::empty()
    } else if s[0] == 0 || is_space(s[0]) {
        command_word(s.drop_first())
    } else {
        seq![s[0]] + command_word(s.drop_first())
    }
}

/// The command typed on an input row.
pub open spec fn typed_command(line: Seq<u8>) -> Seq<u8> {
    command_word(line.subrange(PROMPT_LEN as int, line.len() as int))
}

/// Exact match of the word against the names of the table, in table order.
pub open spec fn command_of(word: Seq<u8>) -> CommandKind {
    if word == "hello".spec_bytes() {
        CommandKind::Hello
    } else if word == "time".spec_bytes() {
        CommandKind::Time
    } else if word == "time_set".spec_bytes() {
        CommandKind::TimeSet
    } else if word == "date".spec_bytes() {
        CommandKind::Date
    } else if word == "date_set".spec_bytes() {
        CommandKind::DateSet
    } else if word == "error".spec_bytes() {
        CommandKind::Error
    } else if word == "reboot".spec_bytes() {
        CommandKind::Reboot
    } else if word == "shutdown".spec_bytes() {
        CommandKind::Shutdown
    } else if word == "clear".spec_bytes() {
        CommandKind::Clear
    } else {
        CommandKind::Error
    }
}

/// The command that an input row runs.
pub open spec fn dispatched(line: Seq<u8>) -> CommandKind {
    command_of(typed_command(line))
}

/// The `HH:MM:SS` argument of `time_set`, when it reads as three bytes.
pub open spec fn time_argument(line: Seq<u8>) -> Option<(int, int, int)> {
    three_numbers(
        line.subrange(ARGUMENT_COL as int, ARGUMENT_COL + TIME_ARGUMENT_LEN),
        COLON,
        255,
        255,
        255,
    )
}

/// The `DD.MM.YYYY` argument of `date_set`: day and month as bytes, the year
/// as a 16-bit number.
pub open spec fn date_argument(line: Seq<u8>) -> Option<(int, int, int)> {
    three_numbers(
        line.subrange(ARGUMENT_COL as int, ARGUMENT_COL + DATE_ARGUMENT_LEN),
        DOT,
        255,
        255,
        0xFFFF,
    )
}

/// `HH:MM:SS`, each field at least two digits.
pub open spec fn time_text(clock: DateTime) -> Seq<u8> {
    zero_padded(clock.hours as nat, 2) + seq![COLON] + zero_padded(clock.minutes as nat, 2) + seq![
        COLON,
    ] + zero_padded(clock.seconds as nat, 2)
}

/// `DD.MM.YYYY`, day and month at least two digits, the year at least four.
pub open spec fn date_text(clock: DateTime) -> Seq<u8> {
    zero_padded(clock.day as nat, 2) + seq![DOT] + zero_padded(clock.month as nat, 2) + seq![DOT]
        + zero_padded(clock.year as nat, 4)
}

/// The reply a command writes below its input row.
pub open spec fn reply_of(kind: CommandKind, line: Seq<u8>, clock: DateTime) -> Seq<u8> {
    match kind {
        CommandKind::Hello => "HELLO!".spec_bytes(),
        CommandKind::Time => time_text(clock),
        CommandKind::TimeSet => if time_argument(line) is Some {
            "Time set!".spec_bytes()
        } else {
            "Invalid time format!".spec_bytes()
        },
        CommandKind::Date => date_text(clock),
        CommandKind::DateSet => if date_argument(line) is Some {
            "Date set!".spec_bytes()
        } else {
            "Invalid date format!".spec_bytes()
        },
        CommandKind::Error => "Error: command".spec_bytes(),
        CommandKind::Reboot => "Rebooting...".spec_bytes(),
        CommandKind::Shutdown => "Shutting down...".spec_bytes(),
        CommandKind::Clear => Seq::empty(),
    }
}

/// The clock after a command: only a well-formed `time_set` or `date_set`
/// changes it, storing the values as read.
pub open spec fn clock_after(kind: CommandKind, line: Seq<u8>, clock: DateTime) -> DateTime {
    match kind {
        CommandKind::TimeSet => match time_argument(line) {
            Some((h, m, s)) => DateTime {
                hours: h as u8,
                minutes: m as u8,
                seconds: s as u8,
                ..clock
            },
            None => clock,
        },
        CommandKind::DateSet => match date_argument(line) {
            Some((d, m, y)) => DateTime { day: d as u8, month: m as u8, year: y as u16, ..clock },
            None => clock,
        },
        _ => clock,
    }
}

pub open spec fn action_of(kind: CommandKind) -> ShellAction {
    match kind {
        CommandKind::Clear => ShellAction::Reset,
        CommandKind::Reboot => ShellAction::Reboot,
        CommandKind::Shutdown => ShellAction::PowerOff,
        _ => ShellAction::Continue,
    }
}

/// Name of entry `i` of the command table.
pub open spec fn table_name(i: int) -> &'static str {
    if i == 0 {
        "hello"
    } else if i == 1 {
        "time"
    } else if i == 2 {
        "time_set"
    } else if i == 3 {
        "date"
    } else if i == 4 {
        "date_set"
    } else if i == 5 {
        "error"
    } else if i == 6 {
        "reboot"
    } else if i == 7 {
        "shutdown"
    } else {
        "clear"
    }
}

/// Command of entry `i` of the command table.
pub open spec fn table_kind(i: int) -> CommandKind {
    if i == 0 {
        CommandKind::Hello
    } else if i == 1 {
        CommandKind::Time
    } else if i == 2 {
        CommandKind::TimeSet
    } else if i == 3 {
        CommandKind::Date
    } else if i == 4 {
        CommandKind::DateSet
    } else if i == 5 {
        CommandKind::Error
    } else if i == 6 {
        CommandKind::Reboot
    } else if i == 7 {
        CommandKind::Shutdown
    } else {
        CommandKind::Clear
    }
}

pub const TABLE_LEN: usize = 9;

/// The fixed, ordered command table.
pub fn command_table() -> (table: Vec<Command>)
    ensures
        table@.len() == TABLE_LEN,
        forall|i: int|
            #![trigger table@[i]]
            0 <= i < TABLE_LEN ==> table@[i].name == table_name(i) && table@[i].action
                == table_kind(i),
{
    let mut table: Vec<Command> = Vec::new();
    table.push(Command::new("hello", CommandKind::Hello));
    table.push(Command::new("time", CommandKind::Time));
    table.push(Command::new("time_set", CommandKind::TimeSet));
    table.push(Command::new("date", CommandKind::Date));
    table.push(Command::new("date_set", CommandKind::DateSet));
    table.push(Command::new("error", CommandKind::Error));
    table.push(Command::new("reboot", CommandKind::Reboot));
    table.push(Command::new("shutdown", CommandKind::Shutdown));
    table.push(Command::new("clear", CommandKind::Clear));
    table
}

pub fn bytes_equal(a: &[u8], b: &[u8]) -> (r: bool)
    ensures
        r == (a@ == b@),
{
    if a.len() != b.len() {
        return false;
    }
    let mut i: usize = 0;
    while i < a.len()
        invariant
            a@.len() == b@.len(),
            i <= a@.len(),
            forall|k: int| 0 <= k < i ==> #[trigger] a@[k] == b@[k],
        decreases a@.len() - i,
    {
        if a[i] != b[i] {
            return false;
        }
        i = i + 1;
    }
    assert(a@ =~= b@);
    true
}

/// The command word of `line[start..]`.
pub fn command_word_from(line: &Vec<u8>, start: usize) -> (word: Vec<u8>)
    requires
        start <= line@.len(),
    ensures
        word@ == command_word(line@.subrange(start as int, line@.len() as int)),
{
    let n = line.len();
    let mut word: Vec<u8> = Vec::new();
    let mut i: usize = start;
    while i < n
        invariant
            start <= i <= n == line@.len(),
            command_word(line@.subrange(start as int, n as int)) == word@ + command_word(
                line@.subrange(i as int, n as int),
            ),
        decreases n - i,
    {
        let b = line[i];
        proof {
            assert(line@.subrange(i as int, n as int).drop_first() =~= line@.subrange(
                i + 1,
                n as int,
            ));
        }
        if b == 32 {
            assert(word@ + Seq::<u8>::empty() =~= word@);
            return word;
        }
        if b != 0 && !(b == 9 || b == 10 || b == 12 || b == 13) {
            let ghost before = word@;
            word.push(b);
            proof {
                assert(word@ + command_word(line@.subrange(i + 1, n as int)) =~= before + (seq![b]
                    + command_word(line@.subrange(i + 1, n as int))));
            }
        }
        i = i + 1;
    }
    assert(line@.subrange(n as int, n as int) =~= Seq::<u8>::empty());
    assert(word@ + Seq::<u8>::empty() =~= word@);
    word
}

/// The command that `word` names, by exact comparison against the table;
/// a word that names none runs `Error`.
pub fn lookup(word: &Vec<u8>) -> (kind: CommandKind)
    ensures
        kind == command_of(word@),
{
    let table = command_table();
    let mut i: usize = 0;
    while i < table.len()
        invariant
            table@.len() == TABLE_LEN,
            forall|k: int|
                #![trigger table@[k]]
                0 <= k < TABLE_LEN ==> table@[k].name == table_name(k) && table@[k].action
                    == table_kind(k),
            i <= TABLE_LEN,
            forall|k: int| 0 <= k < i ==> word@ != #[trigger] table_name(k).spec_bytes(),
        decreases TABLE_LEN - i,
    {
        if bytes_equal(table[i].name.as_bytes(), word.as_slice()) {
            proof {
                assert(word@ == table_name(i as int).spec_bytes());
                assert(i < 1 || word@ != table_name(0).spec_bytes());
                assert(i < 2 || word@ != table_name(1).spec_bytes());
                assert(i < 3 || word@ != table_name(2).spec_bytes());
                assert(i < 4 || word@ != table_name(3).spec_bytes());
                assert(i < 5 || word@ != table_name(4).spec_bytes());
                assert(i < 6 || word@ != table_name(5).spec_bytes());
                assert(i < 7 || word@ != table_name(6).spec_bytes());
                assert(i < 8 || word@ != table_name(7).spec_bytes());
            }
            return table[i].action;
        }
        i = i + 1;
    }
    assert(word@ != table_name(0).spec_bytes());
    assert(word@ != table_name(1).spec_bytes());
    assert(word@ != table_name(2).spec_bytes());
    assert(word@ != table_name(3).spec_bytes());
    assert(word@ != table_name(4).spec_bytes());
    assert(word@ != table_name(5).spec_bytes());
    assert(word@ != table_name(6).spec_bytes());
    assert(word@ != table_name(7).spec_bytes());
    assert(word@ != table_name(8).spec_bytes());
    CommandKind::Error
}

/// Matching is exact: a word runs a named command other than `error` if and
/// only if it equals that command's name byte for byte (no prefix, no
/// extension), and a word equal to no name runs `error`.
pub proof fn lemma_exact_match(word: Seq<u8>)
    ensures
        forall|i: int|
            0 <= i < TABLE_LEN && i != 5 ==> (command_of(word) == #[trigger] table_kind(i) <==> word
                == table_name(i).spec_bytes()),
        (forall|i: int| 0 <= i < TABLE_LEN ==> word != #[trigger] table_name(i).spec_bytes())
            ==> command_of(word) == CommandKind::Error,
{
    reveal_strlit("hello");
    reveal_strlit("time");
    reveal_strlit("time_set");
    reveal_strlit("date");
    reveal_strlit("date_set");
    reveal_strlit("error");
    reveal_strlit("reboot");
    reveal_strlit("shutdown");
    reveal_strlit("clear");
    assert(vstd::string::is_ascii("hello"));
    assert(vstd::string::is_ascii("time"));
    assert(vstd::string::is_ascii("time_set"));
    assert(vstd::string::is_ascii("date"));
    assert(vstd::string::is_ascii("date_set"));
    assert(vstd::string::is_ascii("error"));
    assert(vstd::string::is_ascii("reboot"));
    assert(vstd::string::is_ascii("shutdown"));
    assert(vstd::string::is_ascii("clear"));
    let h = "hello".spec_bytes();
    let t = "time".spec_bytes();
    let ts = "time_set".spec_bytes();
    let d = "date".spec_bytes();
    let ds = "date_set".spec_bytes();
    let e = "error".spec_bytes();
    let r = "reboot".spec_bytes();
    let sd = "shutdown".spec_bytes();
    let c = "clear".spec_bytes();
    // Names of equal length differ in their first byte, so all nine differ.
    assert(h[0] != e[0] && h[0] != c[0] && e[0] != c[0]);
    assert(t[0] != d[0]);
    assert(ts[0] != ds[0] && ts[0] != sd[0] && ds[0] != sd[0]);
    assert(h.len() == 5 && t.len() == 4 && ts.len() == 8 && d.len() == 4 && ds.len() == 8);
    assert(e.len() == 5 && r.len() == 6 && sd.len() == 8 && c.len() == 5);
    assert forall|i: int|
        0 <= i < TABLE_LEN && i != 5 implies (command_of(word) == #[trigger] table_kind(i) <==> word
        == table_name(i).spec_bytes()) by {
        if word == table_name(i).spec_bytes() {
            assert(word.len() == table_name(i).spec_bytes().len());
        }
    }
    assert(table_name(0) == "hello" && table_name(1) == "time" && table_name(2) == "time_set");
    assert(table_name(3) == "date" && table_name(4) == "date_set" && table_name(5) == "error");
    assert(table_name(6) == "reboot" && table_name(7) == "shutdown" && table_name(8) == "clear");
}

/// Writes a fixed reply at the start of row `row` and hands back its bytes.
fn reply_literal(buffer: &mut LineBuffer, row: usize, text: &str) -> (message: Vec<u8>)
    requires
        row < ROWS,
        text.spec_bytes().len() <= COLS,
    ensures
        message@ == text.spec_bytes(),
        final(buffer)@ == overwrite(old(buffer)@, cell_index(row as int, 0), text.spec_bytes()),
{
    let bytes = text.as_bytes();
    buffer.write_text(row, 0, bytes);
    vstd::slice::slice_to_vec(bytes)
}

/// Writes computed reply bytes at the start of row `row`.
fn reply_bytes(buffer: &mut LineBuffer, row: usize, text: Vec<u8>) -> (message: Vec<u8>)
    requires
        row < ROWS,
        text@.len() <= COLS,
    ensures
        message@ == text@,
        final(buffer)@ == overwrite(old(buffer)@, cell_index(row as int, 0), text@),
{
    buffer.write_text(row, 0, text.as_slice());
    text
}

proof fn lemma_padded_len(n: nat, width: nat)
    requires
        n < 1000 || (n < 100000 && width == 4),
        width == 2 || width == 4,
    ensures
        zero_padded(n, width).len() <= 5,
{
    reveal_with_fuel(pow10, 6);
    if n < 1000 {
        lemma_decimal_len_bound(n, 3);
    } else {
        lemma_decimal_len_bound(n, 5);
    }
}

/// The time of day as `HH:MM:SS`.
pub fn time_string(clock: &DateTime) -> (text: Vec<u8>)
    ensures
        text@ == time_text(*clock),
        text@.len() <= 17,
{
    let (h, m, s) = get_time(clock);
    let mut text: Vec<u8> = Vec::new();
    push_zero_padded(&mut text, h as u64, 2);
    text.push(COLON);
    push_zero_padded(&mut text, m as u64, 2);
    text.push(COLON);
    push_zero_padded(&mut text, s as u64, 2);
    proof {
        lemma_padded_len(h as nat, 2);
        lemma_padded_len(m as nat, 2);
        lemma_padded_len(s as nat, 2);
        assert(text@ =~= time_text(*clock));
    }
    text
}

/// The date as `DD.MM.YYYY`.
pub fn date_string(clock: &DateTime) -> (text: Vec<u8>)
    ensures
        text@ == date_text(*clock),
        text@.len() <= 17,
{
    let (d, m, y) = get_date(clock);
    let mut text: Vec<u8> = Vec::new();
    push_zero_padded(&mut text, d as u64, 2);
    text.push(DOT);
    push_zero_padded(&mut text, m as u64, 2);
    text.push(DOT);
    push_zero_padded(&mut text, y as u64, 4);
    proof {
        lemma_padded_len(d as nat, 2);
        lemma_padded_len(m as nat, 2);
        lemma_padded_len(y as nat, 4);
        assert(text@ =~= date_text(*clock));
    }
    text
}

fn hello_action(buffer: &mut LineBuffer, row: usize) -> (message: Vec<u8>)
    requires
        row + 1 < ROWS,
    ensures
        message@ == "HELLO!".spec_bytes(),
        final(buffer)@ == overwrite(old(buffer)@, cell_index(row + 1, 0), message@),
{
    proof {
        reveal_strlit("HELLO!");
        assert(vstd::string::is_ascii("HELLO!"));
    }
    reply_literal(buffer, row + 1, "HELLO!")
}

fn time_action(buffer: &mut LineBuffer, row: usize, clock: &DateTime) -> (message: Vec<u8>)
    requires
        row + 1 < ROWS,
    ensures
        message@ == time_text(*clock),
        final(buffer)@ == overwrite(old(buffer)@, cell_index(row + 1, 0), message@),
{
    reply_bytes(buffer, row + 1, time_string(clock))
}

fn date_action(buffer: &mut LineBuffer, row: usize, clock: &DateTime) -> (message: Vec<u8>)
    requires
        row + 1 < ROWS,
    ensures
        message@ == date_text(*clock),
        final(buffer)@ == overwrite(old(buffer)@, cell_index(row + 1, 0), message@),
{
    reply_bytes(buffer, row + 1, date_string(clock))
}

fn time_set_action(buffer: &mut LineBuffer, row: usize, clock: &mut DateTime) -> (message: Vec<
    u8,
>)
    requires
        row + 1 < ROWS,
    ensures
        message@ == reply_of(CommandKind::TimeSet, row_of(old(buffer)@, row as int), *old(clock)),
        *final(clock) == clock_after(
            CommandKind::TimeSet,
            row_of(old(buffer)@, row as int),
            *old(clock),
        ),
        final(buffer)@ == overwrite(old(buffer)@, cell_index(row + 1, 0), message@),
{
    let line = buffer.row_bytes(row);
    let window = copy_range(&line, ARGUMENT_COL, ARGUMENT_COL + TIME_ARGUMENT_LEN);
    match parse_three_numbers(&window, COLON, 255, 255, 255) {
        Some((h, m, s)) => {
            set_time(clock, h as u8, m as u8, s as u8);
            proof {
                reveal_strlit("Time set!");
                assert(vstd::string::is_ascii("Time set!"));
            }
            reply_literal(buffer, row + 1, "Time set!")
        },
        None => {
            proof {
                reveal_strlit("Invalid time format!");
                assert(vstd::string::is_ascii("Invalid time format!"));
            }
            reply_literal(buffer, row + 1, "Invalid time format!")
        },
    }
}

fn date_set_action(buffer: &mut LineBuffer, row: usize, clock: &mut DateTime) -> (message: Vec<
    u8,
>)
    requires
        row + 1 < ROWS,
    ensures
        message@ == reply_of(CommandKind::DateSet, row_of(old(buffer)@, row as int), *old(clock)),
        *final(clock) == clock_after(
            CommandKind::DateSet,
            row_of(old(buffer)@, row as int),
            *old(clock),
        ),
        final(buffer)@ == overwrite(old(buffer)@, cell_index(row + 1, 0), message@),
{
    let line = buffer.row_bytes(row);
    let window = copy_range(&line, ARGUMENT_COL, ARGUMENT_COL + DATE_ARGUMENT_LEN);
    match parse_three_numbers(&window, DOT, 255, 255, 0xFFFF) {
        Some((d, m, y)) => {
            set_date(clock, d as u8, m as u8, y as u16);
            proof {
                reveal_strlit("Date set!");
                assert(vstd::string::is_ascii("Date set!"));
            }
            reply_literal(buffer, row + 1, "Date set!")
        },
        None => {
            proof {
                reveal_strlit("Invalid date format!");
                assert(vstd::string::is_ascii("Invalid date format!"));
            }
            reply_literal(buffer, row + 1, "Invalid date format!")
        },
    }
}

fn error_action(buffer: &mut LineBuffer, row: usize) -> (message: Vec<u8>)
    requires
        row + 1 < ROWS,
    ensures
        message@ == "Error: command".spec_bytes(),
        final(buffer)@ == overwrite(old(buffer)@, cell_index(row + 1, 0), message@),
{
    proof {
        reveal_strlit("Error: command");
        assert(vstd::string::is_ascii("Error: command"));
    }
    reply_literal(buffer, row + 1, "Error: command")
}

fn reboot_action(buffer: &mut LineBuffer, row: usize) -> (message: Vec<u8>)
    requires
        row + 1 < ROWS,
    ensures
        message@ == "Rebooting...".spec_bytes(),
        final(buffer)@ == overwrite(old(buffer)@, cell_index(row + 1, 0), message@),
{
    proof {
        reveal_strlit("Rebooting...");
        assert(vstd::string::is_ascii("Rebooting..."));
    }
    reply_literal(buffer, row + 1, "Rebooting...")
}

fn shutdown_action(buffer: &mut LineBuffer, row: usize) -> (message: Vec<u8>)
    requires
        row + 1 < ROWS,
    ensures
        message@ == "Shutting down...".spec_bytes(),
        final(buffer)@ == overwrite(old(buffer)@, cell_index(row + 1, 0), message@),
{
    proof {
        reveal_strlit("Shutting down...");
        assert(vstd::string::is_ascii("Shutting down..."));
    }
    reply_literal(buffer, row + 1, "Shutting down...")
}

/// Wipes the whole line buffer, whatever it held, and gives the signal to
/// start over at the top-left corner.
pub fn clear(buffer: &mut LineBuffer) -> (reset: bool)
    ensures
        reset,
        final(buffer)@ == blank_cells(),
{
    buffer.clear();
    true
}

/// The row of the buffer that a command was typed on.
pub open spec fn input_line(buffer: Seq<u8>, row: int) -> Seq<u8> {
    row_of(buffer, row)
}

/// Runs the command typed on row `row` (after the prompt) and writes its
/// reply at the start of the row below; `clear` wipes the buffer instead.
pub fn command_fn(buffer: &mut LineBuffer, row: usize, clock: &mut DateTime) -> (out: CommandOutput)
    requires
        row + 1 < ROWS,
    ensures
        out.action == action_of(dispatched(input_line(old(buffer)@, row as int))),
        out.row == row + 1,
        out.message@ == reply_of(
            dispatched(input_line(old(buffer)@, row as int)),
            input_line(old(buffer)@, row as int),
            *old(clock),
        ),
        *final(clock) == clock_after(
            dispatched(input_line(old(buffer)@, row as int)),
            input_line(old(buffer)@, row as int),
            *old(clock),
        ),
        dispatched(input_line(old(buffer)@, row as int)) == CommandKind::Clear ==> final(buffer)@
            == blank_cells(),
        dispatched(input_line(old(buffer)@, row as int)) != CommandKind::Clear ==> final(buffer)@
            == overwrite(old(buffer)@, cell_index(row + 1, 0), out.message@),
{
    let line = buffer.row_bytes(row);
    let word = command_word_from(&line, PROMPT_LEN);
    let kind = lookup(&word);
    let (action, message) = match kind {
        CommandKind::Hello => (ShellAction::Continue, hello_action(buffer, row)),
        CommandKind::Time => (ShellAction::Continue, time_action(buffer, row, clock)),
        CommandKind::TimeSet => (ShellAction::Continue, time_set_action(buffer, row, clock)),
        CommandKind::Date => (ShellAction::Continue, date_action(buffer, row, clock)),
        CommandKind::DateSet => (ShellAction::Continue, date_set_action(buffer, row, clock)),
        CommandKind::Error => (ShellAction::Continue, error_action(buffer, row)),
        CommandKind::Reboot => (ShellAction::Reboot, reboot_action(buffer, row)),
        CommandKind::Shutdown => (ShellAction::PowerOff, shutdown_action(buffer, row)),
        CommandKind::Clear => {
            clear(buffer);
            (ShellAction::Reset, Vec::new())
        },
    };
    CommandOutput { action, row: row + 1, message }
}

} // verus!
