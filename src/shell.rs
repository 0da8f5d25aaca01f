//! Line editing of the interactive shell: the cursor over the line buffer,
//! the prompt, typed characters, backspace and submitting a line.
use vstd::prelude::*;
use vstd::string::StringSliceAdditionalSpecFns;
use crate::commands::{
    CommandKind,
    CommandOutput,
    PROMPT_LEN,
    action_of,
    clock_after,
    command_fn,
    dispatched,
    input_line,
    reply_of,
};
use crate::datetime::DateTime;
use crate::line::{LineBuffer, COLS, ROWS, blank_cells, cell_index, overwrite};

verus! {

broadcast use vstd::string::is_ascii_spec_bytes;

/// The bytes of the prompt `$: `.
pub open spec fn prompt_bytes() -> Seq<u8> {
    "$: ".spec_bytes()
}

/// The line buffer with the input cursor. The cursor never leaves the grid.
pub struct Shell {
    pub buffer: LineBuffer,
    pub row: usize,
    pub col: usize,
}

impl Shell {
    pub open spec fn wf(&self) -> bool {
        self.row < ROWS && self.col < COLS
    }

    /// An empty buffer with the cursor at the top-left corner.
    pub fn new() -> (r: Shell)
        ensures
            r.wf(),
            r.buffer@ == blank_cells(),
            r.row == 0,
            r.col == 0,
    {
        Shell { buffer: LineBuffer::new(), row: 0, col: 0 }
    }

    /// Writes the prompt at the cursor and moves the cursor past it.
    pub fn print_prompt(&mut self)
        requires
            old(self).wf(),
            old(self).col + PROMPT_LEN < COLS,
        ensures
            final(self).wf(),
            final(self).row == old(self).row,
            final(self).col == old(self).col + PROMPT_LEN,
            final(self).buffer@ == overwrite(
                old(self).buffer@,
                cell_index(old(self).row as int, old(self).col as int),
                prompt_bytes(),
            ),
    {
        proof {
            reveal_strlit("$: ");
            assert(vstd::string::is_ascii("$: "));
        }
        let prompt = "$: ".as_bytes();
        self.buffer.write_text(self.row, self.col, prompt);
        self.col = self.col + prompt.len();
    }

    /// Backspace: past the prompt, empties the cell under the cursor and the
    /// one before it, and moves back one column.
    pub fn backspace(&mut self)
        requires
            old(self).wf(),
        ensures
            final(self).wf(),
            final(self).row == old(self).row,
            old(self).col <= PROMPT_LEN ==> *final(self) == *old(self),
            old(self).col > PROMPT_LEN ==> {
                &&& final(self).col == old(self).col - 1
                &&& final(self).buffer@ == old(self).buffer@.update(
                    cell_index(old(self).row as int, old(self).col as int),
                    0,
                ).update(cell_index(old(self).row as int, old(self).col - 1), 0)
            },
    {
        if self.col > PROMPT_LEN {
            self.buffer.set(self.row, self.col, 0);
            self.col = self.col - 1;
            self.buffer.set(self.row, self.col, 0);
        }
    }

    /// A typed character: stored at the cursor, which then moves right. The
    /// last column is never written: from there the cursor first wraps to
    /// the start of the next row.
    pub fn insert(&mut self, ch: u8)
        requires
            old(self).wf(),
            old(self).col == COLS - 1 ==> old(self).row + 1 < ROWS,
        ensures
            final(self).wf(),
            old(self).col < COLS - 1 ==> {
                &&& final(self).row == old(self).row
                &&& final(self).col == old(self).col + 1
                &&& final(self).buffer@ == old(self).buffer@.update(
                    cell_index(old(self).row as int, old(self).col as int),
                    ch,
                )
            },
            old(self).col == COLS - 1 ==> {
                &&& final(self).row == old(self).row + 1
                &&& final(self).col == 1
                &&& final(self).buffer@ == old(self).buffer@.update(
                    cell_index(old(self).row + 1, 0),
                    ch,
                )
            },
    {
        if self.col > COLS - 2 {
            self.col = 0;
            self.row = self.row + 1;
        }
        self.buffer.set(self.row, self.col, ch);
        self.col = self.col + 1;
    }

    /// Enter: runs the command on the cursor's row, then prompts again two
    /// rows down, or at the top-left corner after `clear`.
    pub fn submit(&mut self, clock: &mut DateTime) -> (out: CommandOutput)
        requires
            old(self).wf(),
            old(self).row + 2 < ROWS,
        ensures
            final(self).wf(),
            out.action == action_of(dispatched(input_line(old(self).buffer@, old(self).row as int))),
            out.row == old(self).row + 1,
            out.message@ == reply_of(
                dispatched(input_line(old(self).buffer@, old(self).row as int)),
                input_line(old(self).buffer@, old(self).row as int),
                *old(clock),
            ),
            *final(clock) == clock_after(
                dispatched(input_line(old(self).buffer@, old(self).row as int)),
                input_line(old(self).buffer@, old(self).row as int),
                *old(clock),
            ),
            final(self).col == PROMPT_LEN,
            dispatched(input_line(old(self).buffer@, old(self).row as int)) == CommandKind::Clear
                ==> {
                &&& final(self).row == 0
                &&& final(self).buffer@ == overwrite(blank_cells(), 0, prompt_bytes())
            },
            dispatched(input_line(old(self).buffer@, old(self).row as int)) != CommandKind::Clear
                ==> {
                &&& final(self).row == old(self).row + 2
                &&& final(self).buffer@ == overwrite(
                    overwrite(
                        old(self).buffer@,
                        cell_index(old(self).row + 1, 0),
                        out.message@,
                    ),
                    cell_index(old(self).row + 2, 0),
                    prompt_bytes(),
                )
            },
    {
        let out = command_fn(&mut self.buffer, self.row, clock);
        if out.reset() {
            self.row = 0;
        } else {
            self.row = self.row + 2;
        }
        self.col = 0;
        self.print_prompt();
        out
    }
}

} // verus!
