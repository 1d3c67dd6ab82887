//! The line editor: how one key event transforms the input buffer and
//! the history cursor, and when the read loop stops. Echoing the change
//! on the terminal is left to the surrounding program, which can replay
//! it from the buffer before and after the step.

use vstd::prelude::*;
use crate::history::{
    get_next_command, get_prev_command, next_cursor, next_recall, prev_cursor, prev_recall,
};

verus! {

/// The discrete key events the editor reacts to; anything else is
/// `Other` and ignored.
#[derive(Clone, Copy, Debug, PartialEq, Eq, Structural)]
pub enum KeyEvent {
    Char(char),
    Enter,
    Backspace,
    Up,
    Down,
    Escape,
    Other,
}

/// How the read loop goes on after one key event.
#[derive(Clone, Copy, Debug, PartialEq, Eq, Structural)]
pub enum LoopSignal {
    /// Keep reading keys into the same line.
    Edited,
    /// The line is finished and is to be submitted.
    Submitted,
    /// The whole shell is to terminate immediately.
    Quit,
}

/// The full contract of one editing step: what the buffer, the cursor
/// and the loop signal become for each kind of key event.
pub open spec fn edit_post(
    event: KeyEvent,
    old_buf: Seq<char>,
    new_buf: Seq<char>,
    h: Seq<Seq<char>>,
    old_cur: nat,
    new_cur: nat,
    sig: LoopSignal,
) -> bool {
    match event {
        KeyEvent::Char(c) => new_buf == old_buf.push(c) && new_cur == old_cur && sig
            == LoopSignal::Edited,
        KeyEvent::Backspace => new_buf == (if old_buf.len() > 0 {
            old_buf.drop_last()
        } else {
            old_buf
        }) && new_cur == old_cur && sig == LoopSignal::Edited,
        KeyEvent::Up => new_cur == prev_cursor(old_cur) && new_buf == prev_recall(h, old_cur)
            && sig == LoopSignal::Edited,
        KeyEvent::Down => new_cur == next_cursor(h.len(), old_cur) && new_buf == next_recall(
            h,
            old_cur,
        ) && sig == LoopSignal::Edited,
        KeyEvent::Enter => new_buf == old_buf && new_cur == old_cur && sig
            == LoopSignal::Submitted,
        KeyEvent::Escape => new_buf == old_buf && new_cur == old_cur && sig == LoopSignal::Quit,
        KeyEvent::Other => new_buf == old_buf && new_cur == old_cur && sig == LoopSignal::Edited,
    }
}

/// Replaces the buffer's contents with the characters of the given line.
fn set_buffer_from(buffer: &mut Vec<char>, line: &str)
    ensures
        final(buffer)@ == line@,
{
    buffer.clear();
    let n = line.unicode_len();
    let mut i: usize = 0;
    while i < n
        invariant
            i <= n,
            n == line@.len(),
            buffer@ == line@.subrange(0, i as int),
        decreases n - i,
    {
        buffer.push(line.get_char(i));
        proof {
            assert(buffer@ =~= line@.subrange(0, i + 1));
        }
        i += 1;
    }
    proof {
        assert(line@.subrange(0, n as int) =~= line@);
    }
}

/// Applies one key event to the line under construction: a printable
/// character appends, Backspace removes the last character of a
/// non-empty line and is a no-op otherwise, Up and Down replace the
/// line with the recalled history entry, Enter submits, Escape quits.
/// The history itself is never changed by editing, and the cursor stays
/// within it.
pub fn edit_step(
    buffer: &mut Vec<char>,
    history: &mut Vec<String>,
    cursor: &mut usize,
    event: KeyEvent,
) -> (sig: LoopSignal)
    requires
        *old(cursor) <= old(history)@.len(),
    ensures
        *final(history) == *old(history),
        *final(cursor) <= final(history)@.len(),
        edit_post(
            event,
            old(buffer)@,
            final(buffer)@,
            old(history).deep_view(),
            *old(cursor) as nat,
            *final(cursor) as nat,
            sig,
        ),
{
    match event {
        KeyEvent::Char(c) => {
            buffer.push(c);
            LoopSignal::Edited
        },
        KeyEvent::Backspace => {
            if buffer.len() > 0 {
                buffer.pop();
                proof {
                    assert(buffer@ =~= old(buffer)@.drop_last());
                }
            }
            LoopSignal::Edited
        },
        KeyEvent::Up => {
            let recalled = get_prev_command(history, cursor);
            set_buffer_from(buffer, recalled.as_str());
            LoopSignal::Edited
        },
        KeyEvent::Down => {
            let recalled = get_next_command(history, cursor);
            set_buffer_from(buffer, recalled.as_str());
            LoopSignal::Edited
        },
        KeyEvent::Enter => LoopSignal::Submitted,
        KeyEvent::Escape => LoopSignal::Quit,
        KeyEvent::Other => LoopSignal::Edited,
    }
}

} // verus!
