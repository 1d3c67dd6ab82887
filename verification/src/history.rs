//! The history store: an append-only list of submitted lines and the
//! cursor that Up/Down recall moves through it.

use vstd::prelude::*;
use crate::text::{is_blank, line_is_blank};

verus! {

/// Where the cursor lands after one step back: one towards the oldest
/// entry, stopping at it.
pub open spec fn prev_cursor(i: nat) -> nat {
    if i == 0 {
        0
    } else {
        (i - 1) as nat
    }
}

/// Where the cursor lands after one step forward: one towards the
/// newest entry, stopping at it.
pub open spec fn next_cursor(len: nat, i: nat) -> nat {
    if len == 0 {
        i
    } else if i >= len - 1 {
        i
    } else {
        i + 1
    }
}

/// What a step back recalls: the entry at the new cursor position, or
/// the empty line at the oldest entry.
pub open spec fn prev_recall(h: Seq<Seq<char>>, i: nat) -> Seq<char> {
    if i == 0 {
        Seq::empty()
    } else {
        h[i - 1]
    }
}

/// What a step forward recalls: the entry at the new cursor position,
/// or the empty line at or past the newest entry.
pub open spec fn next_recall(h: Seq<Seq<char>>, i: nat) -> Seq<char> {
    if h.len() == 0 {
        Seq::empty()
    } else if i >= h.len() - 1 {
        Seq::empty()
    } else {
        h[i as int + 1]
    }
}

/// However prev and next are interleaved, a cursor that starts within
/// the history stays within it: never below zero (it is a count) and
/// never above the history length; a step forward at the newest entry
/// and a step back at the oldest both recall the empty line.
pub proof fn lemma_cursor_stays_in_range(h: Seq<Seq<char>>, i: nat)
    requires
        i <= h.len(),
    ensures
        prev_cursor(i) <= h.len(),
        next_cursor(h.len(), i) <= h.len(),
        i == 0 ==> prev_recall(h, i) == Seq::<char>::empty(),
        i + 1 >= h.len() ==> next_recall(h, i) == Seq::<char>::empty(),
{
}

/// Moves the cursor one entry back and returns the line recalled there,
/// or the empty line when the cursor is already at the oldest entry.
pub fn get_prev_command(command_list: &mut Vec<String>, last_index: &mut usize) -> (r: String)
    requires
        *old(last_index) <= old(command_list)@.len(),
    ensures
        *final(command_list) == *old(command_list),
        *final(last_index) == prev_cursor(*old(last_index) as nat),
        r@ == prev_recall(old(command_list).deep_view(), *old(last_index) as nat),
        *final(last_index) <= final(command_list)@.len(),
{
    let current_index = *last_index;
    if current_index == 0 {
        String::new()
    } else {
        *last_index -= 1;
        command_list[current_index - 1].clone()
    }
}

/// Moves the cursor one entry forward and returns the line recalled
/// there, or the empty line at or past the newest entry.
pub fn get_next_command(commands: &mut Vec<String>, index: &mut usize) -> (r: String)
    requires
        *old(index) <= old(commands)@.len(),
    ensures
        *final(commands) == *old(commands),
        *final(index) == next_cursor(old(commands)@.len() as nat, *old(index) as nat),
        r@ == next_recall(old(commands).deep_view(), *old(index) as nat),
        *final(index) <= final(commands)@.len(),
{
    if commands.is_empty() {
        String::new()
    } else if *index >= commands.len() - 1 {
        String::new()
    } else {
        *index += 1;
        commands[*index].clone()
    }
}

/// Records a submitted line: a blank line is skipped and the history
/// keeps its length, any other line is appended; either way the cursor
/// resets to one past the newest entry.
pub fn append(history: &mut Vec<String>, cursor: &mut usize, line: &str) -> (recorded: bool)
    ensures
        recorded == !is_blank(line@),
        is_blank(line@) ==> final(history).deep_view() == old(history).deep_view(),
        !is_blank(line@) ==> final(history).deep_view() == old(history).deep_view().push(line@),
        *final(cursor) == final(history)@.len(),
{
    if line_is_blank(line) {
        *cursor = history.len();
        false
    } else {
        history.push(line.to_owned());
        proof {
            assert(history.deep_view() =~= old(history).deep_view().push(line@));
        }
        *cursor = history.len();
        true
    }
}

} // verus!
