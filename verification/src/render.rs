//! The exact text each terminal intent emits.
//!
//! Every control sequence the library produces is defined here as a sequence
//! of characters, so the contracts of the block operations can pin their
//! emissions down to the byte. All sequences are ASCII; writing the
//! characters of an emission as bytes yields the wire form.

use vstd::prelude::*;

verus! {

/// The decimal digit character for `d` (`d < 10`).
pub open spec fn dec_digit(d: nat) -> char {
    if d == 0 {
        '0'
    } else if d == 1 {
        '1'
    } else if d == 2 {
        '2'
    } else if d == 3 {
        '3'
    } else if d == 4 {
        '4'
    } else if d == 5 {
        '5'
    } else if d == 6 {
        '6'
    } else if d == 7 {
        '7'
    } else if d == 8 {
        '8'
    } else {
        '9'
    }
}

/// The decimal representation of `n`, most significant digit first,
/// without leading zeros (`0` is rendered as the single digit `0`).
pub open spec fn dec_chars(n: nat) -> Seq<char>
    decreases n,
{
    if n < 10 {
        seq![dec_digit(n)]
    } else {
        dec_chars(n / 10) + seq![dec_digit(n % 10)]
    }
}

/// Move the cursor up `n` lines, to column zero of that row.
pub open spec fn move_up_seq(n: nat) -> Seq<char> {
    seq!['\x1b', '['] + dec_chars(n) + seq!['F']
}

/// Move the cursor down `n` lines, to column zero of that row.
pub open spec fn move_down_seq(n: nat) -> Seq<char> {
    seq!['\x1b', '['] + dec_chars(n) + seq!['E']
}

/// Erase the whole current line, then return the cursor to column zero.
pub open spec fn erase_line_seq() -> Seq<char> {
    seq!['\x1b', '[', '2', 'K', '\r']
}

/// Make the cursor invisible.
pub open spec fn hide_cursor_seq() -> Seq<char> {
    seq!['\x1b', '[', '?', '2', '5', 'l']
}

/// Make the cursor visible.
pub open spec fn show_cursor_seq() -> Seq<char> {
    seq!['\x1b', '[', '?', '2', '5', 'h']
}

/// Text framed by carriage returns, so the write starts and ends at
/// column zero of the current row.
pub open spec fn framed_text_seq(text: Seq<char>) -> Seq<char> {
    seq!['\r'] + text + seq!['\r']
}

/// `n` newline characters: the one-time emission that reserves vertical
/// space for a freshly constructed block.
pub open spec fn reserve_seq(n: nat) -> Seq<char> {
    Seq::new(n, |i: int| '\n')
}

/// How far a cursor on row `cur` must travel to reach row `target`.
pub open spec fn delta_mag(cur: nat, target: nat) -> nat {
    if cur >= target {
        (cur - target) as nat
    } else {
        (target - cur) as nat
    }
}

/// The relative movement that takes the cursor from row `cur` to row
/// `target`: one move-up or move-down sequence, or nothing when the rows
/// coincide.
pub open spec fn movement_seq(cur: nat, target: nat) -> Seq<char> {
    if cur > target {
        move_up_seq(delta_mag(cur, target))
    } else if cur < target {
        move_down_seq(delta_mag(cur, target))
    } else {
        Seq::empty()
    }
}

/// The full emission of a goto: the movement for `cur` to `target`
/// followed by a bare carriage return.
pub open spec fn goto_seq(cur: nat, target: nat) -> Seq<char> {
    movement_seq(cur, target) + seq!['\r']
}

/// `k` rounds of erase-then-move-up-one: the sweep a block-wide clear
/// performs after positioning on its last row.
pub open spec fn clear_sweep_seq(k: nat) -> Seq<char>
    decreases k,
{
    if k == 0 {
        Seq::empty()
    } else {
        clear_sweep_seq((k - 1) as nat) + erase_line_seq() + move_up_seq(1)
    }
}

/// Successive gotos travel by the difference of their targets: a goto to
/// `idx1` commits row `idx1`, so a following goto to `idx2` moves by
/// exactly `|idx1 - idx2|` lines, upward when `idx1 > idx2`, downward when
/// `idx1 < idx2`, and the travelled magnitude stands in decimal inside the
/// emitted sequence.
pub proof fn lemma_goto_goto_movement(idx1: nat, idx2: nat)
    ensures
        delta_mag(idx1, idx2) == if idx1 >= idx2 {
            idx1 - idx2
        } else {
            idx2 - idx1
        },
        idx1 > idx2 ==> movement_seq(idx1, idx2) == seq!['\x1b', '['] + dec_chars(
            delta_mag(idx1, idx2),
        ) + seq!['F'],
        idx1 < idx2 ==> movement_seq(idx1, idx2) == seq!['\x1b', '['] + dec_chars(
            delta_mag(idx1, idx2),
        ) + seq!['E'],
{
}

/// A goto whose target is the row the cursor already occupies emits no
/// movement characters at all, only the bare carriage return; repeating
/// such a goto therefore emits the same single character each time.
pub proof fn lemma_goto_same_index(idx: nat)
    ensures
        goto_seq(idx, idx) == seq!['\r'],
{
    assert(goto_seq(idx, idx) =~= seq!['\r']);
}

/// Showing the cursor is idempotent: every show-cursor emission is the
/// same sequence, so two consecutive calls produce two identical copies.
pub proof fn lemma_show_cursor_idempotent(first: Seq<char>, second: Seq<char>)
    requires
        first == show_cursor_seq(),
        second == show_cursor_seq(),
    ensures
        first == second,
{
}

} // verus!
