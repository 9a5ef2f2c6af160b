use vstd::pervasive::unreached;
use vstd::prelude::*;
use vstd::string::*;

use crate::interactive::InteractiveLine;
use crate::render::clear_sweep_seq;
use crate::render::dec_chars;
use crate::render::dec_digit;
use crate::render::delta_mag;
use crate::render::erase_line_seq;
use crate::render::framed_text_seq;
use crate::render::goto_seq;
use crate::render::hide_cursor_seq;
use crate::render::move_down_seq;
use crate::render::move_up_seq;
use crate::render::movement_seq;
use crate::render::reserve_seq;
use crate::render::show_cursor_seq;

verus! {

/// Which way the cursor must travel to reach a target row.
#[derive(Debug, PartialEq, Eq, Structural, Clone, Copy)]
pub enum Direction {
    Up,
    Down,
    Stay,
}

/// Why a block operation was refused.
#[derive(Debug, PartialEq, Eq, Structural, Clone, Copy)]
pub enum BlockError {
    /// A block cannot be built from zero lines.
    EmptyLineSet,
    /// A block cannot hold more than 255 lines: movement magnitudes are
    /// 8-bit.
    TooManyLines,
    /// The given index lies outside the block.
    IndexNotFound,
    /// The given line's row offset lies outside the block: the line does
    /// not belong to it.
    SlotNotFound,
}

/// The single source of truth for the row the terminal cursor occupies,
/// in the block's zero-based row coordinates. `row` may also hold the
/// below-block sentinel (the slot count), the state right after
/// construction.
pub struct Position {
    pub row: u8,
    pub col: u8,
}

impl Position {
    /// The direction and magnitude of the travel from the tracked row to
    /// `target`. Pure: nothing is emitted and nothing committed.
    pub fn delta_to(&self, target: u8) -> (r: (Direction, u8))
        ensures
            r.1 as nat == delta_mag(self.row as nat, target as nat),
            r.0 == Direction::Up <==> self.row > target,
            r.0 == Direction::Down <==> self.row < target,
            r.0 == Direction::Stay <==> self.row == target,
    {
        if self.row > target {
            (Direction::Up, self.row - target)
        } else if self.row < target {
            (Direction::Down, target - self.row)
        } else {
            (Direction::Stay, 0)
        }
    }

    /// Records that the cursor now sits on `target`. Called exactly once
    /// per emitted movement, in the same operation that emits it.
    pub fn commit(&mut self, target: u8)
        ensures
            final(self).row == target,
            final(self).col == old(self).col,
    {
        self.row = target;
    }
}

/// The decimal digit characters of `n`, used inside movement sequences.
fn digit_str(d: u8) -> (s: &'static str)
    requires
        d < 10,
    ensures
        s@ == seq![dec_digit(d as nat)],
{
    proof {
        reveal_strlit("0");
        reveal_strlit("1");
        reveal_strlit("2");
        reveal_strlit("3");
        reveal_strlit("4");
        reveal_strlit("5");
        reveal_strlit("6");
        reveal_strlit("7");
        reveal_strlit("8");
        reveal_strlit("9");
    }
    match d {
        0 => "0",
        1 => "1",
        2 => "2",
        3 => "3",
        4 => "4",
        5 => "5",
        6 => "6",
        7 => "7",
        8 => "8",
        _ => "9",
    }
}

/// Renders `n` in decimal, most significant digit first, no leading zeros.
fn dec_str(n: u8) -> (s: String)
    ensures
        s@ == dec_chars(n as nat),
{
    let mut s = String::new();
    if n >= 100 {
        s.append(digit_str(n / 100));
        s.append(digit_str((n / 10) % 10));
        s.append(digit_str(n % 10));
        proof {
            reveal_with_fuel(dec_chars, 4);
            vstd::arithmetic::div_mod::lemma_div_denominator(n as int, 10, 10);
            assert(n as nat / 10 / 10 == n as nat / 100);
            assert(s@ =~= dec_chars(n as nat));
        }
    } else if n >= 10 {
        s.append(digit_str(n / 10));
        s.append(digit_str(n % 10));
        proof {
            reveal_with_fuel(dec_chars, 3);
            assert(s@ =~= dec_chars(n as nat));
        }
    } else {
        s.append(digit_str(n));
        proof {
            assert(s@ =~= dec_chars(n as nat));
        }
    }
    s
}

/// A fixed block of rewritable terminal lines plus the tracker for the
/// cursor's current row.
pub struct Block {
    pub interactive_lines: Vec<InteractiveLine>,
    pub cursor_position: Position,
}

impl Block {
    /// The block's structural invariant: between one and 255 lines, each
    /// line's row offset equal to its position, the tracked row within the
    /// block or on the below-block sentinel, and the tracked column at
    /// zero (every emission starts and ends at column zero).
    pub open spec fn wf(&self) -> bool {
        &&& 1 <= self.interactive_lines@.len() <= 255
        &&& forall|i: int|
            0 <= i < self.interactive_lines@.len()
                ==> (#[trigger] self.interactive_lines@[i]).relative_row as int == i
        &&& self.cursor_position.row as int <= self.interactive_lines@.len()
        &&& self.cursor_position.col == 0
    }

    /// Builds a block that owns the given lines, assigning each line the
    /// row offset equal to its position, with the tracked row on the
    /// below-block sentinel (the line count). Also returns the one-time
    /// emission that reserves the block's vertical space: one newline per
    /// line. Refused when the collection is empty or holds more than 255
    /// lines.
    pub fn new(interactive_lines: Vec<InteractiveLine>) -> (r: Result<(Block, String), BlockError>)
        ensures
            interactive_lines@.len() == 0 ==> (r matches Err(e) && e == BlockError::EmptyLineSet),
            interactive_lines@.len() > 255 ==> (r matches Err(e) && e == BlockError::TooManyLines),
            1 <= interactive_lines@.len() <= 255 ==> (r matches Ok(p) && {
                &&& p.0.wf()
                &&& p.0.interactive_lines@.len() == interactive_lines@.len()
                &&& forall|i: int|
                    0 <= i < interactive_lines@.len() ==> (#[trigger] p.0.interactive_lines@[i]).content@
                        == interactive_lines@[i].content@
                &&& p.0.cursor_position.row as int == interactive_lines@.len()
                &&& p.0.cursor_position.col == 0
                &&& p.1@ == reserve_seq(interactive_lines@.len())
            }),
    {
        let n = interactive_lines.len();
        if n == 0 {
            return Err(BlockError::EmptyLineSet);
        }
        if n > 255 {
            return Err(BlockError::TooManyLines);
        }
        let mut lines_vec: Vec<InteractiveLine> = Vec::with_capacity(n);
        let mut idx: usize = 0;
        while idx < n
            invariant
                idx <= n,
                n == interactive_lines@.len(),
                n <= 255,
                lines_vec@.len() == idx,
                forall|j: int|
                    0 <= j < idx ==> (#[trigger] lines_vec@[j]).content@
                        == interactive_lines@[j].content@ && lines_vec@[j].relative_row as int == j,
            decreases n - idx,
        {
            let mut line = InteractiveLine::new(interactive_lines[idx].content.as_str());
            line.update_relative_row(idx as u8);
            lines_vec.push(line);
            idx += 1;
        }
        let cursor_position = Position { row: n as u8, col: 0 };
        let cur = Self { cursor_position, interactive_lines: lines_vec };
        let setup = cur.prepare_all();
        Ok((cur, setup))
    }

    /// Moves the cursor to the line at `idx`: emits the relative movement
    /// from the tracked row (nothing when the delta is zero), commits the
    /// new row, and ends with a bare carriage return. Refused when `idx`
    /// lies outside the block, leaving the block untouched.
    pub fn goto_idx(&mut self, idx: usize) -> (r: Result<String, BlockError>)
        requires
            old(self).wf(),
        ensures
            final(self).wf(),
            final(self).interactive_lines@ == old(self).interactive_lines@,
            idx < old(self).interactive_lines@.len() ==> {
                &&& r matches Ok(s) && s@ == goto_seq(
                    old(self).cursor_position.row as nat,
                    idx as nat,
                )
                &&& final(self).cursor_position.row as int == idx
                &&& final(self).cursor_position.col == 0
            },
            idx >= old(self).interactive_lines@.len() ==> {
                &&& r matches Err(e) && e == BlockError::IndexNotFound
                &&& *final(self) == *old(self)
            },
    {
        if idx >= self.interactive_lines.len() {
            return Err(BlockError::IndexNotFound);
        }
        let target = idx as u8;
        let mut s = self.go_to(&self.interactive_lines[idx]);
        self.cursor_position.commit(target);
        proof {
            reveal_strlit("\r");
        }
        s.append("\r");
        proof {
            assert(s@ =~= goto_seq(old(self).cursor_position.row as nat, idx as nat));
        }
        Ok(s)
    }

    /// Moves the cursor to the given line, resolved by its row offset:
    /// the same emission and commit as [`Block::goto_idx`]. Refused when
    /// the line's row offset lies outside this block — a foreign line is
    /// rejected rather than acted upon — leaving the block untouched.
    pub fn goto_element(&mut self, el: &InteractiveLine) -> (r: Result<String, BlockError>)
        requires
            old(self).wf(),
        ensures
            final(self).wf(),
            final(self).interactive_lines@ == old(self).interactive_lines@,
            (el.relative_row as int) < old(self).interactive_lines@.len() ==> {
                &&& r matches Ok(s) && s@ == goto_seq(
                    old(self).cursor_position.row as nat,
                    el.relative_row as nat,
                )
                &&& final(self).cursor_position.row == el.relative_row
                &&& final(self).cursor_position.col == 0
            },
            (el.relative_row as int) >= old(self).interactive_lines@.len() ==> {
                &&& r matches Err(e) && e == BlockError::SlotNotFound
                &&& *final(self) == *old(self)
            },
    {
        match self.goto_idx(el.relative_row as usize) {
            Ok(s) => Ok(s),
            Err(_) => Err(BlockError::SlotNotFound),
        }
    }

    /// Replaces the stored content of the line at `elem`'s row offset and
    /// redraws it: goto, optionally an erase of the line when `clear` is
    /// set, then the new content framed by carriage returns. Refused when
    /// the row offset lies outside the block, leaving the block untouched.
    pub fn update_element(&mut self, elem: &InteractiveLine, content: &str, clear: bool) -> (r:
        Result<String, BlockError>)
        requires
            old(self).wf(),
        ensures
            final(self).wf(),
            (elem.relative_row as int) < old(self).interactive_lines@.len() ==> {
                &&& r matches Ok(s) && s@ == goto_seq(
                    old(self).cursor_position.row as nat,
                    elem.relative_row as nat,
                ) + (if clear {
                    erase_line_seq()
                } else {
                    Seq::<char>::empty()
                }) + framed_text_seq(content@)
                &&& final(self).interactive_lines@.len() == old(self).interactive_lines@.len()
                &&& final(self).interactive_lines@[elem.relative_row as int].content@ == content@
                &&& forall|j: int|
                    0 <= j < old(self).interactive_lines@.len() && j != elem.relative_row as int
                        ==> #[trigger] final(self).interactive_lines@[j]
                            == old(self).interactive_lines@[j]
                &&& final(self).cursor_position.row == elem.relative_row
                &&& final(self).cursor_position.col == 0
            },
            (elem.relative_row as int) >= old(self).interactive_lines@.len() ==> {
                &&& r matches Err(e) && e == BlockError::SlotNotFound
                &&& *final(self) == *old(self)
            },
    {
        let row = elem.relative_row;
        let idx = row as usize;
        if idx >= self.interactive_lines.len() {
            return Err(BlockError::SlotNotFound);
        }
        self.interactive_lines[idx].update_content(content);
        let mut s = self.go_to(&self.interactive_lines[idx]);
        self.cursor_position.commit(row);
        proof {
            reveal_strlit("\r");
        }
        s.append("\r");
        if clear {
            let erase = self.clear_line();
            s.append(erase.as_str());
        }
        let text = self.write_inline(content);
        s.append(text.as_str());
        proof {
            assert(s@ =~= goto_seq(old(self).cursor_position.row as nat, row as nat) + (if clear {
                erase_line_seq()
            } else {
                Seq::<char>::empty()
            }) + framed_text_seq(content@));
        }
        Ok(s)
    }

    /// Clears every line of the block except the top one: moves to the
    /// last row, then erases and steps up one row at a time until the
    /// cursor rests on row zero, whose content this sweep never touches.
    pub fn clear_lines(&mut self) -> (s: String)
        requires
            old(self).wf(),
        ensures
            final(self).wf(),
            final(self).interactive_lines@ == old(self).interactive_lines@,
            final(self).cursor_position.row == 0,
            final(self).cursor_position.col == 0,
            s@ == goto_seq(
                old(self).cursor_position.row as nat,
                (old(self).interactive_lines@.len() - 1) as nat,
            ) + clear_sweep_seq((old(self).interactive_lines@.len() - 1) as nat),
    {
        let last = self.interactive_lines.len() - 1;
        let mut s = match self.goto_idx(last) {
            Ok(s) => s,
            Err(_) => unreached(),
        };
        proof {
            assert(s@ =~= goto_seq(old(self).cursor_position.row as nat, last as nat)
                + clear_sweep_seq(0));
        }
        let mut i: usize = 0;
        while i < last
            invariant
                i <= last,
                last + 1 == self.interactive_lines@.len(),
                self.interactive_lines@ == old(self).interactive_lines@,
                self.wf(),
                self.cursor_position.row as int == last - i,
                self.cursor_position.col == 0,
                s@ == goto_seq(old(self).cursor_position.row as nat, last as nat)
                    + clear_sweep_seq(i as nat),
            decreases last - i,
        {
            let erase = self.clear_line();
            s.append(erase.as_str());
            let up = self.move_up(1);
            s.append(up.as_str());
            let newrow = self.cursor_position.row - 1;
            self.cursor_position.commit(newrow);
            proof {
                assert(s@ =~= goto_seq(old(self).cursor_position.row as nat, last as nat)
                    + clear_sweep_seq((i + 1) as nat));
            }
            i += 1;
        }
        s
    }

    /// Erases the line the cursor currently occupies and returns to column
    /// zero; the cursor's row is untouched. Returns the text to emit.
    pub fn clear_line(&self) -> (s: String)
        ensures
            s@ == erase_line_seq(),
    {
        proof {
            reveal_strlit("\x1b[2K\r");
        }
        let s = String::from_str("\x1b[2K\r");
        proof {
            assert(s@ =~= erase_line_seq());
        }
        s
    }

    /// Returns the text that makes the cursor invisible. Idempotent: the
    /// emission is the same on every call.
    pub fn hide_cursor(&self) -> (s: String)
        ensures
            s@ == hide_cursor_seq(),
    {
        proof {
            reveal_strlit("\x1b[?25l");
        }
        let s = String::from_str("\x1b[?25l");
        proof {
            assert(s@ =~= hide_cursor_seq());
        }
        s
    }

    /// Returns the text that makes the cursor visible. Idempotent: the
    /// emission is the same on every call.
    pub fn show_cursor(&self) -> (s: String)
        ensures
            s@ == show_cursor_seq(),
    {
        proof {
            reveal_strlit("\x1b[?25h");
        }
        let s = String::from_str("\x1b[?25h");
        proof {
            assert(s@ =~= show_cursor_seq());
        }
        s
    }

    /// The framed form of a text write: a carriage return, the text, a
    /// carriage return, so every write starts and ends at column zero.
    fn write_inline(&self, text: &str) -> (s: String)
        ensures
            s@ == framed_text_seq(text@),
    {
        proof {
            reveal_strlit("\r");
        }
        let mut s = String::from_str("\r");
        s.append(text);
        s.append("\r");
        proof {
            assert(s@ =~= framed_text_seq(text@));
        }
        s
    }

    /// The relative movement that takes the cursor from the tracked row to
    /// the given line's row: empty when the rows coincide. Emission only;
    /// the caller commits the new row.
    fn go_to(&self, el: &InteractiveLine) -> (s: String)
        ensures
            s@ == movement_seq(self.cursor_position.row as nat, el.relative_row as nat),
    {
        let target = el.relative_row;
        let (dir, mag) = self.cursor_position.delta_to(target);
        match dir {
            Direction::Up => self.move_up(mag),
            Direction::Down => self.move_down(mag),
            Direction::Stay => String::new(),
        }
    }

    /// The move-up sequence for `n` lines; a zero move is never emitted.
    fn move_up(&self, n: u8) -> (s: String)
        requires
            1 <= n,
        ensures
            s@ == move_up_seq(n as nat),
    {
        proof {
            reveal_strlit("\x1b[");
            reveal_strlit("F");
        }
        let mut s = String::from_str("\x1b[");
        let digits = dec_str(n);
        s.append(digits.as_str());
        s.append("F");
        proof {
            assert(s@ =~= move_up_seq(n as nat));
        }
        s
    }

    /// The move-down sequence for `n` lines; a zero move is never emitted.
    fn move_down(&self, n: u8) -> (s: String)
        requires
            1 <= n,
        ensures
            s@ == move_down_seq(n as nat),
    {
        proof {
            reveal_strlit("\x1b[");
            reveal_strlit("E");
        }
        let mut s = String::from_str("\x1b[");
        let digits = dec_str(n);
        s.append(digits.as_str());
        s.append("E");
        proof {
            assert(s@ =~= move_down_seq(n as nat));
        }
        s
    }

    /// The one-time construction emission: one newline per line, which
    /// scrolls prior output up and reserves the block's vertical space.
    fn prepare_all(&self) -> (s: String)
        ensures
            s@ == reserve_seq(self.interactive_lines@.len()),
    {
        let n = self.interactive_lines.len();
        let mut s = String::new();
        proof {
            assert(s@ =~= reserve_seq(0));
        }
        let mut i: usize = 0;
        while i < n
            invariant
                i <= n,
                n == self.interactive_lines@.len(),
                s@ == reserve_seq(i as nat),
            decreases n - i,
        {
            proof {
                reveal_strlit("\n");
            }
            s.append("\n");
            proof {
                assert(s@ =~= reserve_seq((i + 1) as nat));
            }
            i += 1;
        }
        s
    }
}

} // verus!

