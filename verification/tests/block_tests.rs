use interm::interactive::Line;
use interm::Block;
use interm::BlockError;

fn lines_of(contents: &[&str]) -> Vec<Line> {
    let mut v: Vec<Line> = Vec::new();
    for c in contents {
        v.push(Line::new(c));
    }
    v
}

#[test]
fn construct_zero_lines_fails() {
    let r = Block::new(Vec::new());
    assert!(matches!(r, Err(BlockError::EmptyLineSet)));
}

#[test]
fn construct_255_lines_succeeds() {
    let mut v: Vec<Line> = Vec::new();
    for i in 0..255 {
        v.push(Line::new(&format!("line {i}")));
    }
    let (block, setup) = Block::new(v).expect("255 lines fit in a block");
    assert_eq!(block.cursor_position.row, 255);
    assert_eq!(setup, "\n".repeat(255));
}

#[test]
fn construct_256_lines_fails() {
    let mut v: Vec<Line> = Vec::new();
    for i in 0..256 {
        v.push(Line::new(&format!("line {i}")));
    }
    let r = Block::new(v);
    assert!(matches!(r, Err(BlockError::TooManyLines)));
}

#[test]
fn construct_tracks_below_block_sentinel() {
    let (block, setup) = Block::new(lines_of(&["A", "B", "C"])).unwrap();
    assert_eq!(block.cursor_position.row, 3);
    assert_eq!(block.cursor_position.col, 0);
    assert_eq!(setup, "\n\n\n");
    assert_eq!(block.interactive_lines.len(), 3);
    for (i, line) in block.interactive_lines.iter().enumerate() {
        assert_eq!(line.relative_row as usize, i);
    }
    assert_eq!(block.interactive_lines[0].content, "A");
    assert_eq!(block.interactive_lines[1].content, "B");
    assert_eq!(block.interactive_lines[2].content, "C");
}

#[test]
fn goto_moves_by_index_difference() {
    let (mut block, _) = Block::new(lines_of(&["A", "B", "C", "D"])).unwrap();
    // From the sentinel row 4 up to row 1: magnitude 3, upward.
    let s = block.goto_idx(1).unwrap();
    assert_eq!(s, "\x1b[3F\r");
    assert_eq!(block.cursor_position.row, 1);
    // From row 1 down to row 3: magnitude 2, downward.
    let s = block.goto_idx(3).unwrap();
    assert_eq!(s, "\x1b[2E\r");
    assert_eq!(block.cursor_position.row, 3);
}

#[test]
fn goto_same_index_twice_emits_no_movement() {
    let (mut block, _) = Block::new(lines_of(&["A", "B", "C"])).unwrap();
    block.goto_idx(1).unwrap();
    let first = block.goto_idx(1).unwrap();
    let second = block.goto_idx(1).unwrap();
    assert_eq!(first, "\r");
    assert_eq!(second, "\r");
    assert_eq!(block.cursor_position.row, 1);
}

#[test]
fn goto_idx_out_of_range_fails() {
    let (mut block, _) = Block::new(lines_of(&["A", "B"])).unwrap();
    let r = block.goto_idx(2);
    assert!(matches!(r, Err(BlockError::IndexNotFound)));
    assert_eq!(block.cursor_position.row, 2);
}

#[test]
fn goto_element_moves_to_its_row() {
    let (mut block, _) = Block::new(lines_of(&["A", "B", "C"])).unwrap();
    let elem = block.interactive_lines[0].clone();
    let s = block.goto_element(&elem).unwrap();
    assert_eq!(s, "\x1b[3F\r");
    assert_eq!(block.cursor_position.row, 0);
}

#[test]
fn goto_foreign_element_fails() {
    let (mut block, _) = Block::new(lines_of(&["A", "B", "C"])).unwrap();
    let mut foreign = Line::new("elsewhere");
    foreign.relative_row = 9;
    let r = block.goto_element(&foreign);
    assert!(matches!(r, Err(BlockError::SlotNotFound)));
    assert_eq!(block.cursor_position.row, 3);
}

#[test]
fn update_scenario_on_three_lines() {
    let (mut block, _) = Block::new(lines_of(&["A", "B", "C"])).unwrap();
    assert_eq!(block.cursor_position.row, 3);

    // Move up one row to the third line, erase it, write the new text.
    let elem = block.interactive_lines[2].clone();
    let s = block.update_element(&elem, "C done", true).unwrap();
    assert_eq!(s, "\x1b[1F\r\x1b[2K\r\rC done\r");
    assert_eq!(block.cursor_position.row, 2);
    assert_eq!(block.interactive_lines[2].content, "C done");

    // Move up two rows to the first line, no erase, write the new text.
    let elem = block.interactive_lines[0].clone();
    let s = block.update_element(&elem, "A done", false).unwrap();
    assert_eq!(s, "\x1b[2F\r\rA done\r");
    assert_eq!(block.cursor_position.row, 0);
    assert_eq!(block.interactive_lines[0].content, "A done");
    assert_eq!(block.interactive_lines[1].content, "B");
}

#[test]
fn update_foreign_element_fails_and_changes_nothing() {
    let (mut block, _) = Block::new(lines_of(&["A", "B", "C"])).unwrap();
    let mut foreign = Line::new("elsewhere");
    foreign.relative_row = 7;
    let r = block.update_element(&foreign, "new", true);
    assert!(matches!(r, Err(BlockError::SlotNotFound)));
    assert_eq!(block.cursor_position.row, 3);
    assert_eq!(block.interactive_lines[0].content, "A");
    assert_eq!(block.interactive_lines[1].content, "B");
    assert_eq!(block.interactive_lines[2].content, "C");
}

#[test]
fn clear_all_scenario_from_row_zero() {
    let (mut block, _) = Block::new(lines_of(&["A", "B", "C"])).unwrap();
    block.goto_idx(0).unwrap();
    assert_eq!(block.cursor_position.row, 0);
    // Down two rows to the last line, then (erase, move up) twice: the
    // cursor ends on row 0 and row 0 itself is never erased.
    let s = block.clear_lines();
    assert_eq!(s, "\x1b[2E\r\x1b[2K\r\x1b[1F\x1b[2K\r\x1b[1F");
    assert_eq!(block.cursor_position.row, 0);
}

#[test]
fn clear_all_on_single_line_block_only_positions() {
    let (mut block, _) = Block::new(lines_of(&["only"])).unwrap();
    let s = block.clear_lines();
    // One line: position on its row, zero erase rounds.
    assert_eq!(s, "\x1b[1F\r");
    assert_eq!(block.cursor_position.row, 0);
}

#[test]
fn clear_line_erases_and_homes() {
    let (block, _) = Block::new(lines_of(&["A"])).unwrap();
    assert_eq!(block.clear_line(), "\x1b[2K\r");
    assert_eq!(block.cursor_position.row, 1);
}

#[test]
fn hide_cursor_sequence() {
    let (block, _) = Block::new(lines_of(&["A"])).unwrap();
    assert_eq!(block.hide_cursor(), "\x1b[?25l");
}

#[test]
fn show_cursor_twice_is_idempotent() {
    let (block, _) = Block::new(lines_of(&["A"])).unwrap();
    let first = block.show_cursor();
    let second = block.show_cursor();
    assert_eq!(first, "\x1b[?25h");
    assert_eq!(first, second);
}

#[test]
fn movement_renders_multi_digit_magnitudes() {
    let mut v: Vec<Line> = Vec::new();
    for i in 0..255 {
        v.push(Line::new(&format!("line {i}")));
    }
    let (mut block, _) = Block::new(v).unwrap();
    // From the sentinel row 255 up to row 0: three decimal digits.
    let s = block.goto_idx(0).unwrap();
    assert_eq!(s, "\x1b[255F\r");
    // From row 0 down to row 99: two decimal digits.
    let s = block.goto_idx(99).unwrap();
    assert_eq!(s, "\x1b[99E\r");
    // From row 99 down to row 109: back to two digits across a boundary.
    let s = block.goto_idx(109).unwrap();
    assert_eq!(s, "\x1b[10E\r");
    assert_eq!(block.cursor_position.row, 109);
}
