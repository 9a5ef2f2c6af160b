use interm::interactive::Line;

#[test]
fn new_line_holds_content_at_row_zero() {
    let line = Line::new("Hello, world!");
    assert_eq!(line.content, "Hello, world!");
    assert_eq!(line.relative_row, 0);
}

#[test]
fn update_content_replaces_text_and_keeps_row() {
    let mut line = Line::new("Hello, world!");
    line.update_content("Hello, world! 2");
    assert_eq!(line.content, "Hello, world! 2");
    assert_eq!(line.relative_row, 0);
}

#[test]
fn empty_content_is_kept_empty() {
    let line = Line::new("");
    assert_eq!(line.content, "");
}
