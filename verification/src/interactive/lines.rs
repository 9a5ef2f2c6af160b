use vstd::prelude::*;

verus! {

/// One line of a block: mutable display text at a fixed row offset.
///
/// The row offset is assigned once, when a block takes ownership of the
/// line, and equals the line's position in the construction order.
#[derive(Debug, Clone)]
pub struct InteractiveLine {
    pub content: String,
    pub relative_row: u8,
}

impl InteractiveLine {
    /// Creates a line with the given content, not yet placed in a block
    /// (its row offset starts at zero and is assigned by the block).
    pub fn new(content: &str) -> (line: Self)
        ensures
            line.content@ == content@,
            line.relative_row == 0,
    {
        Self { content: content.to_owned(), relative_row: 0 }
    }

    /// Replaces the line's stored content.
    pub fn update_content(&mut self, content: &str)
        ensures
            final(self).content@ == content@,
            final(self).relative_row == old(self).relative_row,
    {
        self.content = content.to_owned();
    }

    /// Assigns the line's fixed row offset within its block.
    pub(crate) fn update_relative_row(&mut self, row: u8)
        ensures
            final(self).relative_row == row,
            final(self).content == old(self).content,
    {
        self.relative_row = row;
    }
}

} // verus!
