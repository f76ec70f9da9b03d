use vstd::prelude::*;

verus! {

/// A span in source text: a start line and column, and an optional end line
/// and column. A location either has full positional grounding or none at
/// all; when the end is known, both of its coordinates are set together.
#[derive(Clone, Copy, Debug, PartialEq, Eq)]
pub struct Location {
    pub line: usize,
    pub end_line: Option<usize>,
    pub column: usize,
    pub end_column: Option<usize>,
}

impl Location {
    pub fn new(
        line: usize,
        end_line: Option<usize>,
        column: usize,
        end_column: Option<usize>,
    ) -> (r: Self)
        ensures
            r == (Location { line, end_line, column, end_column }),
    {
        Location { line, end_line, column, end_column }
    }

    pub fn from_line_and_col(line: usize, col: usize) -> (r: Self)
        ensures
            r == (Location { line, end_line: None, column: col, end_column: None }),
    {
        Self::new(line, None, col, None)
    }
}

} // verus!
