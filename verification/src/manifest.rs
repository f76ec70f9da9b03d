use vstd::prelude::*;

verus! {

/// A source position reported by a position-tracked parse: line and column.
#[derive(Clone, Copy, Debug)]
pub struct Mark {
    pub line: usize,
    pub column: usize,
}

/// The source span of a parsed scalar value: a start position, which every
/// value of a well-formed document model reports, and an optional end
/// position.
#[derive(Clone, Copy, Debug)]
pub struct Span {
    pub start: Option<Mark>,
    pub end: Option<Mark>,
}

/// A scalar field value together with the source span it was parsed from.
pub struct SpannedString {
    pub value: String,
    pub span: Span,
}

impl SpannedString {
    /// A well-formed spanned value reports where it starts.
    pub open spec fn wf(&self) -> bool {
        self.span.start is Some
    }
}

/// The document model the rule set reads: the optional scalar fields of a
/// manifest, each carrying the span attached by a position-tracked parse.
pub struct Manifest {
    pub name: Option<SpannedString>,
    pub label: Option<SpannedString>,
    pub summary: Option<SpannedString>,
}

impl Manifest {
    /// Every present field reports a start position, as a position-tracked
    /// parse guarantees of the values it produces.
    pub open spec fn wf(&self) -> bool {
        &&& match self.name {
            Some(s) => s.wf(),
            None => true,
        }
        &&& match self.label {
            Some(s) => s.wf(),
            None => true,
        }
        &&& match self.summary {
            Some(s) => s.wf(),
            None => true,
        }
    }
}

} // verus!
