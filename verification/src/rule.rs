use crate::location::Location;
use vstd::prelude::*;

verus! {

/// A single finalized check: a pass/fail verdict (`result == false` means a
/// violation) paired with an optional title, an optional message, and an
/// optional source location. At least one of title and message is present in
/// every rule a builder commits; `result` is the sole signal evaluation
/// consumes.
#[derive(Debug, PartialEq, Eq)]
pub struct Rule {
    pub title: Option<String>,
    pub message: Option<String>,
    pub location: Option<Location>,
    pub result: bool,
}

/// A rule as specifications see it: the string fields abstracted to
/// character sequences.
pub ghost struct RuleModel {
    pub title: Option<Seq<char>>,
    pub message: Option<Seq<char>>,
    pub location: Option<Location>,
    pub result: bool,
}

/// The view of an optional owned string: the character sequence it holds.
pub open spec fn opt_view(s: Option<String>) -> Option<Seq<char>> {
    match s {
        Some(t) => Some(t@),
        None => None,
    }
}

impl View for Rule {
    type V = RuleModel;

    open spec fn view(&self) -> RuleModel {
        RuleModel {
            title: opt_view(self.title),
            message: opt_view(self.message),
            location: self.location,
            result: self.result,
        }
    }
}

impl Clone for Rule {
    /// Cloning a rule preserves its model exactly.
    fn clone(&self) -> (r: Self)
        ensures
            r@ == self@,
    {
        Rule {
            title: match &self.title {
                Some(t) => Some(t.clone()),
                None => None,
            },
            message: match &self.message {
                Some(m) => Some(m.clone()),
                None => None,
            },
            location: self.location,
            result: self.result,
        }
    }
}

} // verus!
