use crate::checker::Checker;
use crate::location::Location;
use crate::manifest::{Span, SpannedString};
use crate::rule::{Rule, RuleModel};
use vstd::prelude::*;

verus! {

/// A builder as specifications see it: the accumulated optional fields,
/// with strings abstracted to character sequences.
pub ghost struct BuilderModel {
    pub title: Option<Seq<char>>,
    pub message: Option<Seq<char>>,
    pub location: Option<Location>,
    pub result: Option<bool>,
}

/// The state of a freshly created builder: nothing set yet.
pub open spec fn spec_empty_builder() -> BuilderModel {
    BuilderModel { title: None, message: None, location: None, result: None }
}

/// Whether a builder may be finalized: a condition has been set, and at
/// least one of title and message is present, so the committed rule has a
/// definite verdict and is independently diagnosable.
pub open spec fn buildable(b: BuilderModel) -> bool {
    &&& b.result is Some
    &&& b.title is Some || b.message is Some
}

/// The location derived from the span of a parsed value: its start
/// coordinates, and, when the span reports an end, both end coordinates.
pub open spec fn spec_property_location(span: Span) -> Location
    recommends
        span.start is Some,
{
    Location {
        line: span.start.unwrap().line,
        column: span.start.unwrap().column,
        end_line: match span.end {
            Some(m) => Some(m.line),
            None => None,
        },
        end_column: match span.end {
            Some(m) => Some(m.column),
            None => None,
        },
    }
}

/// The rule a builder commits on finalization.
pub open spec fn spec_built_rule(b: BuilderModel) -> RuleModel
    recommends
        buildable(b),
{
    RuleModel {
        title: b.title,
        message: b.message,
        location: b.location,
        result: b.result.unwrap(),
    }
}

/// A transient, single-use accumulator for exactly one rule: it collects
/// title, message, location, and condition, and on finalization commits an
/// immutable [`Rule`] to a checker.
pub struct RuleBuilder {
    title: Option<String>,
    message: Option<String>,
    location: Option<Location>,
    result: Option<bool>,
}

impl View for RuleBuilder {
    type V = BuilderModel;

    closed spec fn view(&self) -> BuilderModel {
        BuilderModel {
            title: match self.title {
                Some(t) => Some(t@),
                None => None,
            },
            message: match self.message {
                Some(m) => Some(m@),
                None => None,
            },
            location: self.location,
            result: self.result,
        }
    }
}

impl RuleBuilder {
    pub(crate) fn new() -> (b: Self)
        ensures
            b@ == spec_empty_builder(),
    {
        RuleBuilder { title: None, message: None, location: None, result: None }
    }

    /// Sets the rule's title; a later call overwrites an earlier one.
    pub fn with_title(self, title: &str) -> (r: Self)
        ensures
            r@ == (BuilderModel { title: Some(title@), ..self@ }),
    {
        RuleBuilder { title: Some(title.to_owned()), ..self }
    }

    /// Sets the rule's message; a later call overwrites an earlier one.
    pub fn with_message(self, message: &str) -> (r: Self)
        ensures
            r@ == (BuilderModel { message: Some(message@), ..self@ }),
    {
        RuleBuilder { message: Some(message.to_owned()), ..self }
    }

    /// Sets the rule's location; a later call overwrites an earlier one.
    pub fn with_location(self, location: Location) -> (r: Self)
        ensures
            r@ == (BuilderModel { location: Some(location), ..self@ }),
    {
        RuleBuilder { location: Some(location), ..self }
    }

    /// Derives the rule's location from the span of a parsed value,
    /// overwriting any previously set location. The value must report a
    /// start position; when its span also reports an end, both end
    /// coordinates are populated together, and otherwise both remain unset.
    pub fn with_property(self, property: &SpannedString) -> (r: Self)
        requires
            property.wf(),
        ensures
            r@ == (BuilderModel {
                location: Some(spec_property_location(property.span)),
                ..self@
            }),
    {
        let start = property.span.start.unwrap();
        let end_line = match property.span.end {
            Some(m) => Some(m.line),
            None => None,
        };
        let end_column = match property.span.end {
            Some(m) => Some(m.column),
            None => None,
        };
        RuleBuilder {
            location: Some(Location::new(start.line, end_line, start.column, end_column)),
            ..self
        }
    }

    /// Sets the pass/fail outcome of the rule; a later call overwrites an
    /// earlier one, and a condition must be set before finalization.
    pub fn with_condition(self, condition: bool) -> (r: Self)
        ensures
            r@ == (BuilderModel { result: Some(condition), ..self@ }),
    {
        RuleBuilder { result: Some(condition), ..self }
    }

    /// Whether finalizing this builder would be accepted: a condition has
    /// been set, and at least one of title and message is present.
    pub fn can_build(&self) -> (r: bool)
        ensures
            r == buildable(self@),
    {
        self.result.is_some() && (self.title.is_some() || self.message.is_some())
    }

    /// Consumes the builder and commits its rule at the end of the
    /// checker's sequence, preserving declaration order. Finalizing without
    /// a condition, or with neither title nor message, is a contract
    /// violation of the rule-set definition, not a reportable rule failure.
    pub fn build(self, checker: &mut Checker)
        requires
            buildable(self@),
        ensures
            final(checker)@ == old(checker)@.push(spec_built_rule(self@)),
    {
        let result = self.result.unwrap();
        if self.title.is_none() && self.message.is_none() {
            // Unreachable under this function's contract; aborts an
            // unverified caller that set neither field, before the checker
            // is touched.
            let _ = self.title.as_ref().unwrap();
        }
        let rule = Rule {
            title: self.title,
            message: self.message,
            location: self.location,
            result,
        };
        checker.append_rule(rule);
    }
}

/// A builder with no condition set can never be finalized, regardless of
/// what else was set.
pub proof fn lemma_build_needs_condition(b: BuilderModel)
    ensures
        b.result is None ==> !buildable(b),
{
}

/// A builder with both title and message unset can never be finalized, even
/// if a condition and a location are set.
pub proof fn lemma_build_needs_title_or_message(b: BuilderModel)
    ensures
        b.title is None && b.message is None ==> !buildable(b),
{
}

} // verus!
