//! A rule-evaluation engine for linting manifest documents.
//!
//! A [`Checker`] holds an ordered sequence of [`Rule`]s, each a pass/fail
//! verdict paired with a title and/or message and an optional source
//! [`Location`]. Rules are declared fluently through a [`RuleBuilder`] and
//! evaluated in declaration order; every failing rule is handed to a
//! caller-supplied callback, and the run reports whether any rule failed.

pub mod checker;
pub mod location;
pub mod manifest;
pub mod rule;
pub mod rule_builder;
pub mod rules;
pub mod text;

pub use checker::Checker;
pub use location::Location;
pub use manifest::{Manifest, Mark, Span, SpannedString};
pub use rule::Rule;
pub use rule_builder::RuleBuilder;
pub use rules::{add_rules, run, RunFlags};
