use std::cell::RefCell;

use manifest_verifier::{Checker, Location, Mark, Rule, Span, SpannedString};

#[test]
fn test_location_constructors() {
    let full = Location::new(3, Some(3), 7, Some(11));
    assert_eq!(full.line, 3);
    assert_eq!(full.end_line, Some(3));
    assert_eq!(full.column, 7);
    assert_eq!(full.end_column, Some(11));

    let point = Location::from_line_and_col(5, 2);
    assert_eq!(point.line, 5);
    assert_eq!(point.end_line, None);
    assert_eq!(point.column, 2);
    assert_eq!(point.end_column, None);
}

#[test]
fn test_order_fidelity_reports_failures_in_declaration_order() {
    let mut checker = Checker::new();
    let declarations = [("first", false), ("second", true), ("third", false), ("fourth", false)];
    for (title, outcome) in declarations {
        let builder = checker.add_rule().with_title(title).with_condition(outcome);
        builder.build(&mut checker);
    }

    let seen: RefCell<Vec<String>> = RefCell::new(Vec::new());
    let collect = |rule: &Rule| {
        seen.borrow_mut().push(rule.title.clone().unwrap_or_default());
    };
    let has_error = checker.run(collect);

    assert!(has_error);
    assert_eq!(*seen.borrow(), vec!["first".to_string(), "third".to_string(), "fourth".to_string()]);

    let failing = checker.failures();
    let failing_titles: Vec<String> =
        failing.iter().map(|r| r.title.clone().unwrap_or_default()).collect();
    assert_eq!(failing_titles, vec!["first".to_string(), "third".to_string(), "fourth".to_string()]);
}

#[test]
fn test_run_all_passing_reports_nothing() {
    let mut checker = Checker::new();
    for title in ["a", "b"] {
        let builder = checker.add_rule().with_title(title).with_condition(true);
        builder.build(&mut checker);
    }
    let count = RefCell::new(0usize);
    let tally = |_: &Rule| {
        *count.borrow_mut() += 1;
    };
    let has_error = checker.run(tally);
    assert!(!has_error);
    assert_eq!(*count.borrow(), 0);
    assert!(checker.failures().is_empty());
}

#[test]
fn test_run_is_idempotent() {
    let mut checker = Checker::new();
    let builder = checker.add_rule().with_title("only").with_condition(false);
    builder.build(&mut checker);

    let first_seen = RefCell::new(Vec::new());
    let first = checker.run(|r: &Rule| first_seen.borrow_mut().push(r.title.clone()));
    let second_seen = RefCell::new(Vec::new());
    let second = checker.run(|r: &Rule| second_seen.borrow_mut().push(r.title.clone()));

    assert_eq!(first, second);
    assert_eq!(*first_seen.borrow(), *second_seen.borrow());
}

#[test]
fn test_builder_without_condition_cannot_build() {
    let checker = Checker::new();
    let builder = checker
        .add_rule()
        .with_title("has a title")
        .with_message("and a message")
        .with_location(Location::from_line_and_col(1, 0));
    assert!(!builder.can_build());
}

#[test]
fn test_builder_without_title_or_message_cannot_build() {
    let checker = Checker::new();
    let builder = checker
        .add_rule()
        .with_condition(true)
        .with_location(Location::from_line_and_col(1, 0));
    assert!(!builder.can_build());
}

#[test]
fn test_builder_with_condition_and_title_can_build() {
    let checker = Checker::new();
    let builder = checker.add_rule().with_title("t").with_condition(false);
    assert!(builder.can_build());
}

#[test]
fn test_span_derivation_without_end() {
    let property = SpannedString {
        value: "value".to_string(),
        span: Span { start: Some(Mark { line: 3, column: 7 }), end: None },
    };
    let mut checker = Checker::new();
    let builder = checker
        .add_rule()
        .with_title("located")
        .with_property(&property)
        .with_condition(false);
    builder.build(&mut checker);

    let failing = checker.failures();
    assert_eq!(failing.len(), 1);
    let location = failing[0].location.expect("rule should carry a location");
    assert_eq!(location.line, 3);
    assert_eq!(location.column, 7);
    assert_eq!(location.end_line, None);
    assert_eq!(location.end_column, None);
}

#[test]
fn test_span_derivation_with_end() {
    let property = SpannedString {
        value: "value".to_string(),
        span: Span {
            start: Some(Mark { line: 3, column: 7 }),
            end: Some(Mark { line: 3, column: 12 }),
        },
    };
    let mut checker = Checker::new();
    let builder = checker
        .add_rule()
        .with_title("located")
        .with_property(&property)
        .with_condition(false);
    builder.build(&mut checker);

    let failing = checker.failures();
    assert_eq!(failing.len(), 1);
    let location = failing[0].location.expect("rule should carry a location");
    assert_eq!(location.line, 3);
    assert_eq!(location.column, 7);
    assert_eq!(location.end_line, Some(3));
    assert_eq!(location.end_column, Some(12));
}

#[test]
fn test_builder_last_write_wins() {
    let mut checker = Checker::new();
    let builder = checker
        .add_rule()
        .with_title("old title")
        .with_title("new title")
        .with_message("old message")
        .with_message("new message")
        .with_location(Location::from_line_and_col(1, 1))
        .with_location(Location::from_line_and_col(9, 9))
        .with_condition(true)
        .with_condition(false);
    builder.build(&mut checker);

    let failing = checker.failures();
    assert_eq!(failing.len(), 1);
    assert_eq!(failing[0].title.as_deref(), Some("new title"));
    assert_eq!(failing[0].message.as_deref(), Some("new message"));
    let location = failing[0].location.expect("location should be set");
    assert_eq!((location.line, location.column), (9, 9));
}
