use std::cell::RefCell;

use manifest_verifier::{Manifest, Mark, Rule, RunFlags, Span, SpannedString};

fn spanned(value: &str, line: usize, column: usize) -> SpannedString {
    SpannedString {
        value: value.to_string(),
        span: Span { start: Some(Mark { line, column }), end: None },
    }
}

fn run_collecting(content: &str, manifest: &Manifest, flags: RunFlags) -> (bool, Vec<Rule>) {
    let seen: RefCell<Vec<Rule>> = RefCell::new(Vec::new());
    let collect = |rule: &Rule| {
        seen.borrow_mut().push(rule.clone());
    };
    let has_error = manifest_verifier::run(content, manifest, collect, flags);
    (has_error, seen.into_inner())
}

fn titles(rules: &[Rule]) -> Vec<String> {
    rules.iter().map(|r| r.title.clone().unwrap_or_default()).collect()
}

#[test]
fn test_empty_document_proprietary_fails_header_rules() {
    let manifest = Manifest { name: None, label: None, summary: None };
    let flags = RunFlags { is_template: false, is_proprietary: true };

    let (has_error, failing) = run_collecting("", &manifest, flags);

    assert!(has_error);
    assert_eq!(
        titles(&failing),
        vec![
            "Manifest must begin with a comment to the specs".to_string(),
            "Manifest must begin with a YAML document separator (---)".to_string(),
            "Name must be present".to_string(),
            "Label must be present".to_string(),
        ],
    );
}

#[test]
fn test_name_length_boundary() {
    let flags = RunFlags { is_template: false, is_proprietary: false };
    let content = "---\nname: whatever\n";

    let at_limit = Manifest { name: Some(spanned(&"a".repeat(64), 2, 7)), label: None, summary: None };
    let (has_error, _) = run_collecting(content, &at_limit, flags);
    assert!(!has_error);

    let over_limit =
        Manifest { name: Some(spanned(&"a".repeat(65), 2, 7)), label: None, summary: None };
    let (has_error, failing) = run_collecting(content, &over_limit, flags);
    assert!(has_error);
    assert_eq!(titles(&failing), vec!["Name must not exceed 64 characters".to_string()]);
}

#[test]
fn test_name_with_hyphens_and_digits_passes_charset_rule() {
    let flags = RunFlags { is_template: false, is_proprietary: false };
    let manifest = Manifest {
        name: Some(spanned("search-google-fetcher2", 2, 7)),
        label: None,
        summary: None,
    };

    let (has_error, failing) =
        run_collecting("---\nname: search-google-fetcher2\n", &manifest, flags);

    assert!(!has_error, "unexpected failures: {:?}", titles(&failing));
    assert!(failing.is_empty());
}

#[test]
fn test_name_with_underscore_fails_charset_rule() {
    let flags = RunFlags { is_template: false, is_proprietary: false };
    let manifest = Manifest { name: Some(spanned("my_module", 2, 7)), label: None, summary: None };

    let (has_error, failing) = run_collecting("---\nname: my_module\n", &manifest, flags);

    assert!(has_error);
    assert_eq!(
        titles(&failing),
        vec!["Name must consist only of lowercase letters, digits, and hyphens".to_string()],
    );
}

#[test]
fn test_blank_name_fails_emptiness_rule() {
    let flags = RunFlags { is_template: false, is_proprietary: false };
    let manifest = Manifest { name: Some(spanned("   ", 2, 7)), label: None, summary: None };

    let (has_error, failing) = run_collecting("---\nname:    \n", &manifest, flags);

    assert!(has_error);
    let failed = titles(&failing);
    assert!(failed.contains(&"Name must not be empty".to_string()));
}

#[test]
fn test_name_starting_with_digit_fails_letter_rule() {
    let flags = RunFlags { is_template: false, is_proprietary: false };
    let manifest = Manifest { name: Some(spanned("1abc", 2, 7)), label: None, summary: None };

    let (has_error, failing) = run_collecting("---\nname: 1abc\n", &manifest, flags);

    assert!(has_error);
    assert!(titles(&failing).contains(&"Name must start with a letter".to_string()));
}

#[test]
fn test_lowercase_label_fails_capital_rule() {
    let flags = RunFlags { is_template: false, is_proprietary: false };
    let manifest = Manifest {
        name: Some(spanned("ok", 2, 7)),
        label: Some(spanned("luma", 3, 8)),
        summary: None,
    };

    let (has_error, failing) = run_collecting("---\nname: ok\nlabel: luma\n", &manifest, flags);

    assert!(has_error);
    assert_eq!(titles(&failing), vec!["Label must start with a capital letter".to_string()]);
}

#[test]
fn test_template_flag_suppresses_template_rules() {
    let flags = RunFlags { is_template: true, is_proprietary: false };
    let manifest = Manifest {
        name: Some(spanned("template", 2, 7)),
        label: Some(spanned("Template", 3, 8)),
        summary: Some(spanned("ASIMOV Template Module", 4, 10)),
    };
    let content = "---\nname: template\nlabel: Template\nsummary: ASIMOV Template Module\n";

    let (has_error, failing) = run_collecting(content, &manifest, flags);

    // Placeholder values are acceptable in the template itself; only the
    // summary's missing terminal punctuation is reported.
    assert!(has_error);
    assert_eq!(
        titles(&failing),
        vec!["Summary must end with a period or exclamation mark".to_string()],
    );
}

#[test]
fn test_crlf_line_endings_are_stripped() {
    let flags = RunFlags { is_template: false, is_proprietary: true };
    let manifest = Manifest {
        name: Some(spanned("ok", 3, 7)),
        label: Some(spanned("Ok", 4, 8)),
        summary: None,
    };
    let content = "# See: https://asimov-specs.github.io/module-manifest/\r\n---\r\nname: ok\r\nlabel: Ok\r\n";

    let (has_error, failing) = run_collecting(content, &manifest, flags);

    assert!(!has_error, "unexpected failures: {:?}", titles(&failing));
}

#[test]
fn test_document_of_only_comments_has_no_separator_rule() {
    let flags = RunFlags { is_template: false, is_proprietary: false };
    let manifest = Manifest { name: Some(spanned("ok", 1, 1)), label: None, summary: None };

    let (has_error, failing) = run_collecting("# only\n# comments\n", &manifest, flags);

    assert!(!has_error);
    assert!(failing.is_empty());
}
