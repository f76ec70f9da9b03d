use crate::checker::Checker;
use crate::location::Location;
use crate::manifest::{Manifest, SpannedString};
use crate::rule::{Rule, RuleModel};
use crate::rule_builder::spec_property_location;
use crate::text::{
    all_name_chars, chars_eq, chars_vec, ends_sentence, first_non_comment, is_blank,
    lemma_line_views, spec_all_name_chars, spec_byte_len, spec_ends_sentence,
    spec_first_non_comment, spec_is_blank, spec_lines, spec_starts_alphabetic,
    spec_starts_uppercase, split_lines, starts_alphabetic, starts_uppercase, str_eq,
};
use vstd::prelude::*;

verus! {

/// Mode flags that alter which rules the rule-set definition issues: the
/// template flag suppresses the rules that check whether placeholder values
/// were changed, and the proprietary flag enables the header-format rules
/// and makes the label field required.
#[derive(Default, Debug, Clone, Copy, PartialEq, Eq)]
pub struct RunFlags {
    pub is_template: bool,
    pub is_proprietary: bool,
}

/// A rule carrying both a title and a message, as every rule of this rule
/// set does.
pub open spec fn rule_model(
    title: Seq<char>,
    message: Seq<char>,
    location: Option<Location>,
    result: bool,
) -> RuleModel {
    RuleModel { title: Some(title), message: Some(message), location, result }
}

/// Guidance attached to every rule about the `name` field.
pub open spec fn spec_name_guidance() -> Seq<char> {
    "The `name` field MUST contain a string that uniquely identifies the module within the ASIMOV Platform. The name:\n- MUST consist only of lowercase letters, digits, and hyphens\n- MUST start with a letter\n- MUST NOT exceed 64 characters in length\n- SHOULD be descriptive and follow the pattern category-provider-type (e.g., search-google-fetcher)\n"@
}

fn name_guidance() -> (r: &'static str)
    ensures
        r@ == spec_name_guidance(),
{
    "The `name` field MUST contain a string that uniquely identifies the module within the ASIMOV Platform. The name:\n- MUST consist only of lowercase letters, digits, and hyphens\n- MUST start with a letter\n- MUST NOT exceed 64 characters in length\n- SHOULD be descriptive and follow the pattern category-provider-type (e.g., search-google-fetcher)\n"
}

/// Guidance attached to every rule about the `label` field.
pub open spec fn spec_label_guidance() -> Seq<char> {
    "The `label` field contains an optional human-readable display name for the module. If provided, it SHOULD be concise and suitable for display in user interfaces."@
}

fn label_guidance() -> (r: &'static str)
    ensures
        r@ == spec_label_guidance(),
{
    "The `label` field contains an optional human-readable display name for the module. If provided, it SHOULD be concise and suitable for display in user interfaces."
}

/// Guidance attached to every rule about the `summary` field.
pub open spec fn spec_summary_guidance() -> Seq<char> {
    "The `summary` field contains an optional brief description of the module\u{2019}s purpose and functionality. This SHOULD be a single sentence that clearly explains what the module does."@
}

fn summary_guidance() -> (r: &'static str)
    ensures
        r@ == spec_summary_guidance(),
{
    "The `summary` field contains an optional brief description of the module\u{2019}s purpose and functionality. This SHOULD be a single sentence that clearly explains what the module does."
}

/// The proprietary header rule: the first line is the comment pointing at
/// the manifest specification. A document too short to have that line fails
/// the rule.
pub open spec fn rule_header_comment(lines: Seq<Seq<char>>) -> RuleModel {
    rule_model(
        "Manifest must begin with a comment to the specs"@,
        "First line must be `# See: https://asimov-specs.github.io/module-manifest/`"@,
        Some(Location { line: 1, end_line: None, column: 0, end_column: None }),
        lines.len() > 0 && lines[0] == "# See: https://asimov-specs.github.io/module-manifest/"@,
    )
}

/// The proprietary header rule: the second line is the YAML document
/// separator. A document too short to have that line fails the rule.
pub open spec fn rule_header_separator(lines: Seq<Seq<char>>) -> RuleModel {
    rule_model(
        "Manifest must begin with a YAML document separator (---)"@,
        "Second line must be `---`"@,
        Some(Location { line: 2, end_line: None, column: 0, end_column: None }),
        lines.len() > 1 && lines[1] == "---"@,
    )
}

/// The header rule outside proprietary mode: the first non-comment line is
/// the YAML document separator.
pub open spec fn rule_non_comment_separator(line: Seq<char>) -> RuleModel {
    rule_model(
        "Manifest must begin with a YAML document separator (---)"@,
        "First non-comment line must be `---`"@,
        Some(Location { line: 2, end_line: None, column: 0, end_column: None }),
        line == "---"@,
    )
}

pub open spec fn rule_name_present(m: Manifest) -> RuleModel {
    rule_model("Name must be present"@, "`name` is a required field"@, None, m.name is Some)
}

pub open spec fn rule_name_template(name: SpannedString) -> RuleModel {
    rule_model(
        "Name must be changed from the template"@,
        spec_name_guidance(),
        Some(spec_property_location(name.span)),
        name.value@ != "template"@,
    )
}

pub open spec fn rule_name_nonempty(name: SpannedString) -> RuleModel {
    rule_model(
        "Name must not be empty"@,
        spec_name_guidance(),
        Some(spec_property_location(name.span)),
        !spec_is_blank(name.value@),
    )
}

pub open spec fn rule_name_charset(name: SpannedString) -> RuleModel {
    rule_model(
        "Name must consist only of lowercase letters, digits, and hyphens"@,
        spec_name_guidance(),
        Some(spec_property_location(name.span)),
        spec_all_name_chars(name.value@),
    )
}

pub open spec fn rule_name_starts_letter(name: SpannedString) -> RuleModel {
    rule_model(
        "Name must start with a letter"@,
        spec_name_guidance(),
        Some(spec_property_location(name.span)),
        spec_starts_alphabetic(name.value@),
    )
}

pub open spec fn rule_name_length(name: SpannedString) -> RuleModel {
    rule_model(
        "Name must not exceed 64 characters"@,
        spec_name_guidance(),
        Some(spec_property_location(name.span)),
        spec_byte_len(name.value@) <= 64,
    )
}

pub open spec fn rule_label_present(m: Manifest) -> RuleModel {
    rule_model("Label must be present"@, "`label` is a required field"@, None, m.label is Some)
}

pub open spec fn rule_label_template(label: SpannedString) -> RuleModel {
    rule_model(
        "Label must be changed from the template"@,
        spec_label_guidance(),
        Some(spec_property_location(label.span)),
        label.value@ != "Template"@,
    )
}

pub open spec fn rule_label_nonempty(label: SpannedString) -> RuleModel {
    rule_model(
        "Label must not be empty"@,
        spec_label_guidance(),
        Some(spec_property_location(label.span)),
        !spec_is_blank(label.value@),
    )
}

pub open spec fn rule_label_capital(label: SpannedString) -> RuleModel {
    rule_model(
        "Label must start with a capital letter"@,
        spec_label_guidance(),
        Some(spec_property_location(label.span)),
        spec_starts_uppercase(label.value@),
    )
}

pub open spec fn rule_summary_template(summary: SpannedString) -> RuleModel {
    rule_model(
        "Summary must be changed from the template"@,
        spec_summary_guidance(),
        Some(spec_property_location(summary.span)),
        summary.value@ != "ASIMOV Template Module"@,
    )
}

pub open spec fn rule_summary_nonempty(summary: SpannedString) -> RuleModel {
    rule_model(
        "Summary must not be empty"@,
        spec_summary_guidance(),
        Some(spec_property_location(summary.span)),
        !spec_is_blank(summary.value@),
    )
}

pub open spec fn rule_summary_capital(summary: SpannedString) -> RuleModel {
    rule_model(
        "Summary must start with a capital letter"@,
        spec_summary_guidance(),
        Some(spec_property_location(summary.span)),
        spec_starts_uppercase(summary.value@),
    )
}

pub open spec fn rule_summary_sentence(summary: SpannedString) -> RuleModel {
    rule_model(
        "Summary must end with a period or exclamation mark"@,
        spec_summary_guidance(),
        Some(spec_property_location(summary.span)),
        spec_ends_sentence(summary.value@),
    )
}

/// The header rules: in proprietary mode the fixed comment and separator
/// lines, otherwise a separator check on the first non-comment line, when
/// one exists.
pub open spec fn spec_header_rules(lines: Seq<Seq<char>>, flags: RunFlags) -> Seq<RuleModel> {
    if flags.is_proprietary {
        seq![rule_header_comment(lines), rule_header_separator(lines)]
    } else {
        match spec_first_non_comment(lines) {
            Some(l) => seq![rule_non_comment_separator(l)],
            None => Seq::<RuleModel>::empty(),
        }
    }
}

/// The name rules: presence unconditionally, and, when the field is
/// present, the content rules, with the template check suppressed in
/// template mode.
pub open spec fn spec_name_rules(m: Manifest, flags: RunFlags) -> Seq<RuleModel> {
    seq![rule_name_present(m)] + match m.name {
        Some(name) => (if !flags.is_template {
            seq![rule_name_template(name)]
        } else {
            Seq::<RuleModel>::empty()
        }) + seq![
            rule_name_nonempty(name),
            rule_name_charset(name),
            rule_name_starts_letter(name),
            rule_name_length(name),
        ],
        None => Seq::<RuleModel>::empty(),
    }
}

/// The label rules: presence in proprietary mode, and, when the field is
/// present, the content rules, with the template check suppressed in
/// template mode.
pub open spec fn spec_label_rules(m: Manifest, flags: RunFlags) -> Seq<RuleModel> {
    (if flags.is_proprietary {
        seq![rule_label_present(m)]
    } else {
        Seq::<RuleModel>::empty()
    }) + match m.label {
        Some(label) => (if !flags.is_template {
            seq![rule_label_template(label)]
        } else {
            Seq::<RuleModel>::empty()
        }) + seq![rule_label_nonempty(label), rule_label_capital(label)],
        None => Seq::<RuleModel>::empty(),
    }
}

/// The summary rules: when the field is present, the content rules, with
/// the template check suppressed in template mode.
pub open spec fn spec_summary_rules(m: Manifest, flags: RunFlags) -> Seq<RuleModel> {
    match m.summary {
        Some(summary) => (if !flags.is_template {
            seq![rule_summary_template(summary)]
        } else {
            Seq::<RuleModel>::empty()
        }) + seq![
            rule_summary_nonempty(summary),
            rule_summary_capital(summary),
            rule_summary_sentence(summary),
        ],
        None => Seq::<RuleModel>::empty(),
    }
}

/// Every rule the rule-set definition issues for a document, in declaration
/// order: header rules first, then name, label, and summary rules.
pub open spec fn spec_rules(lines: Seq<Seq<char>>, m: Manifest, flags: RunFlags) -> Seq<
    RuleModel,
> {
    spec_header_rules(lines, flags) + spec_name_rules(m, flags) + spec_label_rules(m, flags)
        + spec_summary_rules(m, flags)
}

fn add_header_rules(checker: &mut Checker, lines: &Vec<Vec<char>>, flags: RunFlags)
    ensures
        final(checker)@ == old(checker)@ + spec_header_rules(lines.deep_view(), flags),
{
    proof {
        lemma_line_views(lines);
    }
    let ghost base = checker@;
    let ghost lv = lines.deep_view();
    if flags.is_proprietary {
        let lit = chars_vec("# See: https://asimov-specs.github.io/module-manifest/");
        let comment_ok = if lines.len() > 0 {
            chars_eq(&lines[0], &lit)
        } else {
            false
        };
        checker.add_rule()
            .with_title("Manifest must begin with a comment to the specs")
            .with_message("First line must be `# See: https://asimov-specs.github.io/module-manifest/`")
            .with_condition(comment_ok)
            .with_location(Location::from_line_and_col(1, 0))
            .build(checker);
        let sep_ok = if lines.len() > 1 {
            let sep = chars_vec("---");
            chars_eq(&lines[1], &sep)
        } else {
            false
        };
        checker.add_rule()
            .with_title("Manifest must begin with a YAML document separator (---)")
            .with_message("Second line must be `---`")
            .with_condition(sep_ok)
            .with_location(Location::from_line_and_col(2, 0))
            .build(checker);
        proof {
            assert(checker@ =~= base + spec_header_rules(lv, flags));
        }
    } else {
        match first_non_comment(lines) {
            Some(i) => {
                let sep = chars_vec("---");
                let is_sep = chars_eq(&lines[i], &sep);
                checker.add_rule()
                    .with_title("Manifest must begin with a YAML document separator (---)")
                    .with_message("First non-comment line must be `---`")
                    .with_condition(is_sep)
                    .with_location(Location::from_line_and_col(2, 0))
                    .build(checker);
                proof {
                    assert(checker@ =~= base + spec_header_rules(lv, flags));
                }
            },
            None => {
                proof {
                    assert(checker@ =~= base + spec_header_rules(lv, flags));
                }
            },
        }
    }
}

fn add_name_rules(checker: &mut Checker, manifest: &Manifest, flags: RunFlags)
    requires
        match manifest.name {
            Some(name) => name.wf(),
            None => true,
        },
    ensures
        final(checker)@ == old(checker)@ + spec_name_rules(*manifest, flags),
{
    let ghost base = checker@;
    checker.add_rule()
        .with_title("Name must be present")
        .with_message("`name` is a required field")
        .with_condition(manifest.name.is_some())
        .build(checker);
    match &manifest.name {
        Some(name) => {
            let vchars = chars_vec(name.value.as_str());
            if !flags.is_template {
                let changed = !str_eq(name.value.as_str(), "template");
                checker.add_rule()
                    .with_title("Name must be changed from the template")
                    .with_message(name_guidance())
                    .with_property(name)
                    .with_condition(changed)
                    .build(checker);
            }
            let nonblank = !is_blank(&vchars);
            checker.add_rule()
                .with_title("Name must not be empty")
                .with_message(name_guidance())
                .with_property(name)
                .with_condition(nonblank)
                .build(checker);
            let charset_ok = all_name_chars(&vchars);
            checker.add_rule()
                .with_title("Name must consist only of lowercase letters, digits, and hyphens")
                .with_message(name_guidance())
                .with_property(name)
                .with_condition(charset_ok)
                .build(checker);
            let starts_letter = starts_alphabetic(&vchars);
            checker.add_rule()
                .with_title("Name must start with a letter")
                .with_message(name_guidance())
                .with_property(name)
                .with_condition(starts_letter)
                .build(checker);
            let short_enough = name.value.as_str().len() <= 64;
            checker.add_rule()
                .with_title("Name must not exceed 64 characters")
                .with_message(name_guidance())
                .with_property(name)
                .with_condition(short_enough)
                .build(checker);
            proof {
                assert(checker@ =~= base + spec_name_rules(*manifest, flags));
            }
        },
        None => {
            proof {
                assert(checker@ =~= base + spec_name_rules(*manifest, flags));
            }
        },
    }
}

fn add_label_rules(checker: &mut Checker, manifest: &Manifest, flags: RunFlags)
    requires
        match manifest.label {
            Some(label) => label.wf(),
            None => true,
        },
    ensures
        final(checker)@ == old(checker)@ + spec_label_rules(*manifest, flags),
{
    let ghost base = checker@;
    if flags.is_proprietary {
        checker.add_rule()
            .with_title("Label must be present")
            .with_message("`label` is a required field")
            .with_condition(manifest.label.is_some())
            .build(checker);
    }
    match &manifest.label {
        Some(label) => {
            let vchars = chars_vec(label.value.as_str());
            if !flags.is_template {
                let changed = !str_eq(label.value.as_str(), "Template");
                checker.add_rule()
                    .with_title("Label must be changed from the template")
                    .with_message(label_guidance())
                    .with_property(label)
                    .with_condition(changed)
                    .build(checker);
            }
            let nonblank = !is_blank(&vchars);
            checker.add_rule()
                .with_title("Label must not be empty")
                .with_message(label_guidance())
                .with_property(label)
                .with_condition(nonblank)
                .build(checker);
            let capital = starts_uppercase(&vchars);
            checker.add_rule()
                .with_title("Label must start with a capital letter")
                .with_message(label_guidance())
                .with_property(label)
                .with_condition(capital)
                .build(checker);
            proof {
                assert(checker@ =~= base + spec_label_rules(*manifest, flags));
            }
        },
        None => {
            proof {
                assert(checker@ =~= base + spec_label_rules(*manifest, flags));
            }
        },
    }
}

fn add_summary_rules(checker: &mut Checker, manifest: &Manifest, flags: RunFlags)
    requires
        match manifest.summary {
            Some(summary) => summary.wf(),
            None => true,
        },
    ensures
        final(checker)@ == old(checker)@ + spec_summary_rules(*manifest, flags),
{
    let ghost base = checker@;
    match &manifest.summary {
        Some(summary) => {
            let vchars = chars_vec(summary.value.as_str());
            if !flags.is_template {
                let changed = !str_eq(summary.value.as_str(), "ASIMOV Template Module");
                checker.add_rule()
                    .with_title("Summary must be changed from the template")
                    .with_message(summary_guidance())
                    .with_property(summary)
                    .with_condition(changed)
                    .build(checker);
            }
            let nonblank = !is_blank(&vchars);
            checker.add_rule()
                .with_title("Summary must not be empty")
                .with_message(summary_guidance())
                .with_property(summary)
                .with_condition(nonblank)
                .build(checker);
            let capital = starts_uppercase(&vchars);
            checker.add_rule()
                .with_title("Summary must start with a capital letter")
                .with_message(summary_guidance())
                .with_property(summary)
                .with_condition(capital)
                .build(checker);
            let sentence = ends_sentence(&vchars);
            checker.add_rule()
                .with_title("Summary must end with a period or exclamation mark")
                .with_message(summary_guidance())
                .with_property(summary)
                .with_condition(sentence)
                .build(checker);
            proof {
                assert(checker@ =~= base + spec_summary_rules(*manifest, flags));
            }
        },
        None => {
            proof {
                assert(checker@ =~= base + spec_summary_rules(*manifest, flags));
            }
        },
    }
}

/// The rule-set definition: issues the fixed, flag-dependent sequence of
/// rules for the given document model and lines, in declaration order.
pub fn add_rules(checker: &mut Checker, lines: &Vec<Vec<char>>, manifest: &Manifest, flags: RunFlags)
    requires
        manifest.wf(),
    ensures
        final(checker)@ == old(checker)@ + spec_rules(lines.deep_view(), *manifest, flags),
{
    add_header_rules(checker, lines, flags);
    add_name_rules(checker, manifest, flags);
    add_label_rules(checker, manifest, flags);
    add_summary_rules(checker, manifest, flags);
    proof {
        assert(checker@ =~= old(checker)@ + spec_rules(lines.deep_view(), *manifest, flags));
    }
}

/// Validates a manifest source text: splits it into lines, issues the rule
/// set for the given document model, reports every failing rule to the
/// callback in declaration order, and returns whether any rule failed.
pub fn run<F: Fn(&Rule)>(
    content: &str,
    manifest: &Manifest,
    error_fn: F,
    flags: RunFlags,
) -> (has_error: bool)
    requires
        manifest.wf(),
        forall|r: &Rule| call_requires(error_fn, (r,)),
    ensures
        has_error == crate::checker::spec_has_failure(
            spec_rules(spec_lines(content@), *manifest, flags),
        ),
{
    let chars = chars_vec(content);
    let lines = split_lines(&chars);
    let mut checker = Checker::new();
    add_rules(&mut checker, &lines, manifest, flags);
    proof {
        assert(checker@ =~= spec_rules(spec_lines(content@), *manifest, flags));
    }
    checker.run(error_fn)
}

} // verus!
