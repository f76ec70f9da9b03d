use manifest_verifier::{Manifest, Mark, RunFlags, Span, SpannedString};

fn spanned(value: &str, line: usize, column: usize) -> SpannedString {
    SpannedString {
        value: value.to_string(),
        span: Span { start: Some(Mark { line, column }), end: None },
    }
}

fn on_error_to_void(_: &manifest_verifier::Rule) {}

#[test]
fn test_valid() {
    const MANIFEST: &str = "# See: https://asimov-specs.github.io/module-manifest/\n\
---\n\
name: luma\n\
label: Luma\n\
title: ASIMOV Luma Module\n\
summary: ASIMOV module for importing luma events.\n\
links:\n\
- https://github.com/asimov-modules/asimov-luma-module\n\
- https://crates.io/crates/asimov-luma-module\n\
\n\
provides:\n\
programs:\n\
    - asimov-luma-module\n\
    - asimov-luma-fetcher\n\
\n\
handles:\n\
url_prefixes:\n\
    - https://lu.ma/\n";

    let manifest = Manifest {
        name: Some(spanned("luma", 3, 7)),
        label: Some(spanned("Luma", 4, 8)),
        summary: Some(spanned("ASIMOV module for importing luma events.", 6, 10)),
    };

    let flags = RunFlags { is_template: false, is_proprietary: true };

    let has_error = manifest_verifier::run(MANIFEST, &manifest, on_error_to_void, flags);
    assert_eq!(has_error, false);
}
