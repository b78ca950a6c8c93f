use cairo_lint::context::{
    get_all_fix_messages, get_fix_message_for_diagnostic_message, get_lint_type_from_diagnostic_message,
    get_name_for_diagnostic_message, get_unique_allowed_names, is_lint_enabled_by_default, CairoLintKind, Lint,
    LintRule,
};
use cairo_lint::is_panic_diagnostic;
use cairo_lint::lints::manual::manual_assert::ManualAssert;
use cairo_lint::lints::panic::PanicInCode;
use cairo_lint::plugin::{
    filter_diagnostics, item_check_mode, should_report, validate_cairo_lint_metadata, CairoLint, CairoLintAllow,
    CairoLintToolMetadata, GeneratedItemOrigin, ItemCheck, LintDiagnostic,
};

#[test]
fn lint_metadata_of_manual_assert() {
    assert_eq!(ManualAssert.allowed_name(), "manual_assert");
    assert_eq!(ManualAssert.diagnostic_message(), "Manual assert detected. Consider using assert!() macro instead.");
    assert_eq!(ManualAssert.kind(), CairoLintKind::ManualAssert);
    assert!(ManualAssert.has_fixer());
    assert_eq!(ManualAssert.fix_message(), Some("Replace manual assert with `assert!` macro"));
    assert!(ManualAssert.is_enabled());
}

#[test]
fn panic_lint_is_off_by_default() {
    assert!(!PanicInCode.is_enabled());
    assert!(!PanicInCode.has_fixer());
    assert_eq!(PanicInCode.fix_message(), None);
}

#[test]
fn lookup_by_diagnostic_message() {
    let m = ManualAssert.diagnostic_message();
    assert_eq!(get_name_for_diagnostic_message(m), Some("manual_assert"));
    assert_eq!(is_lint_enabled_by_default(m), Some(true));
    assert_eq!(get_lint_type_from_diagnostic_message(m), CairoLintKind::ManualAssert);
    assert_eq!(get_fix_message_for_diagnostic_message(m), Some("Replace manual assert with `assert!` macro"));
    assert_eq!(get_name_for_diagnostic_message("not a lint message"), None);
    assert_eq!(get_lint_type_from_diagnostic_message("not a lint message"), CairoLintKind::Unknown);
}

#[test]
fn every_lint_finds_itself_by_message() {
    for rule in cairo_lint::context::all_lint_rules() {
        assert_eq!(get_name_for_diagnostic_message(rule.diagnostic_message()), Some(rule.allowed_name()));
    }
}

#[test]
fn allowed_names_are_unique() {
    let names = get_unique_allowed_names();
    for i in 0..names.len() {
        for j in 0..i {
            assert_ne!(names[i], names[j]);
        }
    }
    assert!(names.contains(&"manual_assert"));
    assert_eq!(get_all_fix_messages().len(), cairo_lint::context::all_lint_rules().len());
}

#[test]
fn panic_diagnostic_recognised() {
    assert!(is_panic_diagnostic(PanicInCode.diagnostic_message()));
    assert!(!is_panic_diagnostic(ManualAssert.diagnostic_message()));
    assert_eq!(LintRule::PanicInCode.lint_kind(), CairoLintKind::Panic);
}

#[test]
fn configuration_insert_and_get() {
    let mut m = CairoLintToolMetadata::new();
    assert_eq!(m.get("panic"), None);
    m.insert("panic", true);
    m.insert("manual_assert", false);
    m.insert("panic", false);
    assert_eq!(m.get("panic"), Some(false));
    assert_eq!(m.get("manual_assert"), Some(false));
    assert_eq!(m.len(), 2);
}

#[test]
fn validate_accepts_known_and_rejects_unknown() {
    let mut m = CairoLintToolMetadata::new();
    m.insert("manual_assert", true);
    assert!(validate_cairo_lint_metadata(&m).is_ok());
    m.insert("no_such_lint", true);
    let err = validate_cairo_lint_metadata(&m).unwrap_err();
    assert_eq!(err.name, "no_such_lint");
    assert_eq!(
        err.message(),
        "The lint 'no_such_lint' specified in `Scarb.toml` is not supported by the Cairo lint."
    );
}

fn diag(id: usize, message: &str, allows: &[&str]) -> LintDiagnostic {
    LintDiagnostic {
        id,
        message: message.to_string(),
        allowed_in_scope: allows.iter().map(|s| s.to_string()).collect(),
    }
}

#[test]
fn reporting_follows_allows_and_configuration() {
    let mut m = CairoLintToolMetadata::new();
    let assert_msg = ManualAssert.diagnostic_message();
    let panic_msg = PanicInCode.diagnostic_message();
    assert!(should_report(&m, &diag(0, assert_msg, &[])));
    assert!(!should_report(&m, &diag(1, assert_msg, &["manual_assert"])));
    assert!(!should_report(&m, &diag(2, panic_msg, &[])));
    m.insert("panic", true);
    assert!(should_report(&m, &diag(3, panic_msg, &[])));
    m.insert("manual_assert", false);
    let kept = filter_diagnostics(&m, vec![diag(4, assert_msg, &[]), diag(5, panic_msg, &[]), diag(6, panic_msg, &["panic"])]);
    assert_eq!(kept.len(), 1);
    assert_eq!(kept[0].id, 5);
}

#[test]
fn plugin_settings() {
    let m = CairoLintToolMetadata::new();
    let lint = CairoLint::new(true, m);
    assert!(lint.include_compiler_generated_files());
    assert_eq!(lint.tool_metadata().len(), 0);
    assert!(lint.declared_allows().contains(&"manual_assert".to_string()));
    assert!(CairoLintAllow.diagnostics().is_empty());
}

#[test]
fn item_check_modes() {
    let origin = GeneratedItemOrigin { origin_found: true, resultants: Some(1), origin_contains_item: true };
    assert_eq!(item_check_mode(false, false, origin), ItemCheck::Check);
    assert_eq!(item_check_mode(true, false, origin), ItemCheck::CheckAtOrigin);
    assert_eq!(item_check_mode(true, true, origin), ItemCheck::Check);
    let two = GeneratedItemOrigin { origin_found: true, resultants: Some(2), origin_contains_item: true };
    assert_eq!(item_check_mode(true, false, two), ItemCheck::Skip);
}

#[test]
fn default_linter_skips_generated_code() {
    let d = CairoLint::default();
    assert!(!d.include_compiler_generated_files());
    assert_eq!(d.tool_metadata().len(), 0);
    let n = CairoLint::new(true, CairoLintToolMetadata::new());
    assert!(n.include_compiler_generated_files());
    assert_eq!(CairoLintToolMetadata::default().len(), 0);
}
