//! The validator's checks, the option parser, and the span bookkeeping on
//! concrete inputs.

use marker_trait::ast::{Diagnostic, DiagnosticKind, OptionArg, TraitDecl};
use marker_trait::marker_trait;
use marker_trait::span::{merge_spans, Span};
use marker_trait::validate::MarkerTrait;

fn at(source: u32, lo: u32, hi: u32) -> Span {
    Span { source, lo, hi }
}

fn decl_with(name: &str, supertraits: &[&str], items: Vec<Span>) -> TraitDecl {
    TraitDecl {
        span: at(0, 0, 100),
        auto_span: None,
        is_unsafe: false,
        name: name.to_string(),
        generics: Vec::new(),
        supertraits: supertraits.iter().map(|s| s.to_string()).collect(),
        where_predicates: Vec::new(),
        items,
    }
}

#[test]
fn missing_supertrait_is_rejected() {
    let decl = decl_with("Foo", &[], Vec::new());
    let err = MarkerTrait::new(decl).unwrap_err();
    assert!(matches!(err.kind, DiagnosticKind::MissingSupertrait));
    assert_eq!(err.span, at(0, 0, 100));
    assert_eq!(err.kind.message(), "Expected at least one supertrait");
}

#[test]
fn non_empty_body_is_rejected_with_merged_span() {
    let decl = decl_with("Foo", &["Bar"], vec![at(0, 10, 20), at(0, 30, 40)]);
    let err = MarkerTrait::new(decl).unwrap_err();
    assert!(matches!(err.kind, DiagnosticKind::NonEmptyBody));
    assert_eq!(err.span, at(0, 10, 40));
    assert_eq!(err.kind.message(), "Expected empty trait");
}

#[test]
fn auto_trait_is_rejected() {
    let mut decl = decl_with("Foo", &["Bar"], Vec::new());
    decl.auto_span = Some(at(0, 0, 4));
    let err = MarkerTrait::new(decl).unwrap_err();
    assert!(matches!(err.kind, DiagnosticKind::AutoTraitNotAllowed));
    assert_eq!(err.span, at(0, 0, 4));
    assert_eq!(err.kind.message(), "auto trait is not allowed");
}

#[test]
fn auto_trait_check_runs_first() {
    let mut decl = decl_with("Foo", &[], vec![at(0, 10, 20)]);
    decl.auto_span = Some(at(0, 0, 4));
    let err = MarkerTrait::new(decl).unwrap_err();
    assert!(matches!(err.kind, DiagnosticKind::AutoTraitNotAllowed));
}

#[test]
fn supertrait_check_runs_before_body_check() {
    let decl = decl_with("Foo", &[], vec![at(0, 10, 20)]);
    let err = MarkerTrait::new(decl).unwrap_err();
    assert!(matches!(err.kind, DiagnosticKind::MissingSupertrait));
}

#[test]
fn items_from_different_sources_are_an_internal_error() {
    let decl = decl_with("Foo", &["Bar"], vec![at(0, 10, 20), at(1, 5, 9)]);
    let err = MarkerTrait::new(decl).unwrap_err();
    assert!(matches!(err.kind, DiagnosticKind::InternalSpanMergeFailure));
    assert_eq!(err.span, at(1, 5, 9));
    assert_eq!(
        err.kind.message(),
        "Trait item contents' tokens somehow point to different files"
    );
}

#[test]
fn merge_stops_at_first_foreign_span() {
    let spans = vec![at(0, 0, 5), at(2, 1, 2), at(3, 7, 8)];
    assert_eq!(merge_spans(&spans), Err(at(2, 1, 2)));
    let same = vec![at(7, 4, 6), at(7, 1, 2), at(7, 7, 9)];
    assert_eq!(merge_spans(&same), Ok(at(7, 1, 9)));
}

#[test]
fn single_item_body_uses_its_own_span() {
    let decl = decl_with("Foo", &["Bar"], vec![at(0, 42, 57)]);
    let err = MarkerTrait::new(decl).unwrap_err();
    assert!(matches!(err.kind, DiagnosticKind::NonEmptyBody));
    assert_eq!(err.span, at(0, 42, 57));
}

#[test]
fn unrecognized_option_is_rejected() {
    let args = vec![OptionArg {
        key: "seald".to_string(),
        span: at(0, 3, 8),
    }];
    let decl = decl_with("Foo", &["Bar"], Vec::new());
    let err: Diagnostic = marker_trait(&args, decl).unwrap_err();
    match err.kind {
        DiagnosticKind::UnrecognizedOption { key } => {
            assert_eq!(key, "seald");
            assert_eq!(key.len(), 5);
        }
        other => panic!("wrong diagnostic: {:?}", other),
    }
    assert_eq!(err.span, at(0, 3, 8));
}

#[test]
fn unrecognized_option_wins_over_valid_sealed() {
    let args = vec![
        OptionArg {
            key: "sealed".to_string(),
            span: at(0, 1, 2),
        },
        OptionArg {
            key: "frozen".to_string(),
            span: at(0, 3, 4),
        },
    ];
    let decl = decl_with("Foo", &["Bar"], Vec::new());
    let err = marker_trait(&args, decl).unwrap_err();
    match err.kind {
        DiagnosticKind::UnrecognizedOption { key } => assert_eq!(key, "frozen"),
        other => panic!("wrong diagnostic: {:?}", other),
    }
    assert_eq!(err.span, at(0, 3, 4));
}

#[test]
fn unrecognized_option_wins_over_validation() {
    let args = vec![OptionArg {
        key: "frozen".to_string(),
        span: at(0, 3, 4),
    }];
    let decl = decl_with("Foo", &[], Vec::new());
    let err = marker_trait(&args, decl).unwrap_err();
    assert!(matches!(
        err.kind,
        DiagnosticKind::UnrecognizedOption { .. }
    ));
    let message = err.kind.message();
    assert_eq!(message, "Unrecognized option `frozen`");
}

#[test]
fn repeated_sealed_keys_still_seal() {
    let args = vec![
        OptionArg {
            key: "sealed".to_string(),
            span: at(0, 1, 2),
        },
        OptionArg {
            key: "sealed".to_string(),
            span: at(0, 3, 4),
        },
    ];
    let decl = decl_with("Twice", &["Send"], Vec::new());
    let out = marker_trait(&args, decl).unwrap();
    assert!(out.contains("mod __SealModuleForTwice__"));
}

#[test]
fn options_default_is_unsealed() {
    let options: marker_trait::ast::Options = Default::default();
    assert!(!options.sealed);
}

#[test]
fn span_join_covers_both_ranges() {
    assert_eq!(at(4, 10, 12).join(at(4, 2, 5)), Some(at(4, 2, 12)));
    assert_eq!(at(4, 10, 12).join(at(5, 2, 5)), None);
}
