//! End-to-end runs of the generator over concrete declarations.

use marker_trait::ast::{GenericParam, OptionArg, Options, TraitDecl};
use marker_trait::marker_trait;
use marker_trait::span::Span;
use marker_trait::validate::MarkerTrait;

fn sp(n: u32) -> Span {
    Span {
        source: 0,
        lo: n,
        hi: n + 1,
    }
}

fn plain_decl(name: &str, supertraits: &[&str]) -> TraitDecl {
    TraitDecl {
        span: sp(0),
        auto_span: None,
        is_unsafe: false,
        name: name.to_string(),
        generics: Vec::new(),
        supertraits: supertraits.iter().map(|s| s.to_string()).collect(),
        where_predicates: Vec::new(),
        items: Vec::new(),
    }
}

fn sealed_args() -> Vec<OptionArg> {
    vec![OptionArg {
        key: "sealed".to_string(),
        span: sp(9),
    }]
}

#[test]
fn unsealed_async_task() {
    let decl = plain_decl("AsyncTask", &["Send", "'static"]);
    let out = marker_trait(&Vec::new(), decl).unwrap();
    assert_eq!(
        out,
        "trait AsyncTask: Send + 'static {}\n\
         #[automatically_derived]\n\
         #[allow(clippy::all)]\n\
         impl<__MarkerTrait__: Send + 'static> AsyncTask for __MarkerTrait__ {}"
    );
}

#[test]
fn sealed_async_task() {
    let decl = plain_decl("AsyncTask", &["Send", "'static"]);
    let out = marker_trait(&sealed_args(), decl).unwrap();
    assert_eq!(
        out,
        "trait AsyncTask: Send + 'static + __SealModuleForAsyncTask__::Sealed {}\n\
         #[automatically_derived]\n\
         mod __SealModuleForAsyncTask__ {\n\
         \x20   use super::*;\n\
         \x20   impl<__AsyncTaskImplementor__: Send + 'static> Sealed for __AsyncTaskImplementor__ {}\n\
         \x20   #[doc = \"Seals the [`AsyncTask`] trait to be implementable only within its module\"]\n\
         \x20   pub trait Sealed: Send + 'static {}\n\
         }\n\
         #[automatically_derived]\n\
         #[allow(clippy::all)]\n\
         impl<__MarkerTrait__: Send + 'static + __SealModuleForAsyncTask__::Sealed> AsyncTask for __MarkerTrait__ {}"
    );
}

#[test]
fn generic_parameters_are_threaded() {
    let mut decl = plain_decl("Sub", &["Super<Self, B, C = C>", "Sized"]);
    decl.generics = vec![
        GenericParam::Type {
            name: "B".to_string(),
            bounds: Vec::new(),
            default: None,
        },
        GenericParam::Type {
            name: "C".to_string(),
            bounds: Vec::new(),
            default: None,
        },
    ];
    let out = marker_trait(&Vec::new(), decl).unwrap();
    assert_eq!(
        out,
        "trait Sub<B, C>: Super<Self, B, C = C> + Sized {}\n\
         #[automatically_derived]\n\
         #[allow(clippy::all)]\n\
         impl<B, C, __MarkerTrait__: Super<Self, B, C = C> + Sized> Sub<B, C> for __MarkerTrait__ {}"
    );
}

#[test]
fn unsafe_trait_gets_unsafe_impl() {
    let mut decl = plain_decl("Plain", &["Copy"]);
    decl.is_unsafe = true;
    let out = marker_trait(&Vec::new(), decl).unwrap();
    assert_eq!(
        out,
        "unsafe trait Plain: Copy {}\n\
         #[automatically_derived]\n\
         #[allow(clippy::all)]\n\
         unsafe impl<__MarkerTrait__: Copy> Plain for __MarkerTrait__ {}"
    );
}

#[test]
fn lifetime_and_const_parameters_are_threaded() {
    let mut decl = plain_decl("Buffered", &["AsRef<[u8; N]>"]);
    decl.generics = vec![
        GenericParam::Lifetime {
            name: "'a".to_string(),
            bounds: vec!["'static".to_string()],
        },
        GenericParam::Const {
            name: "N".to_string(),
            ty: "usize".to_string(),
            default: None,
        },
    ];
    let out = marker_trait(&Vec::new(), decl).unwrap();
    assert_eq!(
        out,
        "trait Buffered<'a: 'static, const N: usize>: AsRef<[u8; N]> {}\n\
         #[automatically_derived]\n\
         #[allow(clippy::all)]\n\
         impl<'a: 'static, const N: usize, __MarkerTrait__: AsRef<[u8; N]>> Buffered<'a, N> for __MarkerTrait__ {}"
    );
}

#[test]
fn defaults_stay_on_declaration_only() {
    let mut decl = plain_decl("Tagged", &["Clone"]);
    decl.generics = vec![GenericParam::Type {
        name: "T".to_string(),
        bounds: vec!["Sized".to_string()],
        default: Some("u8".to_string()),
    }];
    let out = marker_trait(&Vec::new(), decl).unwrap();
    assert_eq!(
        out,
        "trait Tagged<T: Sized = u8>: Clone {}\n\
         #[automatically_derived]\n\
         #[allow(clippy::all)]\n\
         impl<T: Sized, __MarkerTrait__: Clone> Tagged<T> for __MarkerTrait__ {}"
    );
}

#[test]
fn where_predicates_are_carried_over() {
    let mut decl = plain_decl("Bulk", &["IntoIterator"]);
    decl.generics = vec![GenericParam::Type {
        name: "T".to_string(),
        bounds: Vec::new(),
        default: None,
    }];
    decl.where_predicates = vec!["T: Clone".to_string()];
    let out = marker_trait(&Vec::new(), decl).unwrap();
    assert_eq!(
        out,
        "trait Bulk<T>: IntoIterator where T: Clone {}\n\
         #[automatically_derived]\n\
         #[allow(clippy::all)]\n\
         impl<T, __MarkerTrait__: IntoIterator> Bulk<T> for __MarkerTrait__ where T: Clone {}"
    );
}

#[test]
fn sealed_module_carries_where_predicates() {
    let mut decl = plain_decl("Guarded", &["Send"]);
    decl.generics = vec![GenericParam::Type {
        name: "T".to_string(),
        bounds: Vec::new(),
        default: None,
    }];
    decl.where_predicates = vec!["T: Sync".to_string()];
    let out = marker_trait(&sealed_args(), decl).unwrap();
    assert_eq!(
        out,
        "trait Guarded<T>: Send + __SealModuleForGuarded__::Sealed where T: Sync {}\n\
         #[automatically_derived]\n\
         mod __SealModuleForGuarded__ {\n\
         \x20   use super::*;\n\
         \x20   impl<T, __GuardedImplementor__: Send> Sealed for __GuardedImplementor__ where T: Sync {}\n\
         \x20   #[doc = \"Seals the [`Guarded`] trait to be implementable only within its module\"]\n\
         \x20   pub trait Sealed: Send {}\n\
         }\n\
         #[automatically_derived]\n\
         #[allow(clippy::all)]\n\
         impl<T, __MarkerTrait__: Send + __SealModuleForGuarded__::Sealed> Guarded<T> for __MarkerTrait__ where T: Sync {}"
    );
}

#[test]
fn distinct_traits_get_distinct_seal_modules() {
    let first = marker_trait(&sealed_args(), plain_decl("First", &["Send"])).unwrap();
    let second = marker_trait(&sealed_args(), plain_decl("Second", &["Send"])).unwrap();
    assert!(first.contains("mod __SealModuleForFirst__"));
    assert!(second.contains("mod __SealModuleForSecond__"));
    assert!(!second.contains("__SealModuleForFirst__"));
    assert!(!first.contains("__SealModuleForSecond__"));
    assert!(first.contains("__FirstImplementor__"));
    assert!(second.contains("__SecondImplementor__"));
}

#[test]
fn same_shape_differs_only_in_names() {
    let first = marker_trait(&Vec::new(), plain_decl("Alpha", &["Send"])).unwrap();
    let second = marker_trait(&Vec::new(), plain_decl("Beta", &["Send"])).unwrap();
    assert_eq!(first.replace("Alpha", "Beta"), second);
}

#[test]
fn expand_keeps_declaration_without_sealing() {
    let decl = plain_decl("Stable", &["Eq"]);
    let validated = MarkerTrait::new(decl).unwrap();
    let expansion = validated.expand(&Options { sealed: false });
    assert!(expansion.seal_module.is_none());
    assert_eq!(expansion.decl.name, "Stable");
    assert_eq!(expansion.decl.supertraits, vec!["Eq".to_string()]);
    assert_eq!(expansion.blanket.trait_name, "Stable");
    assert_eq!(expansion.blanket.params.len(), 1);
    match &expansion.blanket.params[0] {
        GenericParam::Type {
            name,
            bounds,
            default,
        } => {
            assert_eq!(name, "__MarkerTrait__");
            assert_eq!(bounds, &vec!["Eq".to_string()]);
            assert!(default.is_none());
        }
        other => panic!("synthesized parameter has the wrong shape: {:?}", other),
    }
}

#[test]
fn expand_augments_declaration_when_sealing() {
    let decl = plain_decl("Locked", &["Send", "Sync"]);
    let validated = MarkerTrait::new(decl).unwrap();
    let expansion = validated.expand(&Options { sealed: true });
    assert_eq!(
        expansion.decl.supertraits,
        vec![
            "Send".to_string(),
            "Sync".to_string(),
            "__SealModuleForLocked__::Sealed".to_string()
        ]
    );
    let module = expansion.seal_module.expect("sealing module is generated");
    assert_eq!(module.name, "__SealModuleForLocked__");
    assert_eq!(module.marker_name, "Locked");
    assert_eq!(
        module.bounds,
        vec!["Send".to_string(), "Sync".to_string()]
    );
    match &module.params[module.params.len() - 1] {
        GenericParam::Type { name, bounds, .. } => {
            assert_eq!(name, "__LockedImplementor__");
            assert_eq!(bounds, &vec!["Send".to_string(), "Sync".to_string()]);
        }
        other => panic!("hidden parameter has the wrong shape: {:?}", other),
    }
    match &expansion.blanket.params[expansion.blanket.params.len() - 1] {
        GenericParam::Type { name, bounds, .. } => {
            assert_eq!(name, "__MarkerTrait__");
            assert_eq!(
                bounds,
                &vec![
                    "Send".to_string(),
                    "Sync".to_string(),
                    "__SealModuleForLocked__::Sealed".to_string()
                ]
            );
        }
        other => panic!("synthesized parameter has the wrong shape: {:?}", other),
    }
}
