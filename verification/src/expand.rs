//! Synthesis of the generated constructs.
//!
//! From a validated declaration, this builds the replacement's structured
//! shape: the declaration to re-emit (its supertrait list augmented when
//! sealing is active), the sealing module when asked for, and the final
//! blanket implementation. The generic-parameter synthesizer appends one
//! type parameter to an independent copy of the declaration's parameter
//! list; sealing runs it twice, once with the original bound set for the
//! hidden implementation and once with the augmented bound set for the
//! final one.

use vstd::prelude::*;

use crate::ast::{clone_strings, lemma_vec_push_deep_view, BlanketImpl, BlanketImplView, Expansion,
    ExpansionView, GenericParam, GenericParamView, SealModule, SealModuleView, TraitDecl,
    TraitDeclView, clone_params, Options};
use crate::names::{implementor_name, marker_param_name, seal_module_name, sealed_bound,
    spec_implementor_name, spec_marker_param_name, spec_seal_module_name, spec_sealed_bound};
use crate::validate::MarkerTrait;

verus! {

/// A synthesized type parameter: the given name, exactly the given bounds,
/// no default.
pub open spec fn spec_type_param(name: Seq<char>, bounds: Seq<Seq<char>>) -> GenericParamView {
    GenericParamView::Type { name, bounds, default: None }
}

/// The synthesizer's result: the given parameter list with one appended
/// type parameter, named `name` and bounded by exactly `bounds`.
pub open spec fn spec_synthesize_params(
    params: Seq<GenericParamView>,
    bounds: Seq<Seq<char>>,
    name: Seq<char>,
) -> Seq<GenericParamView> {
    params.push(spec_type_param(name, bounds))
}

/// Appends a synthesized type parameter to an independent copy of `params`,
/// as [`spec_synthesize_params`] says; the inputs are left untouched.
pub fn synthesize_params(params: &Vec<GenericParam>, bounds: &Vec<String>, name: String) -> (r: Vec<
    GenericParam,
>)
    ensures
        r.deep_view() == spec_synthesize_params(params.deep_view(), bounds.deep_view(), name@),
{
    let ghost name_view = name@;
    let mut r = clone_params(params);
    let ghost prev = r;
    let p = GenericParam::Type { name, bounds: clone_strings(bounds), default: None };
    proof {
        assert(p.deep_view() == spec_type_param(name_view, bounds.deep_view()));
    }
    r.push(p);
    proof {
        lemma_vec_push_deep_view(prev, r, p);
    }
    r
}

/// The structured replacement for a validated declaration `d`, with or
/// without sealing.
///
/// Without sealing, the declaration is kept as it is and the blanket
/// implementation's synthesized parameter carries the declaration's own
/// supertrait bounds. With sealing, the hidden implementation's parameter
/// carries the original bounds, the declaration's supertrait list gains the
/// hidden-trait bound, and the final implementation's parameter carries the
/// augmented list.
pub open spec fn spec_expand(d: TraitDeclView, sealed: bool) -> ExpansionView {
    if sealed {
        let augmented = d.supertraits.push(spec_sealed_bound(d.name));
        ExpansionView {
            decl: TraitDeclView { supertraits: augmented, ..d },
            seal_module: Some(
                SealModuleView {
                    name: spec_seal_module_name(d.name),
                    marker_name: d.name,
                    params: spec_synthesize_params(
                        d.generics,
                        d.supertraits,
                        spec_implementor_name(d.name),
                    ),
                    bounds: d.supertraits,
                    where_predicates: d.where_predicates,
                },
            ),
            blanket: BlanketImplView {
                is_unsafe: d.is_unsafe,
                params: spec_synthesize_params(d.generics, augmented, spec_marker_param_name()),
                trait_name: d.name,
                where_predicates: d.where_predicates,
            },
        }
    } else {
        ExpansionView {
            decl: d,
            seal_module: None,
            blanket: BlanketImplView {
                is_unsafe: d.is_unsafe,
                params: spec_synthesize_params(
                    d.generics,
                    d.supertraits,
                    spec_marker_param_name(),
                ),
                trait_name: d.name,
                where_predicates: d.where_predicates,
            },
        }
    }
}

impl MarkerTrait {
    /// Builds the structured replacement for this validated declaration, as
    /// [`spec_expand`] says.
    pub fn expand(self, opts: &Options) -> (e: Expansion)
        requires
            self.wf(),
        ensures
            e@ == spec_expand(self.decl@, opts.sealed),
    {
        let ghost d = self.decl@;
        let MarkerTrait { decl } = self;
        let TraitDecl { span, auto_span, is_unsafe, name, generics, supertraits, where_predicates, items } =
            decl;
        if opts.sealed {
            let module_name = seal_module_name(name.as_str());
            let impl_params = synthesize_params(
                &generics,
                &supertraits,
                implementor_name(name.as_str()),
            );
            let mut augmented = clone_strings(&supertraits);
            let ghost aug_prev = augmented;
            let hidden = sealed_bound(name.as_str());
            augmented.push(hidden);
            proof {
                lemma_vec_push_deep_view(aug_prev, augmented, hidden);
            }
            let blanket_params = synthesize_params(&generics, &augmented, marker_param_name());
            let e = Expansion {
                seal_module: Some(
                    SealModule {
                        name: module_name,
                        marker_name: name.clone(),
                        params: impl_params,
                        bounds: supertraits,
                        where_predicates: clone_strings(&where_predicates),
                    },
                ),
                blanket: BlanketImpl {
                    is_unsafe,
                    params: blanket_params,
                    trait_name: name.clone(),
                    where_predicates: clone_strings(&where_predicates),
                },
                decl: TraitDecl {
                    span,
                    auto_span,
                    is_unsafe,
                    name,
                    generics,
                    supertraits: augmented,
                    where_predicates,
                    items,
                },
            };
            proof {
                assert(e@.decl == spec_expand(d, true).decl);
                assert(e@.seal_module == spec_expand(d, true).seal_module);
                assert(e@.blanket == spec_expand(d, true).blanket);
            }
            e
        } else {
            let blanket_params = synthesize_params(&generics, &supertraits, marker_param_name());
            let e = Expansion {
                blanket: BlanketImpl {
                    is_unsafe,
                    params: blanket_params,
                    trait_name: name.clone(),
                    where_predicates: clone_strings(&where_predicates),
                },
                seal_module: None,
                decl: TraitDecl {
                    span,
                    auto_span,
                    is_unsafe,
                    name,
                    generics,
                    supertraits,
                    where_predicates,
                    items,
                },
            };
            proof {
                assert(e@.decl == spec_expand(d, false).decl);
                assert(e@.blanket == spec_expand(d, false).blanket);
            }
            e
        }
    }
}

} // verus!
