//! The properties the generator is held to, each stated over the spec-level
//! pipeline and proved once and for all.

use vstd::prelude::*;

use crate::ast::{DiagnosticKindView, DiagnosticView, TraitDeclView, OptionArgView};
use crate::expand::{spec_expand, spec_type_param};
use crate::names::{lemma_implementor_name_injective, lemma_seal_module_name_injective,
    lemma_sealed_bound_injective, spec_implementor_name, spec_marker_param_name,
    spec_seal_module_name, spec_sealed_bound};
use crate::options::{lemma_parse_options_prefix, spec_parse_options};
use crate::render::spec_render_expansion;
use crate::span::{lemma_merge_ok_same_source, lemma_merge_same_source_ok, spec_merge};
use crate::validate::spec_validate;

verus! {

/// An auto-trait is always rejected as such, whatever its supertraits or
/// body hold, and the diagnostic points at the `auto` marker.
pub proof fn lemma_rejects_auto_trait(d: TraitDeclView)
    requires
        d.auto_span is Some,
    ensures
        spec_validate(d) == Err::<(), DiagnosticView>(
            DiagnosticView {
                kind: DiagnosticKindView::AutoTraitNotAllowed,
                span: d.auto_span->0,
            },
        ),
{
}

/// A declaration without supertraits is always rejected for that, even
/// with an empty body, and the diagnostic covers the whole declaration.
pub proof fn lemma_rejects_missing_supertrait(d: TraitDeclView)
    requires
        d.auto_span is None,
        d.supertraits.len() == 0,
    ensures
        spec_validate(d) == Err::<(), DiagnosticView>(
            DiagnosticView { kind: DiagnosticKindView::MissingSupertrait, span: d.span },
        ),
{
}

/// A declaration whose body holds at least one associated item is rejected
/// for its non-empty body whenever the items lie in one source context, and
/// the diagnostic covers their merged span.
pub proof fn lemma_rejects_non_empty_body(d: TraitDeclView)
    requires
        d.auto_span is None,
        d.supertraits.len() > 0,
        d.items.len() > 0,
        forall|i: int| 0 <= i < d.items.len() ==> (#[trigger] d.items[i]).source
            == d.items[0].source,
    ensures
        spec_validate(d) == Err::<(), DiagnosticView>(
            DiagnosticView {
                kind: DiagnosticKindView::NonEmptyBody,
                span: spec_merge(d.items)->Ok_0,
            },
        ),
{
    lemma_merge_same_source_ok(d.items);
}

/// The two rejections for a non-empty body are exhaustive and exclusive:
/// items from one source context are always a [`DiagnosticKindView::NonEmptyBody`]
/// complaint, items from several are always the internal merge failure.
pub proof fn lemma_body_rejection_dichotomy(d: TraitDeclView)
    requires
        d.auto_span is None,
        d.supertraits.len() > 0,
        d.items.len() > 0,
    ensures
        (forall|i: int| 0 <= i < d.items.len() ==> (#[trigger] d.items[i]).source
            == d.items[0].source) ==> (spec_validate(d) matches Err(e)
            && e.kind is NonEmptyBody),
        !(forall|i: int| 0 <= i < d.items.len() ==> (#[trigger] d.items[i]).source
            == d.items[0].source) ==> (spec_validate(d) matches Err(e)
            && e.kind is InternalSpanMergeFailure),
{
    if forall|i: int| 0 <= i < d.items.len() ==> (#[trigger] d.items[i]).source
        == d.items[0].source {
        lemma_merge_same_source_ok(d.items);
    } else if spec_merge(d.items) is Ok {
        lemma_merge_ok_same_source(d.items);
    }
}

/// Without sealing, the declaration is passed through unchanged, no module
/// is generated, and the blanket implementation's parameter list is the
/// declaration's own list with one appended parameter: the fixed reserved
/// name, bounded by exactly the declaration's supertrait bounds.
pub proof fn lemma_blanket_unsealed(d: TraitDeclView)
    requires
        spec_validate(d) is Ok,
    ensures
        spec_expand(d, false).decl == d,
        spec_expand(d, false).seal_module is None,
        spec_expand(d, false).blanket.is_unsafe == d.is_unsafe,
        spec_expand(d, false).blanket.trait_name == d.name,
        spec_expand(d, false).blanket.where_predicates == d.where_predicates,
        spec_expand(d, false).blanket.params == d.generics.push(
            spec_type_param(spec_marker_param_name(), d.supertraits),
        ),
{
}

/// With sealing, the final implementation's synthesized parameter is
/// bounded by the original bounds plus the hidden-trait bound; the hidden
/// implementation's parameter, and the hidden trait itself, are bounded by
/// exactly the original bounds — the hidden trait never requires itself;
/// and the re-emitted declaration carries the hidden-trait bound.
pub proof fn lemma_sealing(d: TraitDeclView)
    requires
        spec_validate(d) is Ok,
    ensures
        spec_expand(d, true).seal_module == Some(
            crate::ast::SealModuleView {
                name: spec_seal_module_name(d.name),
                marker_name: d.name,
                params: d.generics.push(
                    spec_type_param(spec_implementor_name(d.name), d.supertraits),
                ),
                bounds: d.supertraits,
                where_predicates: d.where_predicates,
            },
        ),
        spec_expand(d, true).decl.supertraits == d.supertraits.push(spec_sealed_bound(d.name)),
        spec_expand(d, true).blanket.params == d.generics.push(
            spec_type_param(
                spec_marker_param_name(),
                d.supertraits.push(spec_sealed_bound(d.name)),
            ),
        ),
{
}

/// Distinct trait names never receive colliding generated identifiers: the
/// sealing module's name, the hidden implementation's parameter name and
/// the hidden-trait bound all differ whenever the trait names differ.
pub proof fn lemma_distinct_names(n1: Seq<char>, n2: Seq<char>)
    requires
        n1 != n2,
    ensures
        spec_seal_module_name(n1) != spec_seal_module_name(n2),
        spec_implementor_name(n1) != spec_implementor_name(n2),
        spec_sealed_bound(n1) != spec_sealed_bound(n2),
{
    if spec_seal_module_name(n1) == spec_seal_module_name(n2) {
        lemma_seal_module_name_injective(n1, n2);
    }
    if spec_implementor_name(n1) == spec_implementor_name(n2) {
        lemma_implementor_name_injective(n1, n2);
    }
    if spec_sealed_bound(n1) == spec_sealed_bound(n2) {
        lemma_sealed_bound_injective(n1, n2);
    }
}

/// The output text is a function of the declaration's syntactic content
/// alone: two declarations equal in everything but their recorded source
/// locations expand to the same text.
pub proof fn lemma_output_ignores_spans(d1: TraitDeclView, d2: TraitDeclView, sealed: bool)
    requires
        d1.is_unsafe == d2.is_unsafe,
        d1.name == d2.name,
        d1.generics == d2.generics,
        d1.supertraits == d2.supertraits,
        d1.where_predicates == d2.where_predicates,
    ensures
        spec_render_expansion(spec_expand(d1, sealed)) == spec_render_expansion(
            spec_expand(d2, sealed),
        ),
{
}

/// The first key other than `sealed` in the argument list is always
/// rejected as unrecognized, whatever stands before or after it.
pub proof fn lemma_rejects_unrecognized_option(args: Seq<OptionArgView>, i: int)
    requires
        0 <= i < args.len(),
        args[i].key != "sealed"@,
        forall|j: int| 0 <= j < i ==> (#[trigger] args[j]).key == "sealed"@,
    ensures
        spec_parse_options(args) == Err::<crate::ast::Options, DiagnosticView>(
            DiagnosticView {
                kind: DiagnosticKindView::UnrecognizedOption { key: args[i].key },
                span: args[i].span,
            },
        ),
{
    assert(args.skip(i)[0] == args[i]);
    lemma_parse_options_prefix(args, i);
}

} // verus!
