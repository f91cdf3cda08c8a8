//! Validation of the annotated trait declaration.
//!
//! Three structural checks run in a fixed order, and the first failure is
//! the invocation's one diagnostic: the trait must not be an auto-trait, it
//! must have at least one supertrait bound, and its body must be empty. For
//! a non-empty body the diagnostic covers all the items at once; should
//! their spans not merge into one, that is reported as an internal error
//! rather than silently mislocated.

use vstd::prelude::*;

use crate::ast::{Diagnostic, DiagnosticKind, DiagnosticKindView, DiagnosticView, TraitDecl,
    TraitDeclView};
use crate::span::{merge_spans, spec_merge};

verus! {

/// The validator's verdict on a declaration's shape: the first failing
/// check, or nothing.
pub open spec fn spec_validate(d: TraitDeclView) -> Result<(), DiagnosticView> {
    if d.auto_span is Some {
        Err(
            DiagnosticView {
                kind: DiagnosticKindView::AutoTraitNotAllowed,
                span: d.auto_span->0,
            },
        )
    } else if d.supertraits.len() == 0 {
        Err(DiagnosticView { kind: DiagnosticKindView::MissingSupertrait, span: d.span })
    } else if d.items.len() > 0 {
        match spec_merge(d.items) {
            Ok(sp) => Err(DiagnosticView { kind: DiagnosticKindView::NonEmptyBody, span: sp }),
            Err(sp) => Err(
                DiagnosticView { kind: DiagnosticKindView::InternalSpanMergeFailure, span: sp },
            ),
        }
    } else {
        Ok(())
    }
}

/// A trait declaration the validator has accepted: not an auto-trait, at
/// least one supertrait, an empty body.
#[derive(Debug)]
pub struct MarkerTrait {
    /// The accepted declaration.
    pub decl: TraitDecl,
}

impl MarkerTrait {
    /// The shape every [`MarkerTrait`] has: its declaration passes the
    /// validator.
    pub open spec fn wf(self) -> bool {
        spec_validate(self.decl@) is Ok
    }

    /// Runs the validator on `decl`, as [`spec_validate`] says: the
    /// declaration is accepted exactly when no check fails, and the first
    /// failing check is the diagnostic.
    pub fn new(decl: TraitDecl) -> (r: Result<MarkerTrait, Diagnostic>)
        ensures
            spec_validate(decl@) is Ok ==> r is Ok && r->Ok_0.decl@ == decl@ && r->Ok_0.wf(),
            spec_validate(decl@) is Err ==> r is Err && r->Err_0@ == spec_validate(decl@)->Err_0,
    {
        if let Some(sp) = decl.auto_span {
            return Err(Diagnostic { kind: DiagnosticKind::AutoTraitNotAllowed, span: sp });
        }
        if decl.supertraits.len() == 0 {
            return Err(Diagnostic { kind: DiagnosticKind::MissingSupertrait, span: decl.span });
        }
        if decl.items.len() > 0 {
            return match merge_spans(&decl.items) {
                Ok(sp) => Err(Diagnostic { kind: DiagnosticKind::NonEmptyBody, span: sp }),
                Err(sp) => Err(
                    Diagnostic { kind: DiagnosticKind::InternalSpanMergeFailure, span: sp },
                ),
            };
        }
        Ok(MarkerTrait { decl })
    }
}

} // verus!
