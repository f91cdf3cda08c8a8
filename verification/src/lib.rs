//! A marker-trait generator: given the parsed shape of a trait declaration
//! with no body and at least one supertrait, it synthesizes the blanket
//! implementation `impl<G..., X: Bounds> Trait<G...> for X {}`, and, on
//! request, a sealing module that keeps outside code from implementing the
//! trait directly.
//!
//! The pipeline is a pure function from an [`ast::TraitDecl`] (plus the
//! attribute's argument list) to either the complete replacement text or a
//! single [`ast::Diagnostic`]. Parsing host tokens into an
//! [`ast::TraitDecl`] and handing the output text back to the compiler are
//! the host adapter's job, not this crate's.

use vstd::prelude::*;

pub mod ast;
pub mod expand;
pub mod laws;
pub mod names;
pub mod options;
pub mod render;
pub mod span;
pub mod validate;

use crate::ast::{Diagnostic, DiagnosticView, OptionArg, OptionArgView, Options, TraitDecl,
    TraitDeclView};
use crate::expand::spec_expand;
use crate::options::{parse_options, spec_parse_options};
use crate::render::{render_expansion, spec_render_expansion, wf_expansion};
use crate::validate::{spec_validate, MarkerTrait};

verus! {

/// What one invocation of the generator yields: the first error among
/// option parsing (left to right) and the validator's checks (in their
/// fixed order), or else the complete replacement text for the annotated
/// declaration.
pub open spec fn spec_marker_trait(args: Seq<OptionArgView>, d: TraitDeclView) -> Result<
    Seq<char>,
    DiagnosticView,
> {
    match spec_parse_options(args) {
        Err(e) => Err(e),
        Ok(opts) => match spec_validate(d) {
            Err(e) => Err(e),
            Ok(_) => Ok(spec_render_expansion(spec_expand(d, opts.sealed))),
        },
    }
}

impl MarkerTrait {
    /// Expands this validated declaration and serializes the replacement,
    /// as [`spec_render_expansion`] of [`spec_expand`] says.
    pub fn into_tokens(self, opts: &Options) -> (r: String)
        requires
            self.wf(),
        ensures
            r@ == spec_render_expansion(spec_expand(self.decl@, opts.sealed)),
    {
        let ghost d = self.decl@;
        let e = self.expand(opts);
        proof {
            assert(wf_expansion(e@));
        }
        render_expansion(&e)
    }
}

/// Runs the whole generator: parses the attribute's argument list,
/// validates the declaration, and produces the replacement text, as
/// [`spec_marker_trait`] says.
pub fn marker_trait(args: &Vec<OptionArg>, decl: TraitDecl) -> (r: Result<String, Diagnostic>)
    ensures
        spec_marker_trait(args.deep_view(), decl@) is Ok ==> r is Ok && r->Ok_0@
            == spec_marker_trait(args.deep_view(), decl@)->Ok_0,
        spec_marker_trait(args.deep_view(), decl@) is Err ==> r is Err && r->Err_0@
            == spec_marker_trait(args.deep_view(), decl@)->Err_0,
{
    let opts = match parse_options(args) {
        Ok(opts) => opts,
        Err(e) => {
            return Err(e);
        },
    };
    let validated = match MarkerTrait::new(decl) {
        Ok(v) => v,
        Err(e) => {
            return Err(e);
        },
    };
    Ok(validated.into_tokens(&opts))
}

} // verus!
