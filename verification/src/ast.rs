//! The structured shape of the annotated trait declaration, the options the
//! attribute takes, the diagnostics the pipeline can raise, and the shape of
//! the generated output.
//!
//! The host adapter parses source tokens into these types; everything the
//! pipeline itself does is stated over their views ([`GenericParamView`],
//! [`TraitDeclView`] and friends), which hold the same data as mathematical
//! sequences of characters.

use vstd::prelude::*;
use vstd::string::StringExecFns;

use crate::span::Span;

verus! {

/// One generic parameter of the trait declaration, carried as token text:
/// a lifetime name keeps its leading tick (`'a`), a bound or a default is
/// the text of that bound or default expression.
#[derive(Debug)]
pub enum GenericParam {
    /// A lifetime parameter with its (possibly empty) lifetime bounds.
    Lifetime { name: String, bounds: Vec<String> },
    /// A type parameter with its (possibly empty) bounds and optional default.
    Type { name: String, bounds: Vec<String>, default: Option<String> },
    /// A const parameter with its type and optional default.
    Const { name: String, ty: String, default: Option<String> },
}

/// The view of a [`GenericParam`]: the same data over `Seq<char>`.
pub enum GenericParamView {
    /// View of [`GenericParam::Lifetime`].
    Lifetime { name: Seq<char>, bounds: Seq<Seq<char>> },
    /// View of [`GenericParam::Type`].
    Type { name: Seq<char>, bounds: Seq<Seq<char>>, default: Option<Seq<char>> },
    /// View of [`GenericParam::Const`].
    Const { name: Seq<char>, ty: Seq<char>, default: Option<Seq<char>> },
}

impl View for GenericParam {
    type V = GenericParamView;

    open spec fn view(&self) -> GenericParamView {
        match self {
            GenericParam::Lifetime { name, bounds } => GenericParamView::Lifetime {
                name: name@,
                bounds: bounds.deep_view(),
            },
            GenericParam::Type { name, bounds, default } => GenericParamView::Type {
                name: name@,
                bounds: bounds.deep_view(),
                default: default.deep_view(),
            },
            GenericParam::Const { name, ty, default } => GenericParamView::Const {
                name: name@,
                ty: ty@,
                default: default.deep_view(),
            },
        }
    }
}

impl DeepView for GenericParam {
    type V = GenericParamView;

    open spec fn deep_view(&self) -> GenericParamView {
        self.view()
    }
}

impl Clone for GenericParam {
    /// An exact copy: the clone's view equals the original's.
    fn clone(&self) -> (r: Self)
        ensures
            r@ == self@,
    {
        match self {
            GenericParam::Lifetime { name, bounds } => GenericParam::Lifetime {
                name: name.clone(),
                bounds: clone_strings(bounds),
            },
            GenericParam::Type { name, bounds, default } => GenericParam::Type {
                name: name.clone(),
                bounds: clone_strings(bounds),
                default: clone_opt_string(default),
            },
            GenericParam::Const { name, ty, default } => GenericParam::Const {
                name: name.clone(),
                ty: ty.clone(),
                default: clone_opt_string(default),
            },
        }
    }
}

/// An exact copy of a list of token strings.
pub(crate) fn clone_strings(v: &Vec<String>) -> (r: Vec<String>)
    ensures
        r@ == v@,
{
    let r = v.clone();
    proof {
        assert(r@ =~= v@);
    }
    r
}

/// An exact copy of an optional token string.
pub(crate) fn clone_opt_string(v: &Option<String>) -> (r: Option<String>)
    ensures
        r == v,
{
    v.clone()
}

/// An exact copy of a generic-parameter list.
pub(crate) fn clone_params(v: &Vec<GenericParam>) -> (r: Vec<GenericParam>)
    ensures
        r.deep_view() == v.deep_view(),
{
    let mut r: Vec<GenericParam> = Vec::new();
    let mut i: usize = 0;
    while i < v.len()
        invariant
            0 <= i <= v@.len(),
            r@.len() == i,
            r.deep_view() == v.deep_view().take(i as int),
        decreases v@.len() - i,
    {
        let ghost prev = r;
        let p = v[i].clone();
        r.push(p);
        proof {
            lemma_vec_push_deep_view(prev, r, p);
            assert(r.deep_view() =~= v.deep_view().take(i as int + 1));
        }
        i = i + 1;
    }
    proof {
        assert(v.deep_view().take(v.deep_view().len() as int) =~= v.deep_view());
    }
    r
}

/// Pushing onto a vector appends the element's view to the vector's view.
pub(crate) proof fn lemma_vec_push_deep_view<T: DeepView>(prev: Vec<T>, after: Vec<T>, p: T)
    requires
        after@ == prev@.push(p),
    ensures
        after.deep_view() == prev.deep_view().push(p.deep_view()),
{
    assert forall|j: int| 0 <= j < after.deep_view().len() implies after.deep_view()[j]
        == prev.deep_view().push(p.deep_view())[j] by {
        if j < prev@.len() {
            assert(after@[j] == prev@[j]);
        } else {
            assert(after@[j] == p);
        }
    }
    assert(after.deep_view() =~= prev.deep_view().push(p.deep_view()));
}

/// The parsed shape of the annotated trait declaration.
///
/// The fields are exactly what the pipeline reads: the declaration's own
/// span, the span of an `auto` marker if one is present, the `unsafe`
/// marker, the name, the generic parameters, the supertrait bounds (each as
/// token text), the `where` predicates (each as token text), and the spans
/// of the associated items in the body. A valid input has at least one
/// supertrait and no associated items.
#[derive(Debug)]
pub struct TraitDecl {
    /// Span of the whole declaration.
    pub span: Span,
    /// Span of the `auto` marker; present exactly when the trait is declared
    /// as an auto-trait.
    pub auto_span: Option<Span>,
    /// Whether the trait is declared `unsafe`.
    pub is_unsafe: bool,
    /// The trait's name.
    pub name: String,
    /// The trait's generic parameters, in declaration order.
    pub generics: Vec<GenericParam>,
    /// The supertrait bounds, in declaration order, each as token text.
    pub supertraits: Vec<String>,
    /// The `where`-clause predicates, each as token text.
    pub where_predicates: Vec<String>,
    /// The spans of the associated items in the trait's body.
    pub items: Vec<Span>,
}

/// The view of a [`TraitDecl`].
pub struct TraitDeclView {
    /// View of [`TraitDecl::span`].
    pub span: Span,
    /// View of [`TraitDecl::auto_span`].
    pub auto_span: Option<Span>,
    /// View of [`TraitDecl::is_unsafe`].
    pub is_unsafe: bool,
    /// View of [`TraitDecl::name`].
    pub name: Seq<char>,
    /// View of [`TraitDecl::generics`].
    pub generics: Seq<GenericParamView>,
    /// View of [`TraitDecl::supertraits`].
    pub supertraits: Seq<Seq<char>>,
    /// View of [`TraitDecl::where_predicates`].
    pub where_predicates: Seq<Seq<char>>,
    /// View of [`TraitDecl::items`].
    pub items: Seq<Span>,
}

impl View for TraitDecl {
    type V = TraitDeclView;

    open spec fn view(&self) -> TraitDeclView {
        TraitDeclView {
            span: self.span,
            auto_span: self.auto_span,
            is_unsafe: self.is_unsafe,
            name: self.name@,
            generics: self.generics.deep_view(),
            supertraits: self.supertraits.deep_view(),
            where_predicates: self.where_predicates.deep_view(),
            items: self.items@,
        }
    }
}

/// One `key` taken from the attribute's argument list, with its span.
#[derive(Debug)]
pub struct OptionArg {
    /// The argument's key.
    pub key: String,
    /// Where the argument stands in the source.
    pub span: Span,
}

/// The view of an [`OptionArg`].
pub struct OptionArgView {
    /// View of [`OptionArg::key`].
    pub key: Seq<char>,
    /// View of [`OptionArg::span`].
    pub span: Span,
}

impl View for OptionArg {
    type V = OptionArgView;

    open spec fn view(&self) -> OptionArgView {
        OptionArgView { key: self.key@, span: self.span }
    }
}

impl DeepView for OptionArg {
    type V = OptionArgView;

    open spec fn deep_view(&self) -> OptionArgView {
        self.view()
    }
}

/// The attribute's recognized configuration.
#[derive(Clone, Copy, PartialEq, Eq, Structural, Debug)]
pub struct Options {
    /// Whether the sealing module is requested.
    pub sealed: bool,
}

impl Default for Options {
    /// Sealing is off unless asked for.
    fn default() -> (r: Self)
        ensures
            r.sealed == false,
    {
        Options { sealed: false }
    }
}

/// What went wrong with one invocation.
#[derive(Debug)]
pub enum DiagnosticKind {
    /// The trait is declared as an auto-trait.
    AutoTraitNotAllowed,
    /// The trait has no supertrait bound to derive a blanket implementation
    /// from.
    MissingSupertrait,
    /// The trait's body is not empty.
    NonEmptyBody,
    /// The attribute's argument list holds a key other than `sealed`.
    UnrecognizedOption {
        /// The offending key.
        key: String,
    },
    /// The spans of the body's items could not be merged into one; an
    /// internal error rather than a complaint about the input.
    InternalSpanMergeFailure,
}

/// The view of a [`DiagnosticKind`].
pub enum DiagnosticKindView {
    /// View of [`DiagnosticKind::AutoTraitNotAllowed`].
    AutoTraitNotAllowed,
    /// View of [`DiagnosticKind::MissingSupertrait`].
    MissingSupertrait,
    /// View of [`DiagnosticKind::NonEmptyBody`].
    NonEmptyBody,
    /// View of [`DiagnosticKind::UnrecognizedOption`].
    UnrecognizedOption { key: Seq<char> },
    /// View of [`DiagnosticKind::InternalSpanMergeFailure`].
    InternalSpanMergeFailure,
}

impl View for DiagnosticKind {
    type V = DiagnosticKindView;

    open spec fn view(&self) -> DiagnosticKindView {
        match self {
            DiagnosticKind::AutoTraitNotAllowed => DiagnosticKindView::AutoTraitNotAllowed,
            DiagnosticKind::MissingSupertrait => DiagnosticKindView::MissingSupertrait,
            DiagnosticKind::NonEmptyBody => DiagnosticKindView::NonEmptyBody,
            DiagnosticKind::UnrecognizedOption { key } => DiagnosticKindView::UnrecognizedOption {
                key: key@,
            },
            DiagnosticKind::InternalSpanMergeFailure => DiagnosticKindView::InternalSpanMergeFailure,
        }
    }
}

/// The human-readable message belonging to each kind of diagnostic.
pub open spec fn spec_message(k: DiagnosticKindView) -> Seq<char> {
    match k {
        DiagnosticKindView::AutoTraitNotAllowed => "auto trait is not allowed"@,
        DiagnosticKindView::MissingSupertrait => "Expected at least one supertrait"@,
        DiagnosticKindView::NonEmptyBody => "Expected empty trait"@,
        DiagnosticKindView::UnrecognizedOption { key } => "Unrecognized option `"@ + key + "`"@,
        DiagnosticKindView::InternalSpanMergeFailure =>
            "Trait item contents' tokens somehow point to different files"@,
    }
}

impl DiagnosticKind {
    /// The message the host surfaces for this kind, as [`spec_message`]
    /// says.
    pub fn message(&self) -> (r: String)
        ensures
            r@ == spec_message(self@),
    {
        match self {
            DiagnosticKind::AutoTraitNotAllowed => "auto trait is not allowed".to_owned(),
            DiagnosticKind::MissingSupertrait => "Expected at least one supertrait".to_owned(),
            DiagnosticKind::NonEmptyBody => "Expected empty trait".to_owned(),
            DiagnosticKind::UnrecognizedOption { key } => {
                let mut r = "Unrecognized option `".to_owned();
                r.append(key.as_str());
                r.append("`");
                r
            },
            DiagnosticKind::InternalSpanMergeFailure =>
                "Trait item contents' tokens somehow point to different files".to_owned(),
        }
    }
}

/// A single terminal diagnostic: what went wrong, and where.
#[derive(Debug)]
pub struct Diagnostic {
    /// What went wrong.
    pub kind: DiagnosticKind,
    /// The most specific span the complaint can be pinned to.
    pub span: Span,
}

/// The view of a [`Diagnostic`].
pub struct DiagnosticView {
    /// View of [`Diagnostic::kind`].
    pub kind: DiagnosticKindView,
    /// View of [`Diagnostic::span`].
    pub span: Span,
}

impl View for Diagnostic {
    type V = DiagnosticView;

    open spec fn view(&self) -> DiagnosticView {
        DiagnosticView { kind: self.kind@, span: self.span }
    }
}

/// The sealing module synthesized when sealing is requested: a module named
/// after the marker trait, holding a hidden `Sealed` trait and a blanket
/// implementation of it for everything satisfying the marker trait's
/// original supertrait bounds.
#[derive(Debug)]
pub struct SealModule {
    /// The module's name, derived from the marker trait's name.
    pub name: String,
    /// The marker trait's name, for the hidden trait's documentation note.
    pub marker_name: String,
    /// The hidden implementation's generic parameters: the marker trait's
    /// own parameters followed by the synthesized implementor parameter,
    /// bounded by the original supertrait bounds.
    pub params: Vec<GenericParam>,
    /// The hidden trait's own supertrait bounds: the marker trait's original
    /// bounds.
    pub bounds: Vec<String>,
    /// The `where`-clause predicates carried over from the marker trait.
    pub where_predicates: Vec<String>,
}

/// The view of a [`SealModule`].
pub struct SealModuleView {
    /// View of [`SealModule::name`].
    pub name: Seq<char>,
    /// View of [`SealModule::marker_name`].
    pub marker_name: Seq<char>,
    /// View of [`SealModule::params`].
    pub params: Seq<GenericParamView>,
    /// View of [`SealModule::bounds`].
    pub bounds: Seq<Seq<char>>,
    /// View of [`SealModule::where_predicates`].
    pub where_predicates: Seq<Seq<char>>,
}

impl View for SealModule {
    type V = SealModuleView;

    open spec fn view(&self) -> SealModuleView {
        SealModuleView {
            name: self.name@,
            marker_name: self.marker_name@,
            params: self.params.deep_view(),
            bounds: self.bounds.deep_view(),
            where_predicates: self.where_predicates.deep_view(),
        }
    }
}

/// The final blanket implementation: `impl<G..., X: Bounds> Trait<G...> for
/// X {}` for the fixed reserved parameter name `X`.
#[derive(Debug)]
pub struct BlanketImpl {
    /// Whether the implementation is `unsafe`, mirroring the trait.
    pub is_unsafe: bool,
    /// The implementation's generic parameters: the trait's own parameters
    /// followed by the synthesized parameter, bounded by the trait's full
    /// (possibly sealing-augmented) supertrait bounds.
    pub params: Vec<GenericParam>,
    /// The implemented trait's name.
    pub trait_name: String,
    /// The `where`-clause predicates carried over from the trait.
    pub where_predicates: Vec<String>,
}

/// The view of a [`BlanketImpl`].
pub struct BlanketImplView {
    /// View of [`BlanketImpl::is_unsafe`].
    pub is_unsafe: bool,
    /// View of [`BlanketImpl::params`].
    pub params: Seq<GenericParamView>,
    /// View of [`BlanketImpl::trait_name`].
    pub trait_name: Seq<char>,
    /// View of [`BlanketImpl::where_predicates`].
    pub where_predicates: Seq<Seq<char>>,
}

impl View for BlanketImpl {
    type V = BlanketImplView;

    open spec fn view(&self) -> BlanketImplView {
        BlanketImplView {
            is_unsafe: self.is_unsafe,
            params: self.params.deep_view(),
            trait_name: self.trait_name@,
            where_predicates: self.where_predicates.deep_view(),
        }
    }
}

/// The complete replacement for the annotated declaration: the declaration
/// itself (its supertrait list augmented when sealing is active), the
/// sealing module when sealing is active, and the blanket implementation.
#[derive(Debug)]
pub struct Expansion {
    /// The trait declaration to re-emit.
    pub decl: TraitDecl,
    /// The sealing module; present exactly when sealing was requested.
    pub seal_module: Option<SealModule>,
    /// The final blanket implementation.
    pub blanket: BlanketImpl,
}

/// The view of an [`Expansion`].
pub struct ExpansionView {
    /// View of [`Expansion::decl`].
    pub decl: TraitDeclView,
    /// View of [`Expansion::seal_module`].
    pub seal_module: Option<SealModuleView>,
    /// View of [`Expansion::blanket`].
    pub blanket: BlanketImplView,
}

impl View for Expansion {
    type V = ExpansionView;

    open spec fn view(&self) -> ExpansionView {
        ExpansionView {
            decl: self.decl@,
            seal_module: match &self.seal_module {
                Some(m) => Some(m@),
                None => None,
            },
            blanket: self.blanket@,
        }
    }
}

} // verus!
