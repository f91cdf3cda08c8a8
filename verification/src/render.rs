//! Serialization of the structured replacement back to source text.
//!
//! Every rendering function is pinned to a spec-level counterpart that
//! states the exact character sequence produced, so the pipeline's output
//! is determined down to the last space: parameters joined by `, `, bounds
//! by ` + `, generated items prefixed with the marker attribute for
//! mechanically derived code.

use vstd::prelude::*;
use vstd::string::StringExecFns;

use crate::ast::{BlanketImplView, BlanketImpl, Expansion, ExpansionView, GenericParam,
    GenericParamView, SealModule, SealModuleView, TraitDecl, TraitDeclView};

verus! {

/// The pieces laid end to end with `sep` between neighbours.
pub open spec fn spec_join_text(parts: Seq<Seq<char>>, sep: Seq<char>) -> Seq<char>
    decreases parts.len(),
{
    if parts.len() == 0 {
        Seq::empty()
    } else if parts.len() == 1 {
        parts[0]
    } else {
        spec_join_text(parts.drop_last(), sep) + sep + parts.last()
    }
}

/// Joins the pieces with `sep`, as [`spec_join_text`] says.
pub fn join_text(parts: &Vec<String>, sep: &str) -> (r: String)
    ensures
        r@ == spec_join_text(parts.deep_view(), sep@),
{
    let mut r = String::new();
    let mut i: usize = 0;
    while i < parts.len()
        invariant
            0 <= i <= parts@.len(),
            r@ == spec_join_text(parts.deep_view().take(i as int), sep@),
        decreases parts@.len() - i,
    {
        if i > 0 {
            r.append(sep);
        }
        r.append(parts[i].as_str());
        proof {
            let ghost pv = parts.deep_view();
            assert(pv.take(i as int + 1).drop_last() =~= pv.take(i as int));
            assert(pv.take(i as int + 1).last() == pv[i as int]);
            if i == 0 {
                assert(r@ =~= pv.take(1).last());
            } else {
                assert(r@ =~= spec_join_text(pv.take(i as int), sep@) + sep@ + pv[i as int]);
            }
        }
        i = i + 1;
    }
    proof {
        assert(parts.deep_view().take(parts.deep_view().len() as int) =~= parts.deep_view());
    }
    r
}

/// `: B1 + B2 + ...` when there are bounds, nothing when there are none.
pub open spec fn spec_bounds_suffix(bounds: Seq<Seq<char>>) -> Seq<char> {
    if bounds.len() == 0 {
        Seq::empty()
    } else {
        ": "@ + spec_join_text(bounds, " + "@)
    }
}

/// Renders the bound-list suffix, as [`spec_bounds_suffix`] says.
pub fn bounds_suffix(bounds: &Vec<String>) -> (r: String)
    ensures
        r@ == spec_bounds_suffix(bounds.deep_view()),
{
    if bounds.len() == 0 {
        String::new()
    } else {
        let mut r = ": ".to_owned();
        let joined = join_text(bounds, " + ");
        r.append(joined.as_str());
        r
    }
}

/// ` = d` when a default is present, nothing otherwise.
pub open spec fn spec_default_suffix(default: Option<Seq<char>>) -> Seq<char> {
    match default {
        Some(d) => " = "@ + d,
        None => Seq::empty(),
    }
}

/// Renders the default suffix, as [`spec_default_suffix`] says.
pub fn default_suffix(default: &Option<String>) -> (r: String)
    ensures
        r@ == spec_default_suffix(default.deep_view()),
{
    match default {
        Some(d) => {
            let mut r = " = ".to_owned();
            r.append(d.as_str());
            r
        },
        None => String::new(),
    }
}

/// One parameter as it stands in the trait's own parameter list: bounds and
/// default included.
pub open spec fn spec_render_param_decl(p: GenericParamView) -> Seq<char> {
    match p {
        GenericParamView::Lifetime { name, bounds } => name + spec_bounds_suffix(bounds),
        GenericParamView::Type { name, bounds, default } => name + spec_bounds_suffix(bounds)
            + spec_default_suffix(default),
        GenericParamView::Const { name, ty, default } => "const "@ + name + ": "@ + ty
            + spec_default_suffix(default),
    }
}

/// One parameter as it stands in an implementation's parameter list: bounds
/// kept, defaults stripped.
pub open spec fn spec_render_param_impl(p: GenericParamView) -> Seq<char> {
    match p {
        GenericParamView::Lifetime { name, bounds } => name + spec_bounds_suffix(bounds),
        GenericParamView::Type { name, bounds, default: _ } => name + spec_bounds_suffix(bounds),
        GenericParamView::Const { name, ty, default: _ } => "const "@ + name + ": "@ + ty,
    }
}

/// The parameter's bare name, as it stands at a use site.
pub open spec fn spec_param_name(p: GenericParamView) -> Seq<char> {
    match p {
        GenericParamView::Lifetime { name, bounds: _ } => name,
        GenericParamView::Type { name, bounds: _, default: _ } => name,
        GenericParamView::Const { name, ty: _, default: _ } => name,
    }
}

/// Renders one parameter for a declaration list, as
/// [`spec_render_param_decl`] says.
pub fn render_param_decl(p: &GenericParam) -> (r: String)
    ensures
        r@ == spec_render_param_decl(p@),
{
    match p {
        GenericParam::Lifetime { name, bounds } => {
            let mut r = name.clone();
            let suffix = bounds_suffix(bounds);
            r.append(suffix.as_str());
            r
        },
        GenericParam::Type { name, bounds, default } => {
            let mut r = name.clone();
            let suffix = bounds_suffix(bounds);
            r.append(suffix.as_str());
            let dsuffix = default_suffix(default);
            r.append(dsuffix.as_str());
            r
        },
        GenericParam::Const { name, ty, default } => {
            let mut r = "const ".to_owned();
            r.append(name.as_str());
            r.append(": ");
            r.append(ty.as_str());
            let dsuffix = default_suffix(default);
            r.append(dsuffix.as_str());
            r
        },
    }
}

/// Renders one parameter for an implementation list, as
/// [`spec_render_param_impl`] says.
pub fn render_param_impl(p: &GenericParam) -> (r: String)
    ensures
        r@ == spec_render_param_impl(p@),
{
    match p {
        GenericParam::Lifetime { name, bounds } => {
            let mut r = name.clone();
            let suffix = bounds_suffix(bounds);
            r.append(suffix.as_str());
            r
        },
        GenericParam::Type { name, bounds, default: _ } => {
            let mut r = name.clone();
            let suffix = bounds_suffix(bounds);
            r.append(suffix.as_str());
            r
        },
        GenericParam::Const { name, ty, default: _ } => {
            let mut r = "const ".to_owned();
            r.append(name.as_str());
            r.append(": ");
            r.append(ty.as_str());
            r
        },
    }
}

/// Renders the bare name of one parameter, as [`spec_param_name`] says.
pub fn render_param_name(p: &GenericParam) -> (r: String)
    ensures
        r@ == spec_param_name(p@),
{
    match p {
        GenericParam::Lifetime { name, bounds: _ } => name.clone(),
        GenericParam::Type { name, bounds: _, default: _ } => name.clone(),
        GenericParam::Const { name, ty: _, default: _ } => name.clone(),
    }
}

/// `<p1, p2, ...>` over the given per-parameter rendering; nothing when the
/// list is empty.
pub open spec fn spec_angle_list(parts: Seq<Seq<char>>) -> Seq<char> {
    if parts.len() == 0 {
        Seq::empty()
    } else {
        "<"@ + spec_join_text(parts, ", "@) + ">"@
    }
}

/// The trait's parameter list as declared: `<...>` with bounds and
/// defaults, or nothing.
pub open spec fn spec_render_params_decl(params: Seq<GenericParamView>) -> Seq<char> {
    spec_angle_list(params.map_values(|p: GenericParamView| spec_render_param_decl(p)))
}

/// An implementation's parameter list: `<...>` with bounds only, or
/// nothing.
pub open spec fn spec_render_params_impl(params: Seq<GenericParamView>) -> Seq<char> {
    spec_angle_list(params.map_values(|p: GenericParamView| spec_render_param_impl(p)))
}

/// A use site's argument list: `<...>` of bare names, or nothing.
pub open spec fn spec_render_ty_args(params: Seq<GenericParamView>) -> Seq<char> {
    spec_angle_list(params.map_values(|p: GenericParamView| spec_param_name(p)))
}

/// Renders an angle-bracketed list from already rendered pieces, as
/// [`spec_angle_list`] says.
fn angle_list(parts: &Vec<String>) -> (r: String)
    ensures
        r@ == spec_angle_list(parts.deep_view()),
{
    if parts.len() == 0 {
        String::new()
    } else {
        let mut r = "<".to_owned();
        let joined = join_text(parts, ", ");
        r.append(joined.as_str());
        r.append(">");
        r
    }
}

/// Renders a declaration's parameter list, as [`spec_render_params_decl`]
/// says.
pub fn render_params_decl(params: &Vec<GenericParam>) -> (r: String)
    ensures
        r@ == spec_render_params_decl(params.deep_view()),
{
    let mut rendered: Vec<String> = Vec::new();
    let mut i: usize = 0;
    while i < params.len()
        invariant
            0 <= i <= params@.len(),
            rendered@.len() == i,
            rendered.deep_view() == params.deep_view().take(i as int).map_values(
                |p: GenericParamView| spec_render_param_decl(p),
            ),
        decreases params@.len() - i,
    {
        let ghost prev = rendered;
        let piece = render_param_decl(&params[i]);
        rendered.push(piece);
        proof {
            crate::ast::lemma_vec_push_deep_view(prev, rendered, piece);
            assert(rendered.deep_view() =~= params.deep_view().take(i as int + 1).map_values(
                |p: GenericParamView| spec_render_param_decl(p),
            ));
        }
        i = i + 1;
    }
    proof {
        assert(params.deep_view().take(params.deep_view().len() as int) =~= params.deep_view());
    }
    angle_list(&rendered)
}

/// Renders an implementation's parameter list, as
/// [`spec_render_params_impl`] says.
pub fn render_params_impl(params: &Vec<GenericParam>) -> (r: String)
    ensures
        r@ == spec_render_params_impl(params.deep_view()),
{
    let mut rendered: Vec<String> = Vec::new();
    let mut i: usize = 0;
    while i < params.len()
        invariant
            0 <= i <= params@.len(),
            rendered@.len() == i,
            rendered.deep_view() == params.deep_view().take(i as int).map_values(
                |p: GenericParamView| spec_render_param_impl(p),
            ),
        decreases params@.len() - i,
    {
        let ghost prev = rendered;
        let piece = render_param_impl(&params[i]);
        rendered.push(piece);
        proof {
            crate::ast::lemma_vec_push_deep_view(prev, rendered, piece);
            assert(rendered.deep_view() =~= params.deep_view().take(i as int + 1).map_values(
                |p: GenericParamView| spec_render_param_impl(p),
            ));
        }
        i = i + 1;
    }
    proof {
        assert(params.deep_view().take(params.deep_view().len() as int) =~= params.deep_view());
    }
    angle_list(&rendered)
}

/// Renders a use site's argument list, as [`spec_render_ty_args`] says.
pub fn render_ty_args(params: &Vec<GenericParam>) -> (r: String)
    ensures
        r@ == spec_render_ty_args(params.deep_view()),
{
    let mut rendered: Vec<String> = Vec::new();
    let mut i: usize = 0;
    while i < params.len()
        invariant
            0 <= i <= params@.len(),
            rendered@.len() == i,
            rendered.deep_view() == params.deep_view().take(i as int).map_values(
                |p: GenericParamView| spec_param_name(p),
            ),
        decreases params@.len() - i,
    {
        let ghost prev = rendered;
        let piece = render_param_name(&params[i]);
        rendered.push(piece);
        proof {
            crate::ast::lemma_vec_push_deep_view(prev, rendered, piece);
            assert(rendered.deep_view() =~= params.deep_view().take(i as int + 1).map_values(
                |p: GenericParamView| spec_param_name(p),
            ));
        }
        i = i + 1;
    }
    proof {
        assert(params.deep_view().take(params.deep_view().len() as int) =~= params.deep_view());
    }
    angle_list(&rendered)
}

/// ` where p1, p2` when there are predicates, nothing when there are none.
pub open spec fn spec_where_suffix(preds: Seq<Seq<char>>) -> Seq<char> {
    if preds.len() == 0 {
        Seq::empty()
    } else {
        " where "@ + spec_join_text(preds, ", "@)
    }
}

/// Renders the `where`-clause suffix, as [`spec_where_suffix`] says.
pub fn where_suffix(preds: &Vec<String>) -> (r: String)
    ensures
        r@ == spec_where_suffix(preds.deep_view()),
{
    if preds.len() == 0 {
        String::new()
    } else {
        let mut r = " where ".to_owned();
        let joined = join_text(preds, ", ");
        r.append(joined.as_str());
        r
    }
}

/// The trait declaration as one line: markers, name, parameter list as
/// declared, supertrait bounds, `where` clause, empty body.
pub open spec fn spec_render_decl(d: TraitDeclView) -> Seq<char> {
    (if d.is_unsafe {
        "unsafe "@
    } else {
        Seq::<char>::empty()
    }) + "trait "@ + d.name + spec_render_params_decl(d.generics) + spec_bounds_suffix(
        d.supertraits,
    ) + spec_where_suffix(d.where_predicates) + " {}"@
}

/// Renders the trait declaration, as [`spec_render_decl`] says.
pub fn render_decl(d: &TraitDecl) -> (r: String)
    ensures
        r@ == spec_render_decl(d@),
{
    let mut r = String::new();
    if d.is_unsafe {
        r.append("unsafe ");
    }
    r.append("trait ");
    r.append(d.name.as_str());
    let params = render_params_decl(&d.generics);
    r.append(params.as_str());
    let bounds = bounds_suffix(&d.supertraits);
    r.append(bounds.as_str());
    let wheres = where_suffix(&d.where_predicates);
    r.append(wheres.as_str());
    r.append(" {}");
    proof {
        assert(r@ =~= spec_render_decl(d@));
    }
    r
}

/// The final blanket implementation: the markers for mechanically derived
/// code and for lint suppression, then
/// `impl<G..., X: Bounds> Trait<G...> for X {}` with the synthesized
/// parameter standing last in the list.
pub open spec fn spec_render_blanket(b: BlanketImplView) -> Seq<char>
    recommends
        b.params.len() > 0,
{
    "#[automatically_derived]\n#[allow(clippy::all)]\n"@ + (if b.is_unsafe {
        "unsafe "@
    } else {
        Seq::<char>::empty()
    }) + "impl"@ + spec_render_params_impl(b.params) + " "@ + b.trait_name + spec_render_ty_args(
        b.params.drop_last(),
    ) + " for "@ + spec_param_name(b.params.last()) + spec_where_suffix(b.where_predicates)
        + " {}"@
}

/// Renders the final blanket implementation, as [`spec_render_blanket`]
/// says.
pub fn render_blanket(b: &BlanketImpl) -> (r: String)
    requires
        b.params@.len() > 0,
    ensures
        r@ == spec_render_blanket(b@),
{
    let mut r = "#[automatically_derived]\n#[allow(clippy::all)]\n".to_owned();
    if b.is_unsafe {
        r.append("unsafe ");
    }
    r.append("impl");
    let params = render_params_impl(&b.params);
    r.append(params.as_str());
    r.append(" ");
    r.append(b.trait_name.as_str());
    let mut orig = crate::ast::clone_params(&b.params);
    orig.pop();
    proof {
        assert(orig.deep_view() =~= b.params.deep_view().drop_last());
    }
    let ty_args = render_ty_args(&orig);
    r.append(ty_args.as_str());
    r.append(" for ");
    let self_name = render_param_name(&b.params[b.params.len() - 1]);
    r.append(self_name.as_str());
    let wheres = where_suffix(&b.where_predicates);
    r.append(wheres.as_str());
    r.append(" {}");
    proof {
        assert(r@ =~= spec_render_blanket(b@));
    }
    r
}

/// The sealing module: the marker for mechanically derived code, then a
/// module holding an import of the enclosing scope, the hidden blanket
/// implementation, and the hidden trait's documented declaration.
pub open spec fn spec_render_seal_module(m: SealModuleView) -> Seq<char>
    recommends
        m.params.len() > 0,
{
    "#[automatically_derived]\nmod "@ + m.name + " {\n    use super::*;\n    impl"@
        + spec_render_params_impl(m.params) + " Sealed for "@ + spec_param_name(m.params.last())
        + spec_where_suffix(m.where_predicates) + " {}\n    #[doc = \"Seals the [`"@
        + m.marker_name + "`] trait to be implementable only within its module\"]\n    pub trait Sealed"@
        + spec_bounds_suffix(m.bounds) + " {}\n}"@
}

/// Renders the sealing module, as [`spec_render_seal_module`] says.
pub fn render_seal_module(m: &SealModule) -> (r: String)
    requires
        m.params@.len() > 0,
    ensures
        r@ == spec_render_seal_module(m@),
{
    let mut r = "#[automatically_derived]\nmod ".to_owned();
    r.append(m.name.as_str());
    r.append(" {\n    use super::*;\n    impl");
    let params = render_params_impl(&m.params);
    r.append(params.as_str());
    r.append(" Sealed for ");
    let self_name = render_param_name(&m.params[m.params.len() - 1]);
    r.append(self_name.as_str());
    let wheres = where_suffix(&m.where_predicates);
    r.append(wheres.as_str());
    r.append(" {}\n    #[doc = \"Seals the [`");
    r.append(m.marker_name.as_str());
    r.append("`] trait to be implementable only within its module\"]\n    pub trait Sealed");
    let bounds = bounds_suffix(&m.bounds);
    r.append(bounds.as_str());
    r.append(" {}\n}");
    proof {
        assert(r@ =~= spec_render_seal_module(m@));
    }
    r
}

/// The shape every assembled replacement has: a synthesized parameter
/// stands last in the final implementation's list, and in the hidden one's
/// when sealing is active.
pub open spec fn wf_expansion(e: ExpansionView) -> bool {
    &&& e.blanket.params.len() > 0
    &&& match e.seal_module {
        Some(m) => m.params.len() > 0,
        None => true,
    }
}

/// The complete replacement text: the declaration, the sealing module when
/// present, and the final blanket implementation, one under the other.
pub open spec fn spec_render_expansion(e: ExpansionView) -> Seq<char>
    recommends
        wf_expansion(e),
{
    spec_render_decl(e.decl) + "\n"@ + (match e.seal_module {
        Some(m) => spec_render_seal_module(m) + "\n"@,
        None => Seq::<char>::empty(),
    }) + spec_render_blanket(e.blanket)
}

/// Renders the complete replacement, as [`spec_render_expansion`] says.
pub fn render_expansion(e: &Expansion) -> (r: String)
    requires
        wf_expansion(e@),
    ensures
        r@ == spec_render_expansion(e@),
{
    let mut r = render_decl(&e.decl);
    r.append("\n");
    match &e.seal_module {
        Some(m) => {
            let module = render_seal_module(m);
            r.append(module.as_str());
            r.append("\n");
        },
        None => {},
    }
    let blanket = render_blanket(&e.blanket);
    r.append(blanket.as_str());
    proof {
        assert(r@ =~= spec_render_expansion(e@));
    }
    r
}

} // verus!
