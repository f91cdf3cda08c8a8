//! The synthesized identifiers.
//!
//! The final blanket implementation's parameter has one fixed reserved name:
//! it is scoped to the generated implementation block, whose body is always
//! empty, so it can collide with nothing. The sealing module, and the
//! parameter of the hidden implementation inside it, are named after the
//! marker trait, so that two distinct traits in one scope never receive the
//! same generated name.

use vstd::prelude::*;
use vstd::string::StringExecFns;

verus! {

/// The fixed reserved name of the final blanket implementation's parameter.
pub open spec fn spec_marker_param_name() -> Seq<char> {
    "__MarkerTrait__"@
}

/// Builds the fixed reserved parameter name.
pub fn marker_param_name() -> (r: String)
    ensures
        r@ == spec_marker_param_name(),
{
    "__MarkerTrait__".to_owned()
}

/// The hidden trait's name inside the sealing module.
pub open spec fn spec_sealed_trait_name() -> Seq<char> {
    "Sealed"@
}

/// Builds the hidden trait's name.
pub fn sealed_trait_name() -> (r: String)
    ensures
        r@ == spec_sealed_trait_name(),
{
    "Sealed".to_owned()
}

/// The sealing module's name, derived from the marker trait's name.
pub open spec fn spec_seal_module_name(name: Seq<char>) -> Seq<char> {
    "__SealModuleFor"@ + name + "__"@
}

/// Builds the sealing module's name for the trait called `name`.
pub fn seal_module_name(name: &str) -> (r: String)
    ensures
        r@ == spec_seal_module_name(name@),
{
    let mut r = "__SealModuleFor".to_owned();
    r.append(name);
    r.append("__");
    r
}

/// The name of the hidden implementation's synthesized parameter, derived
/// from the marker trait's name.
pub open spec fn spec_implementor_name(name: Seq<char>) -> Seq<char> {
    "__"@ + name + "Implementor__"@
}

/// Builds the hidden implementation's parameter name for the trait called
/// `name`.
pub fn implementor_name(name: &str) -> (r: String)
    ensures
        r@ == spec_implementor_name(name@),
{
    let mut r = "__".to_owned();
    r.append(name);
    r.append("Implementor__");
    r
}

/// The supertrait bound through which the trait reaches the hidden trait:
/// the sealing module's name followed by `::Sealed`.
pub open spec fn spec_sealed_bound(name: Seq<char>) -> Seq<char> {
    spec_seal_module_name(name) + "::"@ + spec_sealed_trait_name()
}

/// Builds the hidden-trait bound for the trait called `name`.
pub fn sealed_bound(name: &str) -> (r: String)
    ensures
        r@ == spec_sealed_bound(name@),
{
    let mut r = seal_module_name(name);
    r.append("::");
    r.append("Sealed");
    r
}

/// A run of characters between two fixed affixes is recoverable: equal
/// results come only from equal runs.
proof fn lemma_affix_injective(a: Seq<char>, b: Seq<char>, n1: Seq<char>, n2: Seq<char>)
    requires
        a + n1 + b == a + n2 + b,
    ensures
        n1 == n2,
{
    assert(n1.len() == n2.len()) by {
        assert((a + n1 + b).len() == a.len() + n1.len() + b.len());
        assert((a + n2 + b).len() == a.len() + n2.len() + b.len());
    }
    assert forall|j: int| 0 <= j < n1.len() implies n1[j] == n2[j] by {
        assert((a + n1 + b)[a.len() + j] == n1[j]);
        assert((a + n2 + b)[a.len() + j] == n2[j]);
    }
    assert(n1 =~= n2);
}

/// The sealing module's name determines the trait's name.
pub proof fn lemma_seal_module_name_injective(n1: Seq<char>, n2: Seq<char>)
    requires
        spec_seal_module_name(n1) == spec_seal_module_name(n2),
    ensures
        n1 == n2,
{
    lemma_affix_injective("__SealModuleFor"@, "__"@, n1, n2);
}

/// The hidden implementation's parameter name determines the trait's name.
pub proof fn lemma_implementor_name_injective(n1: Seq<char>, n2: Seq<char>)
    requires
        spec_implementor_name(n1) == spec_implementor_name(n2),
    ensures
        n1 == n2,
{
    lemma_affix_injective("__"@, "Implementor__"@, n1, n2);
}

/// The hidden-trait bound determines the trait's name.
pub proof fn lemma_sealed_bound_injective(n1: Seq<char>, n2: Seq<char>)
    requires
        spec_sealed_bound(n1) == spec_sealed_bound(n2),
    ensures
        n1 == n2,
{
    assert(spec_seal_module_name(n1) + "::"@ + spec_sealed_trait_name() =~= "__SealModuleFor"@ + n1
        + ("__"@ + "::"@ + "Sealed"@));
    assert(spec_seal_module_name(n2) + "::"@ + spec_sealed_trait_name() =~= "__SealModuleFor"@ + n2
        + ("__"@ + "::"@ + "Sealed"@));
    lemma_affix_injective("__SealModuleFor"@, "__"@ + "::"@ + "Sealed"@, n1, n2);
}

/// The hidden implementation's parameter name never collides with the fixed
/// reserved parameter name, whatever the trait is called.
pub proof fn lemma_implementor_name_avoids_reserved(n: Seq<char>)
    ensures
        spec_implementor_name(n) != spec_marker_param_name(),
{
    reveal_strlit("__MarkerTrait__");
    reveal_strlit("__");
    reveal_strlit("Implementor__");
    if n.len() == 0 {
        assert(spec_implementor_name(n).len() == 15);
        assert(spec_implementor_name(n)[2] == 'I');
        assert(spec_marker_param_name()[2] == 'M');
    } else {
        assert(spec_implementor_name(n).len() == 15 + n.len());
        assert(spec_marker_param_name().len() == 15);
    }
}

} // verus!
