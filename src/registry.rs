use vstd::prelude::*;

use crate::error::GenError;
use crate::ident::{copy_names, has_duplicates};

verus! {

/// Name of the closed capability interface that every marker implements.
pub open spec fn capability_name() -> Seq<char> {
    "TypeStateProtector"@
}

/// Name of the unexported supertrait that seals the capability interface.
pub open spec fn sealer_name() -> Seq<char> {
    "Sealed"@
}

/// A trait that the generated code declares.
#[derive(Clone, Debug, PartialEq, Eq)]
pub struct TraitDecl {
    pub name: String,
    /// The trait that an implementor must implement first, if any.
    pub supertrait: Option<String>,
    /// Whether code outside the generated module can name the trait.
    pub exported: bool,
}

/// `impl <trait_name> for <for_type> {}`
#[derive(Clone, Debug, PartialEq, Eq)]
pub struct TraitImpl {
    pub trait_name: String,
    pub for_type: String,
}

/// The vocabulary generated from a state set: markers, the sealed capability
/// interface, and its implementations.
#[derive(Clone, Debug, PartialEq, Eq)]
pub struct Registry {
    pub sealer: TraitDecl,
    pub capability: TraitDecl,
    /// One zero-size marker type per state, in declaration order.
    pub markers: Vec<String>,
    /// Every trait implementation that the registry emits.
    pub impls: Vec<TraitImpl>,
}

/// What a trait declaration says: its name, its supertrait, whether it is exported.
pub open spec fn trait_view(t: TraitDecl) -> (Seq<char>, Option<Seq<char>>, bool) {
    (t.name@, match t.supertrait { Some(s) => Some(s@), None => None }, t.exported)
}

/// The (trait, type) pairs of a list of implementations.
pub open spec fn impls_view(v: Seq<TraitImpl>) -> Seq<(Seq<char>, Seq<char>)> {
    v.map_values(|t: TraitImpl| (t.trait_name@, t.for_type@))
}

/// Everything a registry states, as plain values.
pub open spec fn registry_view(r: Registry) -> (
    (Seq<char>, Option<Seq<char>>, bool),
    (Seq<char>, Option<Seq<char>>, bool),
    Seq<Seq<char>>,
    Seq<(Seq<char>, Seq<char>)>,
) {
    (trait_view(r.sealer), trait_view(r.capability), r.markers.deep_view(), impls_view(r.impls@))
}

/// The implementations of `tr` for each state, in order.
pub open spec fn impls_for(tr: Seq<char>, states: Seq<Seq<char>>) -> Seq<(Seq<char>, Seq<char>)> {
    states.map_values(|s: Seq<char>| (tr, s))
}

/// The registry that a valid state set yields: the sealer first implemented by every
/// marker, then the capability interface.
pub open spec fn registry_of(states: Seq<Seq<char>>) -> (
    (Seq<char>, Option<Seq<char>>, bool),
    (Seq<char>, Option<Seq<char>>, bool),
    Seq<Seq<char>>,
    Seq<(Seq<char>, Seq<char>)>,
) {
    (
        (sealer_name(), None, false),
        (capability_name(), Some(sealer_name()), true),
        states,
        impls_for(sealer_name(), states) + impls_for(capability_name(), states),
    )
}

/// The refusal that a state set meets, if any.
pub open spec fn registry_error(states: Seq<Seq<char>>) -> Option<GenError> {
    if states.len() == 0 {
        Some(GenError::EmptyStateSet)
    } else if !states.no_duplicates() {
        Some(GenError::DuplicateState)
    } else {
        None
    }
}

pub(crate) fn capability_string() -> (r: String)
    ensures
        r@ == capability_name(),
{
    proof {
        reveal_strlit("TypeStateProtector");
    }
    String::from_str("TypeStateProtector")
}

fn sealer_string() -> (r: String)
    ensures
        r@ == sealer_name(),
{
    proof {
        reveal_strlit("Sealed");
    }
    String::from_str("Sealed")
}

fn push_impls(tr: &String, states: &Vec<String>, out: &mut Vec<TraitImpl>)
    ensures
        impls_view(final(out)@) == impls_view(old(out)@) + impls_for(tr@, states.deep_view()),
{
    let ghost start = impls_view(out@);
    let ghost dv = states.deep_view();
    let mut i: usize = 0;
    while i < states.len()
        invariant
            i <= states.len(),
            dv == states.deep_view(),
            impls_view(out@) == start + impls_for(tr@, dv.take(i as int)),
        decreases states.len() - i,
    {
        let ghost prev = out@;
        let item = TraitImpl { trait_name: tr.clone(), for_type: states[i].clone() };
        assert((item.trait_name@, item.for_type@) == (tr@, dv[i as int]));
        out.push(item);
        assert(impls_view(out@) =~= impls_view(prev).push((tr@, dv[i as int])));
        assert(impls_for(tr@, dv.take(i + 1)) =~= impls_for(tr@, dv.take(i as int)).push(
            (tr@, dv[i as int]),
        ));
        assert(impls_view(out@) =~= start + impls_for(tr@, dv.take(i + 1)));
        i += 1;
    }
    assert(dv.take(i as int) =~= dv);
}

/// Builds the marker types, the sealed capability interface and its implementations
/// for a state set.
pub fn states(names: &Vec<String>) -> (r: Result<Registry, GenError>)
    ensures
        match registry_error(names.deep_view()) {
            Some(e) => r == Err::<Registry, GenError>(e),
            None => r is Ok && registry_view(r->Ok_0) == registry_of(names.deep_view()),
        },
{
    if names.len() == 0 {
        return Err(GenError::EmptyStateSet);
    }
    if has_duplicates(names) {
        return Err(GenError::DuplicateState);
    }
    let sealer = sealer_string();
    let capability = capability_string();
    let mut impls: Vec<TraitImpl> = Vec::new();
    assert(impls_view(impls@) =~= Seq::empty());
    push_impls(&sealer, names, &mut impls);
    push_impls(&capability, names, &mut impls);
    assert(impls_view(impls@) =~= impls_for(sealer_name(), names.deep_view()) + impls_for(
        capability_name(),
        names.deep_view(),
    ));
    let markers = copy_names(names);
    let r = Registry {
        sealer: TraitDecl { name: sealer, supertrait: None, exported: false },
        capability: TraitDecl { name: capability, supertrait: Some(sealer_string()), exported: true },
        markers,
        impls,
    };
    Ok(r)
}

/// A pair is among the implementations of `tr` for `states` exactly when it names `tr`
/// and a state of the set.
pub proof fn lemma_impls_for_contains(tr: Seq<char>, states: Seq<Seq<char>>, p: (Seq<char>, Seq<char>))
    ensures
        impls_for(tr, states).contains(p) <==> (p.0 == tr && states.contains(p.1)),
{
    let v = impls_for(tr, states);
    if v.contains(p) {
        let k = choose|k: int| 0 <= k < v.len() && v[k] == p;
        assert(states[k] == p.1);
    }
    if p.0 == tr && states.contains(p.1) {
        let k = choose|k: int| 0 <= k < states.len() && states[k] == p.1;
        assert(v[k] == p);
    }
}

/// Building the same state set twice yields the same registry; and two state sets with
/// the same members yield the same markers and the same implementations, whatever the
/// order in which they were declared.
pub proof fn lemma_registry_idempotent(
    s1: Seq<Seq<char>>,
    s2: Seq<Seq<char>>,
    r1: Registry,
    r2: Registry,
)
    requires
        registry_view(r1) == registry_of(s1),
        registry_view(r2) == registry_of(s2),
    ensures
        s1 == s2 ==> registry_view(r1) == registry_view(r2),
        s1.to_set() == s2.to_set() ==> {
            &&& r1.markers.deep_view().to_set() == r2.markers.deep_view().to_set()
            &&& impls_view(r1.impls@).to_set() == impls_view(r2.impls@).to_set()
            &&& trait_view(r1.sealer) == trait_view(r2.sealer)
            &&& trait_view(r1.capability) == trait_view(r2.capability)
        },
{
    if s1.to_set() == s2.to_set() {
        let a = impls_view(r1.impls@);
        let b = impls_view(r2.impls@);
        assert forall|p: (Seq<char>, Seq<char>)| a.contains(p) <==> b.contains(p) by {
            lemma_impls_for_contains(sealer_name(), s1, p);
            lemma_impls_for_contains(capability_name(), s1, p);
            lemma_impls_for_contains(sealer_name(), s2, p);
            lemma_impls_for_contains(capability_name(), s2, p);
            assert(s1.contains(p.1) == s1.to_set().contains(p.1));
            assert(s2.contains(p.1) == s2.to_set().contains(p.1));
            vstd::seq_lib::lemma_seq_concat_contains_all_elements(
                impls_for(sealer_name(), s1), impls_for(capability_name(), s1), p);
            vstd::seq_lib::lemma_seq_concat_contains_all_elements(
                impls_for(sealer_name(), s2), impls_for(capability_name(), s2), p);
        }
        assert(a.to_set() =~= b.to_set());
    }
}

/// Sealing: the only implementations that a registry emits, of the capability interface
/// or of its sealer, are for the markers of its own state set; the capability interface
/// requires the sealer, and the sealer is not exported, so no type from outside can
/// implement the capability interface. Every marker does implement it.
pub proof fn lemma_sealing_closure(s: Seq<Seq<char>>, r: Registry, tr: Seq<char>, ty: Seq<char>)
    requires
        registry_view(r) == registry_of(s),
    ensures
        impls_view(r.impls@).contains((tr, ty)) ==> s.contains(ty) && (tr == sealer_name()
            || tr == capability_name()),
        r.capability.supertrait is Some && r.capability.supertrait->Some_0@ == r.sealer.name@,
        !r.sealer.exported,
        s.contains(ty) ==> impls_view(r.impls@).contains((capability_name(), ty))
            && impls_view(r.impls@).contains((sealer_name(), ty)),
{
    let p = (tr, ty);
    lemma_impls_for_contains(sealer_name(), s, p);
    lemma_impls_for_contains(capability_name(), s, p);
    lemma_impls_for_contains(sealer_name(), s, (sealer_name(), ty));
    lemma_impls_for_contains(capability_name(), s, (capability_name(), ty));
    vstd::seq_lib::lemma_seq_concat_contains_all_elements(
        impls_for(sealer_name(), s), impls_for(capability_name(), s), p);
    vstd::seq_lib::lemma_seq_concat_contains_all_elements(
        impls_for(sealer_name(), s), impls_for(capability_name(), s), (sealer_name(), ty));
    vstd::seq_lib::lemma_seq_concat_contains_all_elements(
        impls_for(sealer_name(), s), impls_for(capability_name(), s), (capability_name(), ty));
}

} // verus!
