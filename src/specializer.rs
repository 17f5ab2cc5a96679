use vstd::prelude::*;

use crate::error::GenError;
use crate::ident::{
    append_decimal, contains_name, copy_names, copy_outer, decimal, outer_decls, outer_names, OuterParam,
};
use crate::registry::{capability_name, capability_string};

verus! {

/// A struct to be turned into a type-state struct.
#[derive(Clone, Debug, PartialEq, Eq)]
pub struct StructSpec {
    pub name: String,
    /// The struct's own generic parameters, kept ahead of the slot parameters.
    pub generics: Vec<OuterParam>,
    /// The struct's own field declarations, carried through unchanged.
    pub fields: Vec<String>,
    /// How many independent state dimensions the struct tracks.
    pub slots: usize,
    /// The state that every slot takes when a type names none.
    pub default_state: String,
}

/// `<name>: <bound> = <default>` in a struct's generic parameter list.
#[derive(Clone, Debug, PartialEq, Eq)]
pub struct GenericParam {
    pub name: String,
    pub bound: String,
    pub default: String,
}

/// A type-state struct: one generic parameter per slot, the original fields, and a
/// zero-size field `PhantomData<(..)>` over the slot parameters.
#[derive(Clone, Debug, PartialEq, Eq)]
pub struct StructDecl {
    pub name: String,
    pub generics: Vec<OuterParam>,
    pub params: Vec<GenericParam>,
    pub fields: Vec<String>,
    /// Name of the zero-size tracking field.
    pub tracking_field: String,
    /// The types that the tracking field's tuple holds, one per slot.
    pub tracking: Vec<String>,
}

/// Name of the generic parameter of slot `i`, counted from zero: `State1`, `State2`, ...
pub open spec fn slot_param_name(i: nat) -> Seq<char> {
    "State"@ + decimal(i + 1)
}

/// The generic parameter names of a struct with `n` slots.
pub open spec fn slot_param_names(n: nat) -> Seq<Seq<char>> {
    Seq::new(n, |i: int| slot_param_name(i as nat))
}

/// Name of the hidden tracking field.
pub open spec fn tracking_field_name() -> Seq<char> {
    "_state"@
}

/// The refusal that a struct declaration meets, if any.
pub open spec fn struct_error(slots: nat, default_state: Seq<char>, states: Seq<Seq<char>>) -> Option<
    GenError,
> {
    if slots == 0 {
        Some(GenError::ZeroSlots)
    } else if !states.contains(default_state) {
        Some(GenError::UnknownDefaultState)
    } else {
        None
    }
}

/// `d` is the type-state form of `s`.
pub open spec fn specialized(d: StructDecl, s: StructSpec) -> bool {
    &&& d.name@ == s.name@
    &&& outer_decls(d.generics@) == outer_decls(s.generics@)
    &&& outer_names(d.generics@) == outer_names(s.generics@)
    &&& d.fields.deep_view() == s.fields.deep_view()
    &&& d.tracking_field@ == tracking_field_name()
    &&& d.params.len() == s.slots
    &&& forall|i: int|
        0 <= i < s.slots ==> {
            &&& #[trigger] d.params[i].name@ == slot_param_name(i as nat)
            &&& d.params[i].bound@ == capability_name()
            &&& d.params[i].default@ == s.default_state@
        }
    &&& d.tracking.deep_view() == slot_param_names(s.slots as nat)
}

fn slot_param(i: usize) -> (r: String)
    requires
        i < usize::MAX,
    ensures
        r@ == slot_param_name(i as nat),
{
    proof {
        reveal_strlit("State");
    }
    let mut r = String::from_str("State");
    append_decimal(i + 1, &mut r);
    r
}

/// Turns a struct into its type-state form, over the states of `states`.
pub fn type_state(spec: &StructSpec, states: &Vec<String>) -> (r: Result<StructDecl, GenError>)
    ensures
        match struct_error(spec.slots as nat, spec.default_state@, states.deep_view()) {
            Some(e) => r == Err::<StructDecl, GenError>(e),
            None => r is Ok && specialized(r->Ok_0, *spec),
        },
{
    if spec.slots == 0 {
        return Err(GenError::ZeroSlots);
    }
    if !contains_name(states, &spec.default_state) {
        return Err(GenError::UnknownDefaultState);
    }
    let mut params: Vec<GenericParam> = Vec::new();
    let mut tracking: Vec<String> = Vec::new();
    let mut i: usize = 0;
    while i < spec.slots
        invariant
            i <= spec.slots,
            params.len() == i,
            forall|k: int|
                0 <= k < i ==> {
                    &&& #[trigger] params[k].name@ == slot_param_name(k as nat)
                    &&& params[k].bound@ == capability_name()
                    &&& params[k].default@ == spec.default_state@
                },
            tracking.deep_view() == slot_param_names(i as nat),
        decreases spec.slots - i,
    {
        let p = GenericParam {
            name: slot_param(i),
            bound: capability_string(),
            default: spec.default_state.clone(),
        };
        let ghost prev = tracking.deep_view();
        let t = slot_param(i);
        tracking.push(t);
        assert(tracking.deep_view() =~= prev.push(t@));
        assert(tracking.deep_view() =~= slot_param_names((i + 1) as nat));
        params.push(p);
        i += 1;
    }
    proof {
        reveal_strlit("_state");
    }
    Ok(
        StructDecl {
            name: spec.name.clone(),
            generics: copy_outer(&spec.generics),
            params,
            fields: copy_names(&spec.fields),
            tracking_field: String::from_str("_state"),
            tracking,
        },
    )
}

} // verus!
