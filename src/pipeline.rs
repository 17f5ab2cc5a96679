use vstd::prelude::*;

use crate::binder::{bind_error, bound, require, ImplBlock, MethodSpec};
use crate::error::GenError;
use crate::registry::{registry_error, registry_of, registry_view, states, Registry};
use crate::specializer::{specialized, struct_error, type_state, StructDecl, StructSpec};

verus! {

/// Everything generated for one type-state struct: the state vocabulary, the struct
/// declaration, and one implementation block per annotated method.
#[derive(Clone, Debug, PartialEq, Eq)]
pub struct Artifact {
    pub registry: Registry,
    pub decl: StructDecl,
    pub impls: Vec<ImplBlock>,
}

/// The refusal that the first refused method of `ms` meets, if any.
pub open spec fn methods_error(
    struct_name: Seq<char>,
    n: nat,
    states: Seq<Seq<char>>,
    ms: Seq<MethodSpec>,
) -> Option<GenError>
    decreases ms.len(),
{
    if ms.len() == 0 {
        None
    } else {
        match bind_error(struct_name, n, states, ms[0]) {
            Some(e) => Some(e),
            None => methods_error(struct_name, n, states, ms.drop_first()),
        }
    }
}

/// The refusal that a whole declaration meets, if any: the state set is checked first,
/// then the struct, then the methods in order.
pub open spec fn generate_error(names: Seq<Seq<char>>, s: StructSpec, ms: Seq<MethodSpec>) -> Option<
    GenError,
> {
    if registry_error(names) is Some {
        registry_error(names)
    } else if struct_error(s.slots as nat, s.default_state@, names) is Some {
        struct_error(s.slots as nat, s.default_state@, names)
    } else {
        methods_error(s.name@, s.slots as nat, names, ms)
    }
}

/// `a` is what a declaration generates.
pub open spec fn generated(a: Artifact, names: Seq<Seq<char>>, s: StructSpec, ms: Seq<MethodSpec>) -> bool {
    &&& registry_view(a.registry) == registry_of(names)
    &&& specialized(a.decl, s)
    &&& a.impls.len() == ms.len()
    &&& forall|i: int| 0 <= i < ms.len() ==> #[trigger] bound(a.impls[i], s.name@, s.generics@, ms[i])
}

/// Runs the whole generation for one struct: the registry of its states, its type-state
/// declaration, and the implementation block of each annotated method.
pub fn generate(names: &Vec<String>, spec: &StructSpec, methods: &Vec<MethodSpec>) -> (r: Result<
    Artifact,
    GenError,
>)
    ensures
        match generate_error(names.deep_view(), *spec, methods@) {
            Some(e) => r == Err::<Artifact, GenError>(e),
            None => r is Ok && generated(r->Ok_0, names.deep_view(), *spec, methods@),
        },
{
    let registry = match states(names) {
        Ok(reg) => reg,
        Err(e) => {
            return Err(e);
        },
    };
    let decl = match type_state(spec, names) {
        Ok(d) => d,
        Err(e) => {
            return Err(e);
        },
    };
    let ghost ms = methods@;
    let ghost sn = spec.name@;
    let ghost n = spec.slots as nat;
    let ghost dv = names.deep_view();
    let mut impls: Vec<ImplBlock> = Vec::new();
    let mut i: usize = 0;
    assert(ms.skip(0) =~= ms);
    while i < methods.len()
        invariant
            i <= methods.len(),
            ms == methods@,
            sn == spec.name@,
            n == spec.slots as nat,
            dv == names.deep_view(),
            registry_error(dv) is None,
            struct_error(n, spec.default_state@, dv) is None,
            methods_error(sn, n, dv, ms) == methods_error(sn, n, dv, ms.skip(i as int)),
            impls.len() == i,
            forall|k: int| 0 <= k < i ==> #[trigger] bound(impls[k], sn, spec.generics@, ms[k]),
        decreases methods.len() - i,
    {
        assert(ms.skip(i as int)[0] == ms[i as int]);
        assert(ms.skip(i as int).drop_first() =~= ms.skip(i + 1));
        match require(&spec.name, &spec.generics, spec.slots, names, &methods[i]) {
            Ok(b) => {
                impls.push(b);
            },
            Err(e) => {
                return Err(e);
            },
        }
        i += 1;
    }
    Ok(Artifact { registry, decl, impls })
}

} // verus!
