use vstd::prelude::*;

use crate::error::GenError;
use crate::ident::{
    contains_name, copy_names, copy_outer, is_placeholder, is_placeholder_name, outer_decls,
    outer_names, outer_strings, OuterParam,
};
use crate::registry::{capability_name, capability_string};

verus! {

/// A method of a type-state struct, with its state annotations.
#[derive(Clone, Debug, PartialEq, Eq)]
pub struct MethodSpec {
    pub name: String,
    /// The parameter list, carried through unchanged.
    pub params: String,
    /// The declared return type, if any.
    pub ret: Option<String>,
    /// The body, carried through unchanged.
    pub body: String,
    /// The state required in each slot: a concrete state or a one-letter placeholder.
    pub require: Vec<String>,
    /// The state of each slot after the call, for a method that transitions.
    pub switch_to: Option<Vec<String>>,
}

/// The struct type applied to its outer parameters and one state per slot:
/// `name<context[0], .., args[0], args[1], ..>`.
#[derive(Clone, Debug, PartialEq, Eq)]
pub struct TypeRef {
    pub name: String,
    pub context: Vec<String>,
    pub args: Vec<String>,
}

/// The return type of a bound method.
#[derive(Clone, Debug, PartialEq, Eq)]
pub enum ReturnType {
    /// The method returns `()`.
    Unit,
    /// The declared return type, unchanged.
    Plain(String),
    /// The struct type at the target states.
    Applied(TypeRef),
}

/// A method as it stands in its own implementation block.
#[derive(Clone, Debug, PartialEq, Eq)]
pub struct BoundMethod {
    pub name: String,
    pub params: String,
    pub ret: ReturnType,
    pub body: String,
}

/// `impl<context.., generics[0]: bound, ..> struct_name<context.., self_args[0], ..> { method }`
#[derive(Clone, Debug, PartialEq, Eq)]
pub struct ImplBlock {
    pub struct_name: String,
    /// The generic parameters of the code around the method, kept ahead of the states.
    pub context: Vec<OuterParam>,
    pub generics: Vec<String>,
    pub bound: String,
    pub self_args: Vec<String>,
    pub method: BoundMethod,
}

/// The placeholders of a state tuple, each once, in order of first occurrence.
pub open spec fn open_params(t: Seq<Seq<char>>) -> Seq<Seq<char>>
    decreases t.len(),
{
    if t.len() == 0 {
        Seq::empty()
    } else {
        let prev = open_params(t.drop_last());
        let x = t.last();
        if is_placeholder_name(x) && !prev.contains(x) {
            prev.push(x)
        } else {
            prev
        }
    }
}

/// Some concrete element of `t` is not a state of `states`.
pub open spec fn names_unknown_state(t: Seq<Seq<char>>, states: Seq<Seq<char>>) -> bool {
    exists|i: int| 0 <= i < t.len() && !is_placeholder_name(t[i]) && !states.contains(t[i])
}

/// Some placeholder of `t` does not occur in `req`.
pub open spec fn names_unbound_placeholder(t: Seq<Seq<char>>, req: Seq<Seq<char>>) -> bool {
    exists|i: int| 0 <= i < t.len() && is_placeholder_name(t[i]) && !req.contains(t[i])
}

/// The refusal that a state tuple meets, for a struct of `n` slots, if any.
pub open spec fn tuple_error(t: Seq<Seq<char>>, n: nat, states: Seq<Seq<char>>) -> Option<GenError> {
    if t.len() != n {
        Some(GenError::SlotCountMismatch)
    } else if names_unknown_state(t, states) {
        Some(GenError::UnknownState)
    } else {
        None
    }
}

/// The view of an optional string.
pub open spec fn opt_view(o: Option<String>) -> Option<Seq<char>> {
    match o {
        Some(s) => Some(s@),
        None => None,
    }
}

/// The refusal that a target tuple meets, if any.
pub open spec fn switch_error(
    struct_name: Seq<char>,
    ret: Option<Seq<char>>,
    target: Seq<Seq<char>>,
    req: Seq<Seq<char>>,
    n: nat,
    states: Seq<Seq<char>>,
) -> Option<GenError> {
    if ret != Some(struct_name) {
        Some(GenError::BareReturnRequired)
    } else if tuple_error(target, n, states) is Some {
        tuple_error(target, n, states)
    } else if names_unbound_placeholder(target, req) {
        Some(GenError::UnboundPlaceholder)
    } else {
        None
    }
}

/// The refusal that an annotated method meets, if any.
pub open spec fn bind_error(
    struct_name: Seq<char>,
    n: nat,
    states: Seq<Seq<char>>,
    m: MethodSpec,
) -> Option<GenError> {
    if tuple_error(m.require.deep_view(), n, states) is Some {
        tuple_error(m.require.deep_view(), n, states)
    } else {
        match m.switch_to {
            None => None,
            Some(t) => switch_error(
                struct_name,
                opt_view(m.ret),
                t.deep_view(),
                m.require.deep_view(),
                n,
                states,
            ),
        }
    }
}

/// `r` is `struct_name` applied to the outer parameters `ctx` and to `target`, slot by slot.
pub open spec fn applied(
    r: TypeRef,
    struct_name: Seq<char>,
    ctx: Seq<OuterParam>,
    target: Seq<Seq<char>>,
) -> bool {
    &&& r.name@ == struct_name
    &&& r.context.deep_view() == outer_names(ctx)
    &&& r.args.deep_view() == target
}

/// `b` is the implementation block that binds `m` to `struct_name`, inside the generic
/// context `ctx`.
pub open spec fn bound(
    b: ImplBlock,
    struct_name: Seq<char>,
    ctx: Seq<OuterParam>,
    m: MethodSpec,
) -> bool {
    &&& b.struct_name@ == struct_name
    &&& outer_decls(b.context@) == outer_decls(ctx)
    &&& outer_names(b.context@) == outer_names(ctx)
    &&& b.generics.deep_view() == open_params(m.require.deep_view())
    &&& b.bound@ == capability_name()
    &&& b.self_args.deep_view() == m.require.deep_view()
    &&& b.method.name@ == m.name@
    &&& b.method.params@ == m.params@
    &&& b.method.body@ == m.body@
    &&& match m.switch_to {
        Some(t) => {
            &&& b.method.ret is Applied
            &&& applied(b.method.ret->Applied_0, struct_name, ctx, t.deep_view())
        },
        None => match m.ret {
            Some(s) => b.method.ret is Plain && b.method.ret->Plain_0@ == s@,
            None => b.method.ret is Unit,
        },
    }
}

fn check_tuple(t: &Vec<String>, n: usize, states: &Vec<String>) -> (r: Result<(), GenError>)
    ensures
        match tuple_error(t.deep_view(), n as nat, states.deep_view()) {
            Some(e) => r == Err::<(), GenError>(e),
            None => r is Ok,
        },
{
    if t.len() != n {
        return Err(GenError::SlotCountMismatch);
    }
    let ghost dv = t.deep_view();
    let mut i: usize = 0;
    while i < t.len()
        invariant
            i <= t.len(),
            t.len() == n,
            dv == t.deep_view(),
            forall|k: int|
                0 <= k < i ==> is_placeholder_name(#[trigger] dv[k]) || states.deep_view().contains(
                    dv[k],
                ),
        decreases t.len() - i,
    {
        if !is_placeholder(&t[i]) && !contains_name(states, &t[i]) {
            assert(!is_placeholder_name(dv[i as int]) && !states.deep_view().contains(dv[i as int]));
            assert(dv.len() == t.len());
            assert(names_unknown_state(dv, states.deep_view()));
            return Err(GenError::UnknownState);
        }
        i += 1;
    }
    Ok(())
}

fn check_bound(target: &Vec<String>, req: &Vec<String>) -> (r: bool)
    ensures
        r == !names_unbound_placeholder(target.deep_view(), req.deep_view()),
{
    let ghost dv = target.deep_view();
    let mut i: usize = 0;
    while i < target.len()
        invariant
            i <= target.len(),
            dv == target.deep_view(),
            forall|k: int|
                0 <= k < i ==> !is_placeholder_name(#[trigger] dv[k]) || req.deep_view().contains(
                    dv[k],
                ),
        decreases target.len() - i,
    {
        if is_placeholder(&target[i]) && !contains_name(req, &target[i]) {
            assert(is_placeholder_name(dv[i as int]) && !req.deep_view().contains(dv[i as int]));
            return false;
        }
        i += 1;
    }
    true
}

/// The placeholders of `t`, each once, in order of first occurrence.
pub fn collect_open_params(t: &Vec<String>) -> (r: Vec<String>)
    ensures
        r.deep_view() == open_params(t.deep_view()),
{
    let ghost dv = t.deep_view();
    let mut out: Vec<String> = Vec::new();
    let mut i: usize = 0;
    assert(dv.take(0) =~= Seq::<Seq<char>>::empty());
    while i < t.len()
        invariant
            i <= t.len(),
            dv == t.deep_view(),
            out.deep_view() == open_params(dv.take(i as int)),
        decreases t.len() - i,
    {
        assert(dv.take(i + 1).drop_last() =~= dv.take(i as int));
        assert(dv.take(i + 1).last() == dv[i as int]);
        if is_placeholder(&t[i]) && !contains_name(&out, &t[i]) {
            let ghost prev = out.deep_view();
            let x = t[i].clone();
            out.push(x);
            assert(out.deep_view() =~= prev.push(x@));
        }
        i += 1;
    }
    assert(dv.take(i as int) =~= dv);
    out
}

/// Rewrites the return type of a transitioning method: the struct type applied to the
/// target states, slot `i` taking `target[i]`.
pub fn switch_to(
    struct_name: &String,
    context: &Vec<OuterParam>,
    ret: &Option<String>,
    target: &Vec<String>,
    required: &Vec<String>,
    slots: usize,
    states: &Vec<String>,
) -> (r: Result<TypeRef, GenError>)
    ensures
        match switch_error(
            struct_name@,
            opt_view(*ret),
            target.deep_view(),
            required.deep_view(),
            slots as nat,
            states.deep_view(),
        ) {
            Some(e) => r == Err::<TypeRef, GenError>(e),
            None => r is Ok && applied(r->Ok_0, struct_name@, context@, target.deep_view()),
        },
{
    match ret {
        Some(s) => {
            if *s != *struct_name {
                return Err(GenError::BareReturnRequired);
            }
        },
        None => {
            return Err(GenError::BareReturnRequired);
        },
    }
    match check_tuple(target, slots, states) {
        Err(e) => {
            return Err(e);
        },
        Ok(()) => {},
    }
    if !check_bound(target, required) {
        return Err(GenError::UnboundPlaceholder);
    }
    Ok(
        TypeRef {
            name: struct_name.clone(),
            context: outer_strings(context, true),
            args: copy_names(target),
        },
    )
}

/// Binds an annotated method to its own implementation block: the placeholders of the
/// required tuple become generic parameters bounded by the capability interface, the
/// concrete states are pinned, and a target tuple rewrites the return type.
pub fn require(
    struct_name: &String,
    context: &Vec<OuterParam>,
    slots: usize,
    states: &Vec<String>,
    m: &MethodSpec,
) -> (r: Result<ImplBlock, GenError>)
    ensures
        match bind_error(struct_name@, slots as nat, states.deep_view(), *m) {
            Some(e) => r == Err::<ImplBlock, GenError>(e),
            None => r is Ok && bound(r->Ok_0, struct_name@, context@, *m),
        },
{
    match check_tuple(&m.require, slots, states) {
        Err(e) => {
            return Err(e);
        },
        Ok(()) => {},
    }
    let ret = match &m.switch_to {
        Some(t) => match switch_to(struct_name, context, &m.ret, t, &m.require, slots, states) {
            Ok(tr) => ReturnType::Applied(tr),
            Err(e) => {
                return Err(e);
            },
        },
        None => match &m.ret {
            Some(s) => ReturnType::Plain(s.clone()),
            None => ReturnType::Unit,
        },
    };
    Ok(
        ImplBlock {
            struct_name: struct_name.clone(),
            context: copy_outer(context),
            generics: collect_open_params(&m.require),
            bound: capability_string(),
            self_args: copy_names(&m.require),
            method: BoundMethod {
                name: m.name.clone(),
                params: m.params.clone(),
                ret,
                body: m.body.clone(),
            },
        },
    )
}

/// The opened parameters of a tuple are exactly its placeholders, each once.
pub proof fn lemma_open_params(t: Seq<Seq<char>>)
    ensures
        open_params(t).no_duplicates(),
        forall|x: Seq<char>| #[trigger]
            open_params(t).contains(x) <==> is_placeholder_name(x) && t.contains(x),
    decreases t.len(),
{
    if t.len() > 0 {
        let init = t.drop_last();
        lemma_open_params(init);
        assert(t =~= init.push(t.last()));
        assert forall|x: Seq<char>| #[trigger]
            open_params(t).contains(x) <==> is_placeholder_name(x) && t.contains(x) by {
            if t.contains(x) && !init.contains(x) {
                let k = choose|k: int| 0 <= k < t.len() && t[k] == x;
                if k < t.len() - 1 {
                    assert(init[k] == x);
                }
            }
            if init.contains(x) {
                let k = choose|k: int| 0 <= k < init.len() && init[k] == x;
                assert(t[k] == x);
            }
            assert(t[t.len() - 1] == t.last());
            if open_params(t) != open_params(init) {
                let prev = open_params(init);
                assert(open_params(t) == prev.push(t.last()));
                if open_params(t).contains(x) && !prev.contains(x) {
                    let k = choose|k: int| 0 <= k < prev.len() + 1 && open_params(t)[k] == x;
                    if k < prev.len() {
                        assert(prev[k] == x);
                    }
                }
                if prev.contains(x) {
                    let k = choose|k: int| 0 <= k < prev.len() && prev[k] == x;
                    assert(open_params(t)[k] == x);
                }
                assert(open_params(t)[prev.len() as int] == t.last());
            }
        }
    }
}

/// Placeholder or concrete is decided by the name's length alone: wherever a name
/// stands in a required tuple, and whatever stands beside it, it becomes a generic
/// parameter of the implementation block exactly when it is one character long.
pub proof fn lemma_classification_by_length(t1: Seq<Seq<char>>, i: int, t2: Seq<Seq<char>>, j: int)
    requires
        0 <= i < t1.len(),
        0 <= j < t2.len(),
    ensures
        open_params(t1).contains(t1[i]) <==> t1[i].len() == 1,
        t1[i] == t2[j] ==> (open_params(t1).contains(t1[i]) <==> open_params(t2).contains(t2[j])),
{
    lemma_open_params(t1);
    lemma_open_params(t2);
    assert(t1.contains(t1[i]));
    assert(t2.contains(t2[j]));
}

/// Slot arity is conserved: a method is accepted only when its required tuple, and its
/// target tuple if it has one, have exactly as many elements as the struct has slots;
/// any other length is refused, never truncated or padded.
pub proof fn lemma_slot_arity(struct_name: Seq<char>, n: nat, states: Seq<Seq<char>>, m: MethodSpec)
    ensures
        bind_error(struct_name, n, states, m) is None ==> {
            &&& m.require.len() == n
            &&& m.switch_to is Some ==> m.switch_to->Some_0.len() == n
        },
        m.require.len() != n ==> bind_error(struct_name, n, states, m) == Some(
            GenError::SlotCountMismatch,
        ),
        m.switch_to is Some && m.switch_to->Some_0.len() != n ==> bind_error(
            struct_name,
            n,
            states,
            m,
        ) is Some,
{
}

/// The rewritten return type takes the target tuple slot by slot, and each placeholder
/// in it is one of the generic parameters that the implementation block opens.
pub proof fn lemma_return_positional(
    struct_name: Seq<char>,
    ctx: Seq<OuterParam>,
    n: nat,
    states: Seq<Seq<char>>,
    m: MethodSpec,
    b: ImplBlock,
)
    requires
        bind_error(struct_name, n, states, m) is None,
        bound(b, struct_name, ctx, m),
        m.switch_to is Some,
    ensures
        b.method.ret is Applied,
        b.method.ret->Applied_0.name@ == struct_name,
        b.method.ret->Applied_0.context.deep_view() == outer_names(ctx),
        b.method.ret->Applied_0.args.len() == n,
        forall|i: int|
            0 <= i < n ==> #[trigger] b.method.ret->Applied_0.args[i]@ == m.switch_to->Some_0[i]@,
        forall|i: int|
            0 <= i < n && is_placeholder_name(#[trigger] b.method.ret->Applied_0.args[i]@)
                ==> b.generics.deep_view().contains(b.method.ret->Applied_0.args[i]@),
{
    let t = m.switch_to->Some_0.deep_view();
    let args = b.method.ret->Applied_0.args;
    lemma_open_params(m.require.deep_view());
    assert(args.deep_view() == t);
    assert forall|i: int| 0 <= i < n implies #[trigger] args[i]@ == m.switch_to->Some_0[i]@ by {
        assert(args.deep_view()[i] == t[i]);
    }
    assert forall|i: int| 0 <= i < n && is_placeholder_name(#[trigger] args[i]@)
        implies b.generics.deep_view().contains(args[i]@) by {
        assert(args.deep_view()[i] == t[i]);
        assert(!names_unbound_placeholder(t, m.require.deep_view()));
        assert(t[i] == args[i]@);
    }
}

} // verus!
