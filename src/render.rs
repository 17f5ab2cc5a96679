use vstd::prelude::*;

use crate::binder::{ImplBlock, ReturnType, TypeRef};
use crate::ident::{copy_names, extend_names, outer_decls, outer_names, outer_strings};
use crate::pipeline::Artifact;
use crate::registry::Registry;
use crate::specializer::{GenericParam, StructDecl};

verus! {

/// `xs` written one after another with `sep` between each two.
pub open spec fn joined(xs: Seq<Seq<char>>, sep: Seq<char>) -> Seq<char>
    decreases xs.len(),
{
    if xs.len() == 0 {
        Seq::empty()
    } else if xs.len() == 1 {
        xs[0]
    } else {
        joined(xs.drop_last(), sep) + sep + xs.last()
    }
}

/// `xs` written one after another, each followed by `term`.
pub open spec fn terminated(xs: Seq<Seq<char>>, term: Seq<char>) -> Seq<char>
    decreases xs.len(),
{
    if xs.len() == 0 {
        Seq::empty()
    } else {
        terminated(xs.drop_last(), term) + xs.last() + term
    }
}

/// Appends the strings of `xs` to `out`, with `sep` between each two.
pub fn append_joined(xs: &Vec<String>, sep: &str, out: &mut String)
    ensures
        final(out)@ == old(out)@ + joined(xs.deep_view(), sep@),
{
    let ghost start = out@;
    let ghost dv = xs.deep_view();
    let mut i: usize = 0;
    assert(start + joined(dv.take(0), sep@) =~= start);
    while i < xs.len()
        invariant
            i <= xs.len(),
            dv == xs.deep_view(),
            out@ == start + joined(dv.take(i as int), sep@),
        decreases xs.len() - i,
    {
        let ghost before = out@;
        assert(dv.take(i + 1).drop_last() =~= dv.take(i as int));
        assert(dv.take(i + 1).last() == dv[i as int]);
        if i == 0 {
            out.append(xs[i].as_str());
            assert(dv.take(1) =~= seq![dv[0]]);
        } else {
            out.append(sep);
            out.append(xs[i].as_str());
        }
        assert(out@ =~= start + joined(dv.take(i + 1), sep@));
        i += 1;
    }
    assert(dv.take(i as int) =~= dv);
}

/// Appends the strings of `xs` to `out`, each followed by `term`.
pub fn append_terminated(xs: &Vec<String>, term: &str, out: &mut String)
    ensures
        final(out)@ == old(out)@ + terminated(xs.deep_view(), term@),
{
    let ghost start = out@;
    let ghost dv = xs.deep_view();
    let mut i: usize = 0;
    assert(start + terminated(dv.take(0), term@) =~= start);
    while i < xs.len()
        invariant
            i <= xs.len(),
            dv == xs.deep_view(),
            out@ == start + terminated(dv.take(i as int), term@),
        decreases xs.len() - i,
    {
        assert(dv.take(i + 1).drop_last() =~= dv.take(i as int));
        assert(dv.take(i + 1).last() == dv[i as int]);
        out.append(xs[i].as_str());
        out.append(term);
        assert(out@ =~= start + terminated(dv.take(i + 1), term@));
        i += 1;
    }
    assert(dv.take(i as int) =~= dv);
}

/// `name: bound = default`
pub open spec fn param_text(p: GenericParam) -> Seq<char> {
    p.name@ + ": "@ + p.bound@ + " = "@ + p.default@
}

/// The generic parameter list of a struct declaration, one entry per slot.
pub open spec fn param_texts(ps: Seq<GenericParam>) -> Seq<Seq<char>> {
    ps.map_values(|p: GenericParam| param_text(p))
}

/// The source text of a type-state struct declaration.
pub open spec fn struct_text(d: StructDecl) -> Seq<char> {
    "struct "@ + d.name@ + "<"@ + joined(outer_decls(d.generics@) + param_texts(d.params@), ", "@)
        + "> { "@ + terminated(
        d.fields.deep_view(),
        ", "@,
    ) + d.tracking_field@ + ": ::core::marker::PhantomData<("@ + terminated(
        d.tracking.deep_view(),
        ", "@,
    ) + ")>, }"@
}

/// `name<args[0], args[1], ..>`
pub open spec fn type_ref_text(r: TypeRef) -> Seq<char> {
    r.name@ + "<"@ + joined(r.context.deep_view() + r.args.deep_view(), ", "@) + ">"@
}

/// What follows a method's parameter list: nothing for `()`, else ` -> ` and the type.
pub open spec fn return_text(r: ReturnType) -> Seq<char> {
    match r {
        ReturnType::Unit => Seq::empty(),
        ReturnType::Plain(t) => " -> "@ + t@,
        ReturnType::Applied(t) => " -> "@ + type_ref_text(t),
    }
}

/// Each opened placeholder with the capability bound: `S: TypeStateProtector`.
pub open spec fn generic_texts(gs: Seq<Seq<char>>, bound: Seq<char>) -> Seq<Seq<char>> {
    gs.map_values(|g: Seq<char>| g + ": "@ + bound)
}

/// The source text of the implementation block of one method.
pub open spec fn impl_text(b: ImplBlock) -> Seq<char> {
    "impl<"@ + joined(
        outer_decls(b.context@) + generic_texts(b.generics.deep_view(), b.bound@),
        ", "@,
    ) + "> "@ + b.struct_name@ + "<"@ + joined(
        outer_names(b.context@) + b.self_args.deep_view(),
        ", "@,
    )
        + "> { fn "@
        + b.method.name@ + "("@ + b.method.params@ + ")"@ + return_text(b.method.ret) + " "@
        + b.method.body@ + " }"@
}

fn param_string(p: &GenericParam) -> (r: String)
    ensures
        r@ == param_text(*p),
{
    proof {
        reveal_strlit(": ");
        reveal_strlit(" = ");
    }
    let mut r = p.name.clone();
    r.append(": ");
    r.append(p.bound.as_str());
    r.append(" = ");
    r.append(p.default.as_str());
    r
}

/// Writes a type-state struct declaration as source text.
pub fn render_struct(d: &StructDecl) -> (r: String)
    ensures
        r@ == struct_text(*d),
{
    let ghost od = outer_decls(d.generics@);
    let mut texts: Vec<String> = outer_strings(&d.generics, false);
    let mut i: usize = 0;
    assert(od + param_texts(d.params@.take(0)) =~= od);
    while i < d.params.len()
        invariant
            i <= d.params.len(),
            od == outer_decls(d.generics@),
            texts.deep_view() == od + param_texts(d.params@.take(i as int)),
        decreases d.params.len() - i,
    {
        let ghost prev = texts.deep_view();
        let t = param_string(&d.params[i]);
        texts.push(t);
        assert(texts.deep_view() =~= prev.push(t@));
        assert(texts.deep_view() =~= od + param_texts(d.params@.take(i + 1)));
        i += 1;
    }
    assert(d.params@.take(i as int) =~= d.params@);
    proof {
        reveal_strlit("struct ");
        reveal_strlit("<");
        reveal_strlit(", ");
        reveal_strlit("> { ");
        reveal_strlit(": ::core::marker::PhantomData<(");
        reveal_strlit(")>, }");
    }
    let mut r = String::from_str("struct ");
    r.append(d.name.as_str());
    r.append("<");
    append_joined(&texts, ", ", &mut r);
    r.append("> { ");
    append_terminated(&d.fields, ", ", &mut r);
    r.append(d.tracking_field.as_str());
    r.append(": ::core::marker::PhantomData<(");
    append_terminated(&d.tracking, ", ", &mut r);
    r.append(")>, }");
    r
}

fn append_return(ret: &ReturnType, out: &mut String)
    ensures
        final(out)@ == old(out)@ + return_text(*ret),
{
    proof {
        reveal_strlit(" -> ");
        reveal_strlit("<");
        reveal_strlit(", ");
        reveal_strlit(">");
    }
    match ret {
        ReturnType::Unit => {
            assert(out@ =~= old(out)@ + return_text(*ret));
        },
        ReturnType::Plain(t) => {
            out.append(" -> ");
            out.append(t.as_str());
            assert(out@ =~= old(out)@ + return_text(*ret));
        },
        ReturnType::Applied(t) => {
            out.append(" -> ");
            out.append(t.name.as_str());
            out.append("<");
            let mut all = copy_names(&t.context);
            extend_names(&mut all, &t.args);
            append_joined(&all, ", ", out);
            out.append(">");
            assert(out@ =~= old(out)@ + return_text(*ret));
        },
    }
}

/// Writes the implementation block of one method as source text.
pub fn render_impl(b: &ImplBlock) -> (r: String)
    ensures
        r@ == impl_text(*b),
{
    proof {
        reveal_strlit(": ");
    }
    let ghost gv = b.generics.deep_view();
    let ghost od = outer_decls(b.context@);
    let mut texts: Vec<String> = outer_strings(&b.context, false);
    let mut i: usize = 0;
    assert(od + generic_texts(gv.take(0), b.bound@) =~= od);
    while i < b.generics.len()
        invariant
            i <= b.generics.len(),
            gv == b.generics.deep_view(),
            od == outer_decls(b.context@),
            texts.deep_view() == od + generic_texts(gv.take(i as int), b.bound@),
        decreases b.generics.len() - i,
    {
        let ghost prev = texts.deep_view();
        let mut t = b.generics[i].clone();
        t.append(": ");
        t.append(b.bound.as_str());
        texts.push(t);
        assert(texts.deep_view() =~= prev.push(t@));
        assert(texts.deep_view() =~= od + generic_texts(gv.take(i + 1), b.bound@));
        i += 1;
    }
    assert(gv.take(i as int) =~= gv);
    proof {
        reveal_strlit("impl<");
        reveal_strlit(", ");
        reveal_strlit("> ");
        reveal_strlit("<");
        reveal_strlit("> { fn ");
        reveal_strlit("(");
        reveal_strlit(")");
        reveal_strlit(" ");
        reveal_strlit(" }");
    }
    let mut r = String::from_str("impl<");
    append_joined(&texts, ", ", &mut r);
    r.append("> ");
    r.append(b.struct_name.as_str());
    r.append("<");
    let mut args = outer_strings(&b.context, true);
    extend_names(&mut args, &b.self_args);
    append_joined(&args, ", ", &mut r);
    r.append("> { fn ");
    r.append(b.method.name.as_str());
    r.append("(");
    r.append(b.method.params.as_str());
    r.append(")");
    append_return(&b.method.ret, &mut r);
    r.append(" ");
    r.append(b.method.body.as_str());
    r.append(" }");
    r
}

/// One marker type with its two implementations.
pub open spec fn marker_text(m: Seq<char>, sealer: Seq<char>, capability: Seq<char>) -> Seq<char> {
    "pub struct "@ + m + ";\nimpl sealed::"@ + sealer + " for "@ + m + " {}\nimpl "@ + capability
        + " for "@ + m + " {}"@
}

/// The marker texts of a registry, in order.
pub open spec fn marker_texts(ms: Seq<Seq<char>>, sealer: Seq<char>, capability: Seq<char>) -> Seq<
    Seq<char>,
> {
    ms.map_values(|m: Seq<char>| marker_text(m, sealer, capability))
}

/// The source text of a registry: the sealer in a private module, the capability
/// interface that requires it, and each marker with its implementations.
pub open spec fn registry_text(r: Registry) -> Seq<char> {
    "mod sealed { pub trait "@ + r.sealer.name@ + " {} }\npub trait "@ + r.capability.name@
        + ": sealed::"@ + r.sealer.name@ + " {}\n"@ + terminated(
        marker_texts(r.markers.deep_view(), r.sealer.name@, r.capability.name@),
        "\n"@,
    )
}

/// The source text of everything generated for one struct.
pub open spec fn artifact_text(a: Artifact) -> Seq<char> {
    registry_text(a.registry) + struct_text(a.decl) + "\n"@ + terminated(
        a.impls@.map_values(|b: ImplBlock| impl_text(b)),
        "\n"@,
    )
}

/// Writes a registry as source text.
pub fn render_registry(r: &Registry) -> (out: String)
    ensures
        out@ == registry_text(*r),
{
    let ghost mv = r.markers.deep_view();
    let ghost sn = r.sealer.name@;
    let ghost cn = r.capability.name@;
    proof {
        reveal_strlit("pub struct ");
        reveal_strlit(";\nimpl sealed::");
        reveal_strlit(" for ");
        reveal_strlit(" {}\nimpl ");
        reveal_strlit(" {}");
    }
    let mut texts: Vec<String> = Vec::new();
    let mut i: usize = 0;
    while i < r.markers.len()
        invariant
            i <= r.markers.len(),
            mv == r.markers.deep_view(),
            sn == r.sealer.name@,
            cn == r.capability.name@,
            texts.deep_view() == marker_texts(mv.take(i as int), sn, cn),
        decreases r.markers.len() - i,
    {
        let ghost prev = texts.deep_view();
        let m = r.markers[i].as_str();
        let mut t = String::from_str("pub struct ");
        t.append(m);
        t.append(";\nimpl sealed::");
        t.append(r.sealer.name.as_str());
        t.append(" for ");
        t.append(m);
        t.append(" {}\nimpl ");
        t.append(r.capability.name.as_str());
        t.append(" for ");
        t.append(m);
        t.append(" {}");
        assert(t@ == marker_text(mv[i as int], sn, cn));
        texts.push(t);
        assert(texts.deep_view() =~= prev.push(t@));
        assert(texts.deep_view() =~= marker_texts(mv.take(i + 1), sn, cn));
        i += 1;
    }
    assert(mv.take(i as int) =~= mv);
    proof {
        reveal_strlit("mod sealed { pub trait ");
        reveal_strlit(" {} }\npub trait ");
        reveal_strlit(": sealed::");
        reveal_strlit(" {}\n");
        reveal_strlit("\n");
    }
    let mut out = String::from_str("mod sealed { pub trait ");
    out.append(r.sealer.name.as_str());
    out.append(" {} }\npub trait ");
    out.append(r.capability.name.as_str());
    out.append(": sealed::");
    out.append(r.sealer.name.as_str());
    out.append(" {}\n");
    append_terminated(&texts, "\n", &mut out);
    out
}

/// Writes everything generated for one struct as source text: the registry, the struct
/// declaration, and each implementation block on a line of its own.
pub fn render_artifact(a: &Artifact) -> (out: String)
    ensures
        out@ == artifact_text(*a),
{
    let ghost bv = a.impls@;
    let mut texts: Vec<String> = Vec::new();
    let mut i: usize = 0;
    while i < a.impls.len()
        invariant
            i <= a.impls.len(),
            bv == a.impls@,
            texts.deep_view() == bv.take(i as int).map_values(|b: ImplBlock| impl_text(b)),
        decreases a.impls.len() - i,
    {
        let ghost prev = texts.deep_view();
        let t = render_impl(&a.impls[i]);
        texts.push(t);
        assert(texts.deep_view() =~= prev.push(t@));
        assert(texts.deep_view() =~= bv.take(i + 1).map_values(|b: ImplBlock| impl_text(b)));
        i += 1;
    }
    assert(bv.take(i as int) =~= bv);
    proof {
        reveal_strlit("\n");
    }
    let mut out = render_registry(&a.registry);
    let d = render_struct(&a.decl);
    out.append(d.as_str());
    out.append("\n");
    append_terminated(&texts, "\n", &mut out);
    out
}

} // verus!
