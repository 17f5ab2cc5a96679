use vstd::prelude::*;

verus! {

/// A state-tuple element is a placeholder exactly when its name is one character long.
pub open spec fn is_placeholder_name(name: Seq<char>) -> bool {
    name.len() == 1
}

/// Tells whether `name` stands for a generic placeholder rather than a concrete state.
pub fn is_placeholder(name: &String) -> (r: bool)
    ensures
        r == is_placeholder_name(name@),
{
    name.as_str().unicode_len() == 1
}

/// Tells whether `names` holds `name`.
pub fn contains_name(names: &Vec<String>, name: &String) -> (r: bool)
    ensures
        r == names.deep_view().contains(name@),
{
    let ghost dv = names.deep_view();
    let mut i: usize = 0;
    while i < names.len()
        invariant
            i <= names.len(),
            dv == names.deep_view(),
            forall|k: int| 0 <= k < i ==> dv[k] != name@,
        decreases names.len() - i,
    {
        if names[i] == *name {
            assert(dv[i as int] == name@);
            return true;
        }
        i += 1;
    }
    proof {
        if dv.contains(name@) {
            let k = choose|k: int| 0 <= k < dv.len() && dv[k] == name@;
            assert(dv[k] != name@);
        }
    }
    false
}

/// Tells whether some name occurs twice in `names`.
pub fn has_duplicates(names: &Vec<String>) -> (r: bool)
    ensures
        r == !names.deep_view().no_duplicates(),
{
    let ghost dv = names.deep_view();
    let mut i: usize = 0;
    while i < names.len()
        invariant
            i <= names.len(),
            dv == names.deep_view(),
            forall|a: int, b: int| 0 <= a < i && 0 <= b < i && a != b ==> dv[a] != dv[b],
        decreases names.len() - i,
    {
        let mut j: usize = 0;
        while j < i
            invariant
                j <= i < names.len(),
                dv == names.deep_view(),
                forall|b: int| 0 <= b < j ==> dv[b] != dv[i as int],
            decreases i - j,
        {
            if names[j] == names[i] {
                assert(dv[j as int] == dv[i as int]);
                return true;
            }
            j += 1;
        }
        i += 1;
    }
    false
}

/// A copy of `names`, name by name.
pub fn copy_names(names: &Vec<String>) -> (r: Vec<String>)
    ensures
        r.deep_view() == names.deep_view(),
{
    let mut out: Vec<String> = Vec::new();
    let mut i: usize = 0;
    while i < names.len()
        invariant
            i <= names.len(),
            out.deep_view() == names.deep_view().take(i as int),
        decreases names.len() - i,
    {
        let ghost prev = out.deep_view();
        let m = names[i].clone();
        assert(m@ == names.deep_view()[i as int]);
        out.push(m);
        assert(out.deep_view() =~= prev.push(m@));
        assert(out.deep_view() =~= names.deep_view().take(i + 1));
        i += 1;
    }
    assert(out.deep_view() =~= names.deep_view());
    out
}

/// A generic parameter of the code around the generated items, such as a lifetime:
/// `decl` declares it (`'a`, `T: Clone`) and `name` refers to it (`'a`, `T`).
#[derive(Clone, Debug, PartialEq, Eq)]
pub struct OuterParam {
    pub decl: String,
    pub name: String,
}

/// The declarations of outer parameters, in order.
pub open spec fn outer_decls(v: Seq<OuterParam>) -> Seq<Seq<char>> {
    v.map_values(|p: OuterParam| p.decl@)
}

/// The names of outer parameters, in order.
pub open spec fn outer_names(v: Seq<OuterParam>) -> Seq<Seq<char>> {
    v.map_values(|p: OuterParam| p.name@)
}

/// A copy of a list of outer parameters.
pub fn copy_outer(v: &Vec<OuterParam>) -> (r: Vec<OuterParam>)
    ensures
        outer_decls(r@) == outer_decls(v@),
        outer_names(r@) == outer_names(v@),
{
    let mut out: Vec<OuterParam> = Vec::new();
    let mut i: usize = 0;
    while i < v.len()
        invariant
            i <= v.len(),
            outer_decls(out@) == outer_decls(v@.take(i as int)),
            outer_names(out@) == outer_names(v@.take(i as int)),
        decreases v.len() - i,
    {
        let ghost prev = out@;
        let p = OuterParam { decl: v[i].decl.clone(), name: v[i].name.clone() };
        assert(p.decl@ == v@[i as int].decl@ && p.name@ == v@[i as int].name@);
        out.push(p);
        assert(out@ =~= prev.push(p));
        assert(v@.take(i + 1) =~= v@.take(i as int).push(v@[i as int]));
        assert(outer_decls(out@) =~= outer_decls(prev).push(p.decl@));
        assert(outer_names(out@) =~= outer_names(prev).push(p.name@));
        assert(outer_decls(v@.take(i + 1)) =~= outer_decls(v@.take(i as int)).push(v@[i as int].decl@));
        assert(outer_names(v@.take(i + 1)) =~= outer_names(v@.take(i as int)).push(v@[i as int].name@));
        assert(outer_decls(out@) =~= outer_decls(v@.take(i + 1)));
        assert(outer_names(out@) =~= outer_names(v@.take(i + 1)));
        i += 1;
    }
    assert(v@.take(i as int) =~= v@);
    out
}

/// The declarations, or the names, of outer parameters.
pub fn outer_strings(v: &Vec<OuterParam>, names: bool) -> (r: Vec<String>)
    ensures
        r.deep_view() == if names { outer_names(v@) } else { outer_decls(v@) },
{
    let ghost want = if names { outer_names(v@) } else { outer_decls(v@) };
    let mut out: Vec<String> = Vec::new();
    let mut i: usize = 0;
    while i < v.len()
        invariant
            i <= v.len(),
            want == if names { outer_names(v@) } else { outer_decls(v@) },
            out.deep_view() == want.take(i as int),
        decreases v.len() - i,
    {
        let ghost prev = out.deep_view();
        let t = if names { v[i].name.clone() } else { v[i].decl.clone() };
        out.push(t);
        assert(out.deep_view() =~= prev.push(t@));
        assert(out.deep_view() =~= want.take(i + 1));
        i += 1;
    }
    assert(want.take(i as int) =~= want);
    out
}

/// Appends copies of `xs` to `out`.
pub fn extend_names(out: &mut Vec<String>, xs: &Vec<String>)
    ensures
        final(out).deep_view() == old(out).deep_view() + xs.deep_view(),
{
    let ghost start = out.deep_view();
    let mut i: usize = 0;
    while i < xs.len()
        invariant
            i <= xs.len(),
            out.deep_view() == start + xs.deep_view().take(i as int),
        decreases xs.len() - i,
    {
        let ghost prev = out.deep_view();
        let t = xs[i].clone();
        out.push(t);
        assert(out.deep_view() =~= prev.push(t@));
        assert(out.deep_view() =~= start + xs.deep_view().take(i + 1));
        i += 1;
    }
    assert(xs.deep_view().take(i as int) =~= xs.deep_view());
}

/// The character that writes the decimal digit `d`.
pub open spec fn digit_char(d: nat) -> char {
    if d == 0 { '0' }
    else if d == 1 { '1' }
    else if d == 2 { '2' }
    else if d == 3 { '3' }
    else if d == 4 { '4' }
    else if d == 5 { '5' }
    else if d == 6 { '6' }
    else if d == 7 { '7' }
    else if d == 8 { '8' }
    else { '9' }
}

/// The decimal writing of `n`, without leading zeros.
pub open spec fn decimal(n: nat) -> Seq<char>
    decreases n,
{
    if n < 10 {
        seq![digit_char(n)]
    } else {
        decimal(n / 10).push(digit_char(n % 10))
    }
}

fn digit_str(d: usize) -> (r: &'static str)
    requires
        d < 10,
    ensures
        r@ == seq![digit_char(d as nat)],
{
    proof {
        reveal_strlit("0");
        reveal_strlit("1");
        reveal_strlit("2");
        reveal_strlit("3");
        reveal_strlit("4");
        reveal_strlit("5");
        reveal_strlit("6");
        reveal_strlit("7");
        reveal_strlit("8");
        reveal_strlit("9");
    }
    let r = match d {
        0 => "0",
        1 => "1",
        2 => "2",
        3 => "3",
        4 => "4",
        5 => "5",
        6 => "6",
        7 => "7",
        8 => "8",
        _ => "9",
    };
    assert(r@ =~= seq![digit_char(d as nat)]);
    r
}

/// Appends the decimal writing of `n` to `out`.
pub fn append_decimal(n: usize, out: &mut String)
    ensures
        final(out)@ == old(out)@ + decimal(n as nat),
    decreases n,
{
    if n < 10 {
        out.append(digit_str(n));
    } else {
        append_decimal(n / 10, out);
        out.append(digit_str(n % 10));
        assert(out@ =~= old(out)@ + decimal(n as nat));
    }
}

} // verus!
