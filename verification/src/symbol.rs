//! Deterministic exported-symbol naming.
//!
//! The declaration site and the registration site are compiled
//! independently and never communicate, so both derive every exported name
//! by the same pure function of the package identity, the trait name and
//! the method name.  A missing piece of package identity falls back to the
//! literal `<unknown>`.

use vstd::prelude::*;

use crate::ty::{
    Type, Segment, PathArgs, GenericArg, TypeView, SegmentView, PathArgsView, GenericArgView,
    views_of_types, views_of_segments, views_of_gargs, view_of_opt, lemma_views_of_types_len,
    lemma_views_of_types_index, lemma_views_of_segments_len, lemma_views_of_segments_index,
    lemma_views_of_gargs_len, lemma_views_of_gargs_index,
};

verus! {

/// The package identity an expansion site runs under: package name, package
/// version and package-local crate name, each absent when the build
/// environment does not provide it.
pub struct PkgId {
    pub name: Option<String>,
    pub version: Option<String>,
    pub crate_name: Option<String>,
}

/// The mathematical value of a [`PkgId`].
pub ghost struct PkgIdView {
    pub name: Option<Seq<char>>,
    pub version: Option<Seq<char>>,
    pub crate_name: Option<Seq<char>>,
}

/// The view of an optional identity part.
pub open spec fn view_of_part(o: Option<String>) -> Option<Seq<char>> {
    match o {
        Option::Some(s) => Option::Some(s@),
        Option::None => Option::None,
    }
}

impl View for PkgId {
    type V = PkgIdView;

    open spec fn view(&self) -> PkgIdView {
        PkgIdView {
            name: view_of_part(self.name),
            version: view_of_part(self.version),
            crate_name: view_of_part(self.crate_name),
        }
    }
}

/// An identity part, or the `<unknown>` fallback when it is absent.
pub open spec fn part_or_unknown(o: Option<Seq<char>>) -> Seq<char> {
    match o {
        Option::Some(s) => s,
        Option::None => "<unknown>"@,
    }
}

/// The shared prefix of every symbol a trait exports:
/// `__extern_trait_{package}_{version}_{crate}_{TraitName}`.
pub open spec fn symbol_prefix_view(pkg: PkgIdView, trait_name: Seq<char>) -> Seq<char> {
    "__extern_trait_"@ + part_or_unknown(pkg.name) + "_"@ + part_or_unknown(pkg.version) + "_"@
        + part_or_unknown(pkg.crate_name) + "_"@ + trait_name
}

/// The exported name of one method's thunk: the prefix with the method name
/// as suffix, which keeps the names of distinct methods distinct.
pub open spec fn method_symbol_view(prefix: Seq<char>, method: Seq<char>) -> Seq<char> {
    prefix + "_"@ + method
}

/// The exported name of the destructor thunk.
pub open spec fn drop_symbol_view(prefix: Seq<char>) -> Seq<char> {
    prefix + "_drop"@
}

/// The exported name of the reference-conversion thunk for one target type.
pub open spec fn as_ref_symbol_view(prefix: Seq<char>, target: TypeView) -> Seq<char> {
    prefix + "_AsRef_"@ + rendered_type(target)
}

/// A deterministic textual rendering of a type expression, used only to
/// embed the reference-conversion target in its exported name; both sides
/// render identically, which is all the symbol scheme needs.
pub open spec fn rendered_type(t: TypeView) -> Seq<char>
    decreases t,
{
    match t {
        TypeView::Array(e) => "["@ + rendered_type(*e) + "]"@,
        TypeView::BareFn(ps, ret) => "fn("@ + rendered_list(ps) + ")"@ + rendered_output(ret),
        TypeView::Group(e) => rendered_type(*e),
        TypeView::Paren(e) => "("@ + rendered_type(*e) + ")"@,
        TypeView::Path(q, segs) => match q {
            Option::Some(qt) => "<"@ + rendered_type(*qt) + ">::"@ + rendered_segments(segs),
            Option::None => rendered_segments(segs),
        },
        TypeView::Ptr(m, e) => if m {
            "*mut "@ + rendered_type(*e)
        } else {
            "*const "@ + rendered_type(*e)
        },
        TypeView::Reference(m, e) => if m {
            "&mut "@ + rendered_type(*e)
        } else {
            "&"@ + rendered_type(*e)
        },
        TypeView::Slice(e) => "["@ + rendered_type(*e) + "]"@,
        TypeView::Tuple(es) => "("@ + rendered_list(es) + ")"@,
        TypeView::Other => "_"@,
    }
}

/// A comma-separated rendering of a list of types.
pub open spec fn rendered_list(ts: Seq<TypeView>) -> Seq<char>
    decreases ts,
{
    if ts.len() == 0 {
        Seq::empty()
    } else if ts.len() == 1 {
        rendered_type(ts[0])
    } else {
        rendered_list(ts.drop_last()) + ","@ + rendered_type(ts.last())
    }
}

/// The rendering of an optional return type.
pub open spec fn rendered_output(o: Option<Box<TypeView>>) -> Seq<char>
    decreases o,
{
    match o {
        Option::Some(t) => " -> "@ + rendered_type(*t),
        Option::None => Seq::empty(),
    }
}

/// A `::`-separated rendering of the segments of a path.
pub open spec fn rendered_segments(ss: Seq<SegmentView>) -> Seq<char>
    decreases ss,
{
    if ss.len() == 0 {
        Seq::empty()
    } else if ss.len() == 1 {
        rendered_segment(ss[0])
    } else {
        rendered_segments(ss.drop_last()) + "::"@ + rendered_segment(ss.last())
    }
}

/// The rendering of one path segment.
pub open spec fn rendered_segment(s: SegmentView) -> Seq<char>
    decreases s,
{
    s.ident + match s.arguments {
        PathArgsView::Bare => Seq::<char>::empty(),
        PathArgsView::Angle(gs) => "<"@ + rendered_gargs(gs) + ">"@,
        PathArgsView::Parenthesized(ins, out) => "("@ + rendered_list(ins) + ")"@ + rendered_output(
            out,
        ),
    }
}

/// A comma-separated rendering of a list of generic arguments.
pub open spec fn rendered_gargs(gs: Seq<GenericArgView>) -> Seq<char>
    decreases gs,
{
    if gs.len() == 0 {
        Seq::empty()
    } else if gs.len() == 1 {
        rendered_garg(gs[0])
    } else {
        rendered_gargs(gs.drop_last()) + ","@ + rendered_garg(gs.last())
    }
}

/// The rendering of one generic argument; the arguments the analyzer never
/// recurses into render as `_`.
pub open spec fn rendered_garg(g: GenericArgView) -> Seq<char>
    decreases g,
{
    match g {
        GenericArgView::Type(t) => rendered_type(*t),
        GenericArgView::Other => "_"@,
    }
}

/// Appends one identity part, or the `<unknown>` fallback.
fn push_part(out: &mut String, part: &Option<String>)
    ensures
        final(out)@ == old(out)@ + part_or_unknown(view_of_part(*part)),
{
    match part {
        Option::Some(s) => out.append(s.as_str()),
        Option::None => out.append("<unknown>"),
    }
}

/// The shared symbol prefix for one trait under one package identity.
pub fn symbol_prefix(pkg: &PkgId, trait_name: &String) -> (r: String)
    ensures
        r@ == symbol_prefix_view(pkg@, trait_name@),
{
    let mut out = String::from_str("__extern_trait_");
    push_part(&mut out, &pkg.name);
    out.append("_");
    push_part(&mut out, &pkg.version);
    out.append("_");
    push_part(&mut out, &pkg.crate_name);
    out.append("_");
    out.append(trait_name.as_str());
    out
}

/// The exported name of one method's thunk.
pub fn method_symbol(prefix: &String, method: &String) -> (r: String)
    ensures
        r@ == method_symbol_view(prefix@, method@),
{
    let mut out = prefix.clone();
    out.append("_");
    out.append(method.as_str());
    out
}

/// The exported name of the destructor thunk.
pub fn drop_symbol(prefix: &String) -> (r: String)
    ensures
        r@ == drop_symbol_view(prefix@),
{
    let mut out = prefix.clone();
    out.append("_drop");
    out
}

/// The exported name of the reference-conversion thunk for one target.
pub fn as_ref_symbol(prefix: &String, target: &Type) -> (r: String)
    ensures
        r@ == as_ref_symbol_view(prefix@, target@),
{
    let mut out = prefix.clone();
    out.append("_AsRef_");
    push_rendered(&mut out, target);
    out
}

/// Appends the rendering of a type expression.
pub fn push_rendered(out: &mut String, t: &Type)
    ensures
        final(out)@ == old(out)@ + rendered_type(t@),
    decreases *t,
{
    match t {
        Type::Array(e) => {
            out.append("[");
            push_rendered(out, &**e);
            out.append("]");
        },
        Type::BareFn(ps, ret) => {
            out.append("fn(");
            push_rendered_list(out, ps);
            out.append(")");
            proof {
                assert(out@ =~= old(out)@ + "fn("@ + rendered_list(views_of_types(ps@)) + ")"@);
                assert(t@ == TypeView::BareFn(views_of_types(ps@), view_of_opt(*ret)));
                assert(rendered_type(t@) == "fn("@ + rendered_list(views_of_types(ps@)) + ")"@
                    + rendered_output(view_of_opt(*ret)));
            }
            match ret {
                Option::Some(rt) => {
                    out.append(" -> ");
                    push_rendered(out, &**rt);
                },
                Option::None => (),
            }
            proof {
                assert(out@ =~= old(out)@ + rendered_type(t@));
            }
        },
        Type::Group(e) => {
            push_rendered(out, &**e);
        },
        Type::Paren(e) => {
            out.append("(");
            push_rendered(out, &**e);
            out.append(")");
        },
        Type::Path(q, segs) => {
            match q {
                Option::Some(qt) => {
                    out.append("<");
                    push_rendered(out, &**qt);
                    out.append(">::");
                },
                Option::None => (),
            }
            push_rendered_segments(out, segs);
            proof {
                assert(out@ =~= old(out)@ + rendered_type(t@));
            }
        },
        Type::Ptr(m, e) => {
            if *m {
                out.append("*mut ");
            } else {
                out.append("*const ");
            }
            push_rendered(out, &**e);
        },
        Type::Reference(m, e) => {
            if *m {
                out.append("&mut ");
            } else {
                out.append("&");
            }
            push_rendered(out, &**e);
        },
        Type::Slice(e) => {
            out.append("[");
            push_rendered(out, &**e);
            out.append("]");
        },
        Type::Tuple(es) => {
            out.append("(");
            push_rendered_list(out, es);
            out.append(")");
        },
        Type::Other => {
            out.append("_");
        },
    }
}

/// Appends the comma-separated rendering of a list of types.
fn push_rendered_list(out: &mut String, v: &Vec<Type>)
    ensures
        final(out)@ == old(out)@ + rendered_list(views_of_types(v@)),
    decreases *v,
{
    let ghost vs = views_of_types(v@);
    proof {
        lemma_views_of_types_len(v@);
    }
    let mut i: usize = 0;
    while i < v.len()
        invariant
            0 <= i <= v.len(),
            vs == views_of_types(v@),
            vs.len() == v@.len(),
            out@ == old(out)@ + rendered_list(vs.take(i as int)),
        decreases v.len() - i,
    {
        if i > 0 {
            out.append(",");
        }
        proof {
            lemma_views_of_types_index(v@, i as int);
        }
        push_rendered(out, &v[i]);
        proof {
            lemma_rendered_list_step(vs, i as int);
        }
        i += 1;
    }
    proof {
        assert(vs.take(vs.len() as int) =~= vs);
    }
}

/// Appends the `::`-separated rendering of the segments of a path.
fn push_rendered_segments(out: &mut String, v: &Vec<Segment>)
    ensures
        final(out)@ == old(out)@ + rendered_segments(views_of_segments(v@)),
    decreases *v,
{
    let ghost vs = views_of_segments(v@);
    proof {
        lemma_views_of_segments_len(v@);
    }
    let mut i: usize = 0;
    while i < v.len()
        invariant
            0 <= i <= v.len(),
            vs == views_of_segments(v@),
            vs.len() == v@.len(),
            out@ == old(out)@ + rendered_segments(vs.take(i as int)),
        decreases v.len() - i,
    {
        if i > 0 {
            out.append("::");
        }
        proof {
            lemma_views_of_segments_index(v@, i as int);
        }
        push_rendered_segment(out, &v[i]);
        proof {
            lemma_rendered_segments_step(vs, i as int);
        }
        i += 1;
    }
    proof {
        assert(vs.take(vs.len() as int) =~= vs);
    }
}

/// Appends the rendering of one path segment.
fn push_rendered_segment(out: &mut String, s: &Segment)
    ensures
        final(out)@ == old(out)@ + rendered_segment(s@),
    decreases *s,
{
    out.append(s.ident.as_str());
    match &s.arguments {
        PathArgs::Bare => (),
        PathArgs::Angle(gs) => {
            out.append("<");
            push_rendered_gargs(out, gs);
            out.append(">");
        },
        PathArgs::Parenthesized(ins, ret) => {
            out.append("(");
            push_rendered_list(out, ins);
            out.append(")");
            match ret {
                Option::Some(rt) => {
                    out.append(" -> ");
                    push_rendered(out, &**rt);
                },
                Option::None => (),
            }
        },
    }
    proof {
        assert(out@ =~= old(out)@ + rendered_segment(s@));
    }
}

/// Appends the comma-separated rendering of a list of generic arguments.
fn push_rendered_gargs(out: &mut String, v: &Vec<GenericArg>)
    ensures
        final(out)@ == old(out)@ + rendered_gargs(views_of_gargs(v@)),
    decreases *v,
{
    let ghost vs = views_of_gargs(v@);
    proof {
        lemma_views_of_gargs_len(v@);
    }
    let mut i: usize = 0;
    while i < v.len()
        invariant
            0 <= i <= v.len(),
            vs == views_of_gargs(v@),
            vs.len() == v@.len(),
            out@ == old(out)@ + rendered_gargs(vs.take(i as int)),
        decreases v.len() - i,
    {
        if i > 0 {
            out.append(",");
        }
        proof {
            lemma_views_of_gargs_index(v@, i as int);
        }
        match &v[i] {
            GenericArg::Type(t) => push_rendered(out, &**t),
            GenericArg::Other => out.append("_"),
        }
        proof {
            lemma_rendered_gargs_step(vs, i as int);
        }
        i += 1;
    }
    proof {
        assert(vs.take(vs.len() as int) =~= vs);
    }
}

proof fn lemma_rendered_list_step(ts: Seq<TypeView>, i: int)
    requires
        0 <= i < ts.len(),
    ensures
        rendered_list(ts.take(i + 1)) == if i == 0 {
            rendered_type(ts[0])
        } else {
            rendered_list(ts.take(i)) + ","@ + rendered_type(ts[i])
        },
{
    let pre = ts.take(i + 1);
    assert(pre.len() == i + 1);
    if i == 0 {
        assert(pre[0] == ts[0]);
    } else {
        assert(pre.drop_last() =~= ts.take(i));
        assert(pre.last() == ts[i]);
    }
}

proof fn lemma_rendered_segments_step(ss: Seq<SegmentView>, i: int)
    requires
        0 <= i < ss.len(),
    ensures
        rendered_segments(ss.take(i + 1)) == if i == 0 {
            rendered_segment(ss[0])
        } else {
            rendered_segments(ss.take(i)) + "::"@ + rendered_segment(ss[i])
        },
{
    let pre = ss.take(i + 1);
    assert(pre.len() == i + 1);
    if i == 0 {
        assert(pre[0] == ss[0]);
    } else {
        assert(pre.drop_last() =~= ss.take(i));
        assert(pre.last() == ss[i]);
    }
}

proof fn lemma_rendered_gargs_step(gs: Seq<GenericArgView>, i: int)
    requires
        0 <= i < gs.len(),
    ensures
        rendered_gargs(gs.take(i + 1)) == if i == 0 {
            rendered_garg(gs[0])
        } else {
            rendered_gargs(gs.take(i)) + ","@ + rendered_garg(gs[i])
        },
{
    let pre = gs.take(i + 1);
    assert(pre.len() == i + 1);
    if i == 0 {
        assert(pre[0] == gs[0]);
    } else {
        assert(pre.drop_last() =~= gs.take(i));
        assert(pre.last() == gs[i]);
    }
}

} // verus!
