//! The type-expression model and the `Self`-usage analyzer.
//!
//! A [`Type`] is the shape of a Rust type expression as far as the analyzer
//! cares: the composite forms it recurses into are represented structurally,
//! and every other form is collapsed into the opaque leaf [`Type::Other`],
//! which by construction mentions no `Self`.  The ghost mirror [`TypeView`]
//! is the mathematical value of a type expression; every contract in the
//! crate speaks of views.

use vstd::prelude::*;

verus! {

/// One segment of a path type: an identifier and its argument list.
#[derive(Debug, PartialEq, Eq)]
pub struct Segment {
    pub ident: String,
    pub arguments: PathArgs,
}

/// The arguments attached to a path segment.
#[derive(Debug, PartialEq, Eq)]
pub enum PathArgs {
    /// No arguments at all, as in `Vec` inside `Vec<u8>`.
    Bare,
    /// Angle-bracketed arguments, as in `Vec<u8>`.
    Angle(Vec<GenericArg>),
    /// Parenthesized arguments, as in `Fn(u8) -> bool`.
    Parenthesized(Vec<Type>, Option<Box<Type>>),
}

/// One angle-bracketed generic argument.
#[derive(Debug, PartialEq, Eq)]
pub enum GenericArg {
    /// A type argument; the analyzer recurses into it.
    Type(Box<Type>),
    /// A lifetime, const or constraint argument; never recursed into.
    Other,
}

/// A type expression.
#[derive(Debug, PartialEq, Eq)]
pub enum Type {
    /// An array `[T; n]`; the length is never inspected.
    Array(Box<Type>),
    /// A bare function type `fn(..) -> ..`.
    BareFn(Vec<Type>, Option<Box<Type>>),
    /// An invisible group around a type.
    Group(Box<Type>),
    /// A parenthesized type.
    Paren(Box<Type>),
    /// A path type: an optional qualified-self type and the segments.
    Path(Option<Box<Type>>, Vec<Segment>),
    /// A raw pointer; the flag records whether it is `*mut`.
    Ptr(bool, Box<Type>),
    /// A reference; the flag records whether it is `&mut`.
    Reference(bool, Box<Type>),
    /// A slice `[T]`.
    Slice(Box<Type>),
    /// A tuple type.
    Tuple(Vec<Type>),
    /// Any other shape; it carries no structure and so mentions no `Self`.
    Other,
}

/// The mathematical value of a [`Segment`].
pub ghost struct SegmentView {
    pub ident: Seq<char>,
    pub arguments: PathArgsView,
}

/// The mathematical value of a [`PathArgs`].
pub ghost enum PathArgsView {
    Bare,
    Angle(Seq<GenericArgView>),
    Parenthesized(Seq<TypeView>, Option<Box<TypeView>>),
}

/// The mathematical value of a [`GenericArg`].
pub ghost enum GenericArgView {
    Type(Box<TypeView>),
    Other,
}

/// The mathematical value of a [`Type`].
pub ghost enum TypeView {
    Array(Box<TypeView>),
    BareFn(Seq<TypeView>, Option<Box<TypeView>>),
    Group(Box<TypeView>),
    Paren(Box<TypeView>),
    Path(Option<Box<TypeView>>, Seq<SegmentView>),
    Ptr(bool, Box<TypeView>),
    Reference(bool, Box<TypeView>),
    Slice(Box<TypeView>),
    Tuple(Seq<TypeView>),
    Other,
}

/// The views of the elements of a sequence of types.
pub open spec fn views_of_types(ts: Seq<Type>) -> Seq<TypeView>
    decreases ts,
{
    if ts.len() == 0 {
        Seq::empty()
    } else {
        seq![view_of_type(ts[0])] + views_of_types(ts.drop_first())
    }
}

/// The views of the elements of a sequence of segments.
pub open spec fn views_of_segments(ss: Seq<Segment>) -> Seq<SegmentView>
    decreases ss,
{
    if ss.len() == 0 {
        Seq::empty()
    } else {
        seq![view_of_segment(ss[0])] + views_of_segments(ss.drop_first())
    }
}

/// The views of the elements of a sequence of generic arguments.
pub open spec fn views_of_gargs(gs: Seq<GenericArg>) -> Seq<GenericArgView>
    decreases gs,
{
    if gs.len() == 0 {
        Seq::empty()
    } else {
        seq![view_of_garg(gs[0])] + views_of_gargs(gs.drop_first())
    }
}

/// The view of an optional boxed type.
pub open spec fn view_of_opt(o: Option<Box<Type>>) -> Option<Box<TypeView>>
    decreases o,
{
    match o {
        Option::Some(t) => Option::Some(Box::new(view_of_type(*t))),
        Option::None => Option::None,
    }
}

/// The view of a type expression.
pub open spec fn view_of_type(t: Type) -> TypeView
    decreases t,
{
    match t {
        Type::Array(e) => TypeView::Array(Box::new(view_of_type(*e))),
        Type::BareFn(ps, ret) => TypeView::BareFn(views_of_types(ps@), view_of_opt(ret)),
        Type::Group(e) => TypeView::Group(Box::new(view_of_type(*e))),
        Type::Paren(e) => TypeView::Paren(Box::new(view_of_type(*e))),
        Type::Path(q, segs) => TypeView::Path(
            match q {
                Option::Some(t) => Option::Some(Box::new(view_of_type(*t))),
                Option::None => Option::None,
            },
            views_of_segments(segs@),
        ),
        Type::Ptr(m, e) => TypeView::Ptr(m, Box::new(view_of_type(*e))),
        Type::Reference(m, e) => TypeView::Reference(m, Box::new(view_of_type(*e))),
        Type::Slice(e) => TypeView::Slice(Box::new(view_of_type(*e))),
        Type::Tuple(es) => TypeView::Tuple(views_of_types(es@)),
        Type::Other => TypeView::Other,
    }
}

/// The view of a path segment.
pub open spec fn view_of_segment(s: Segment) -> SegmentView
    decreases s,
{
    SegmentView { ident: s.ident@, arguments: view_of_path_args(s.arguments) }
}

/// The view of a segment's argument list.
pub open spec fn view_of_path_args(a: PathArgs) -> PathArgsView
    decreases a,
{
    match a {
        PathArgs::Bare => PathArgsView::Bare,
        PathArgs::Angle(gs) => PathArgsView::Angle(views_of_gargs(gs@)),
        PathArgs::Parenthesized(ins, out) => PathArgsView::Parenthesized(
            views_of_types(ins@),
            view_of_opt(out),
        ),
    }
}

/// The view of a generic argument.
pub open spec fn view_of_garg(g: GenericArg) -> GenericArgView
    decreases g,
{
    match g {
        GenericArg::Type(t) => GenericArgView::Type(Box::new(view_of_type(*t))),
        GenericArg::Other => GenericArgView::Other,
    }
}

impl View for Type {
    type V = TypeView;

    open spec fn view(&self) -> TypeView {
        view_of_type(*self)
    }
}

impl View for Segment {
    type V = SegmentView;

    open spec fn view(&self) -> SegmentView {
        view_of_segment(*self)
    }
}

impl View for PathArgs {
    type V = PathArgsView;

    open spec fn view(&self) -> PathArgsView {
        view_of_path_args(*self)
    }
}

impl View for GenericArg {
    type V = GenericArgView;

    open spec fn view(&self) -> GenericArgView {
        view_of_garg(*self)
    }
}

/// How a type expression uses the implementing type: as an owned value, as a
/// raw pointer, or as a reference whose flag records mutability.
#[derive(Clone, Copy, Debug, PartialEq, Eq)]
pub enum SelfKind {
    Value,
    Ptr,
    Ref(bool),
}

/// Whether a type expression is exactly the bare path `Self`.
pub open spec fn is_self_view(t: TypeView) -> bool {
    match t {
        TypeView::Path(q, segs) => {
            &&& q is None
            &&& segs.len() == 1
            &&& segs[0].ident == "Self"@
            &&& segs[0].arguments is Bare
        },
        _ => false,
    }
}

/// Whether some element of a sequence of types mentions `Self`.
pub open spec fn any_has_self(ts: Seq<TypeView>) -> bool
    decreases ts,
{
    exists|i: int| 0 <= i < ts.len() && has_self(#[trigger] ts[i])
}

/// Whether an optional return type mentions `Self`.
pub open spec fn opt_has_self(o: Option<Box<TypeView>>) -> bool
    decreases o,
{
    match o {
        Option::Some(t) => has_self(*t),
        Option::None => false,
    }
}

/// Whether some segment of a path mentions `Self`.
pub open spec fn any_segment_has_self(ss: Seq<SegmentView>) -> bool
    decreases ss,
{
    exists|i: int| 0 <= i < ss.len() && segment_has_self(#[trigger] ss[i])
}

/// Whether some generic argument mentions `Self`.
pub open spec fn any_garg_has_self(gs: Seq<GenericArgView>) -> bool
    decreases gs,
{
    exists|i: int| 0 <= i < gs.len() && garg_has_self(#[trigger] gs[i])
}

/// Whether a type expression mentions `Self` anywhere the analyzer looks:
/// array elements, bare-function parameters and return, grouping wrappers,
/// path qualified-self and generic arguments, pointer and reference targets,
/// slice elements and tuple elements.  The opaque leaf never does.
pub open spec fn has_self(t: TypeView) -> bool
    decreases t,
{
    match t {
        TypeView::Array(e) => has_self(*e),
        TypeView::BareFn(ps, ret) => any_has_self(ps) || opt_has_self(ret),
        TypeView::Group(e) => has_self(*e),
        TypeView::Paren(e) => has_self(*e),
        TypeView::Path(q, segs) => opt_has_self(q) || any_segment_has_self(segs),
        TypeView::Ptr(_, e) => has_self(*e),
        TypeView::Reference(_, e) => has_self(*e),
        TypeView::Slice(e) => has_self(*e),
        TypeView::Tuple(es) => any_has_self(es),
        TypeView::Other => false,
    }
}

/// Whether a path segment mentions `Self`: either its identifier is `Self`
/// itself, or a type inside its argument list mentions it.
pub open spec fn segment_has_self(s: SegmentView) -> bool
    decreases s,
{
    ||| s.ident == "Self"@
    ||| match s.arguments {
        PathArgsView::Bare => false,
        PathArgsView::Angle(gs) => any_garg_has_self(gs),
        PathArgsView::Parenthesized(ins, out) => any_has_self(ins) || opt_has_self(out),
    }
}

/// Whether a generic argument mentions `Self`; only type arguments can.
pub open spec fn garg_has_self(g: GenericArgView) -> bool
    decreases g,
{
    match g {
        GenericArgView::Type(t) => has_self(*t),
        GenericArgView::Other => false,
    }
}

/// The classification of a type expression against the exact shapes the
/// rewriter understands: `Self` itself, `*const Self` / `*mut Self`, and
/// `&Self` / `&mut Self`.  Anything else is unclassifiable.
pub open spec fn kind_of(t: TypeView) -> Option<SelfKind> {
    if is_self_view(t) {
        Option::Some(SelfKind::Value)
    } else {
        match t {
            TypeView::Ptr(_, e) => if is_self_view(*e) {
                Option::Some(SelfKind::Ptr)
            } else {
                Option::None
            },
            TypeView::Reference(m, e) => if is_self_view(*e) {
                Option::Some(SelfKind::Ref(m))
            } else {
                Option::None
            },
            _ => Option::None,
        }
    }
}

/// A type expression answers how it mentions the implementing type.
pub trait TypeExt {
    /// The mathematical answer to [`TypeExt::contains_self`].
    spec fn spec_contains_self(&self) -> bool;

    /// The mathematical answer to [`TypeExt::self_kind`].
    spec fn spec_self_kind(&self) -> Option<SelfKind>;

    /// Whether the expression mentions `Self` anywhere the analyzer looks.
    fn contains_self(&self) -> (r: bool)
        ensures
            r == self.spec_contains_self(),
    ;

    /// The classification of the expression, if it has one of the exact
    /// shapes the rewriter understands.
    fn self_kind(&self) -> (r: Option<SelfKind>)
        ensures
            r == self.spec_self_kind(),
    ;
}

impl TypeExt for Type {
    open spec fn spec_contains_self(&self) -> bool {
        has_self(self@)
    }

    open spec fn spec_self_kind(&self) -> Option<SelfKind> {
        kind_of(self@)
    }

    fn contains_self(&self) -> (r: bool) {
        type_contains_self(self)
    }

    fn self_kind(&self) -> (r: Option<SelfKind>) {
        if is_self_type(self) {
            Option::Some(SelfKind::Value)
        } else {
            match self {
                Type::Ptr(_, e) => if is_self_type(&**e) {
                    Option::Some(SelfKind::Ptr)
                } else {
                    Option::None
                },
                Type::Reference(m, e) => if is_self_type(&**e) {
                    Option::Some(SelfKind::Ref(*m))
                } else {
                    Option::None
                },
                _ => Option::None,
            }
        }
    }
}

/// Whether an identifier is the literal `Self`.
fn is_self_ident(id: &String) -> (r: bool)
    ensures
        r == (id@ == "Self"@),
{
    let probe = String::from_str("Self");
    *id == probe
}

/// Whether a type expression is exactly the bare path `Self`.
pub fn is_self_type(t: &Type) -> (r: bool)
    ensures
        r == is_self_view(t@),
{
    match t {
        Type::Path(q, segs) => {
            if q.is_none() && segs.len() == 1 {
                let seg = &segs[0];
                proof {
                    lemma_views_of_segments_len(segs@);
                    lemma_views_of_segments_index(segs@, 0);
                }
                let bare = matches!(seg.arguments, PathArgs::Bare);
                bare && is_self_ident(&seg.ident)
            } else {
                proof {
                    lemma_views_of_segments_len(segs@);
                }
                false
            }
        },
        _ => false,
    }
}

/// Whether a type expression mentions `Self`; the recursive worker behind
/// [`TypeExt::contains_self`].
pub fn type_contains_self(t: &Type) -> (r: bool)
    ensures
        r == has_self(t@),
    decreases *t,
{
    match t {
        Type::Array(e) => {
            let r = type_contains_self(&**e);
            proof {
                assert(has_self(t@) == has_self((**e)@));
            }
            r
        },
        Type::BareFn(ps, ret) => {
            let r = if list_contains_self(ps) {
                true
            } else {
                match ret {
                    Option::Some(rt) => type_contains_self(&**rt),
                    Option::None => false,
                }
            };
            proof {
                assert(has_self(t@) == (any_has_self(views_of_types(ps@)) || opt_has_self(
                    view_of_opt(*ret),
                )));
                assert(r == has_self(t@));
            }
            r
        },
        Type::Group(e) => {
            let r = type_contains_self(&**e);
            proof {
                assert(has_self(t@) == has_self((**e)@));
            }
            r
        },
        Type::Paren(e) => {
            let r = type_contains_self(&**e);
            proof {
                assert(has_self(t@) == has_self((**e)@));
            }
            r
        },
        Type::Path(q, segs) => {
            let q_has = match q {
                Option::Some(qt) => type_contains_self(&**qt),
                Option::None => false,
            };
            let r = if q_has {
                true
            } else {
                segments_contain_self(segs)
            };
            proof {
                assert(has_self(t@) == (opt_has_self(view_of_opt(*q)) || any_segment_has_self(
                    views_of_segments(segs@),
                )));
                assert(r == has_self(t@));
            }
            r
        },
        Type::Ptr(_, e) => {
            let r = type_contains_self(&**e);
            proof {
                assert(has_self(t@) == has_self((**e)@));
            }
            r
        },
        Type::Reference(_, e) => {
            let r = type_contains_self(&**e);
            proof {
                assert(has_self(t@) == has_self((**e)@));
            }
            r
        },
        Type::Slice(e) => {
            let r = type_contains_self(&**e);
            proof {
                assert(has_self(t@) == has_self((**e)@));
            }
            r
        },
        Type::Tuple(es) => {
            let r = list_contains_self(es);
            proof {
                assert(has_self(t@) == any_has_self(views_of_types(es@)));
            }
            r
        },
        Type::Other => false,
    }
}

/// Whether some element of a list of types mentions `Self`.
fn list_contains_self(v: &Vec<Type>) -> (r: bool)
    ensures
        r == any_has_self(views_of_types(v@)),
    decreases *v,
{
    let ghost vs = views_of_types(v@);
    proof {
        lemma_views_of_types_len(v@);
    }
    let mut i: usize = 0;
    while i < v.len()
        invariant
            0 <= i <= v.len(),
            vs == views_of_types(v@),
            vs.len() == v@.len(),
            forall|j: int| 0 <= j < i ==> !has_self(#[trigger] vs[j]),
        decreases v.len() - i,
    {
        proof {
            lemma_views_of_types_index(v@, i as int);
        }
        if type_contains_self(&v[i]) {
            proof {
                assert(has_self(vs[i as int]));
            }
            return true;
        }
        i += 1;
    }
    false
}

/// Whether some segment of a path mentions `Self`.
fn segments_contain_self(v: &Vec<Segment>) -> (r: bool)
    ensures
        r == any_segment_has_self(views_of_segments(v@)),
    decreases *v,
{
    let ghost vs = views_of_segments(v@);
    proof {
        lemma_views_of_segments_len(v@);
    }
    let mut i: usize = 0;
    while i < v.len()
        invariant
            0 <= i <= v.len(),
            vs == views_of_segments(v@),
            vs.len() == v@.len(),
            forall|j: int| 0 <= j < i ==> !segment_has_self(#[trigger] vs[j]),
        decreases v.len() - i,
    {
        proof {
            lemma_views_of_segments_index(v@, i as int);
        }
        if segment_contains_self(&v[i]) {
            proof {
                assert(segment_has_self(vs[i as int]));
            }
            return true;
        }
        i += 1;
    }
    false
}

/// Whether one path segment mentions `Self`.
fn segment_contains_self(s: &Segment) -> (r: bool)
    ensures
        r == segment_has_self(s@),
    decreases *s,
{
    if is_self_ident(&s.ident) {
        return true;
    }
    match &s.arguments {
        PathArgs::Bare => false,
        PathArgs::Angle(gs) => gargs_contain_self(gs),
        PathArgs::Parenthesized(ins, out) => {
            if list_contains_self(ins) {
                true
            } else {
                match out {
                    Option::Some(rt) => type_contains_self(&**rt),
                    Option::None => false,
                }
            }
        },
    }
}

/// Whether some generic argument of a segment mentions `Self`.
fn gargs_contain_self(v: &Vec<GenericArg>) -> (r: bool)
    ensures
        r == any_garg_has_self(views_of_gargs(v@)),
    decreases *v,
{
    let ghost vs = views_of_gargs(v@);
    proof {
        lemma_views_of_gargs_len(v@);
    }
    let mut i: usize = 0;
    while i < v.len()
        invariant
            0 <= i <= v.len(),
            vs == views_of_gargs(v@),
            vs.len() == v@.len(),
            forall|j: int| 0 <= j < i ==> !garg_has_self(#[trigger] vs[j]),
        decreases v.len() - i,
    {
        proof {
            lemma_views_of_gargs_index(v@, i as int);
        }
        let found = match &v[i] {
            GenericArg::Type(t) => type_contains_self(&**t),
            GenericArg::Other => false,
        };
        if found {
            proof {
                assert(garg_has_self(vs[i as int]));
            }
            return true;
        }
        i += 1;
    }
    false
}

impl Clone for Type {
    /// A deep copy with the same view.
    fn clone(&self) -> (r: Self)
        ensures
            r@ == self@,
    {
        clone_type(self)
    }
}

impl Clone for Segment {
    /// A deep copy with the same view.
    fn clone(&self) -> (r: Self)
        ensures
            r@ == self@,
    {
        clone_segment(self)
    }
}

/// A deep copy of a type expression with the same view.
pub fn clone_type(t: &Type) -> (r: Type)
    ensures
        r@ == t@,
    decreases *t,
{
    match t {
        Type::Array(e) => Type::Array(Box::new(clone_type(&**e))),
        Type::BareFn(ps, ret) => {
            let r = Type::BareFn(clone_types(ps), clone_opt_type(ret));
            proof {
                assert(r@ == t@);
            }
            r
        },
        Type::Group(e) => Type::Group(Box::new(clone_type(&**e))),
        Type::Paren(e) => Type::Paren(Box::new(clone_type(&**e))),
        Type::Path(q, segs) => {
            let r = Type::Path(clone_opt_type(q), clone_segments(segs));
            proof {
                assert(r@ == t@);
            }
            r
        },
        Type::Ptr(m, e) => Type::Ptr(*m, Box::new(clone_type(&**e))),
        Type::Reference(m, e) => Type::Reference(*m, Box::new(clone_type(&**e))),
        Type::Slice(e) => Type::Slice(Box::new(clone_type(&**e))),
        Type::Tuple(es) => {
            let r = Type::Tuple(clone_types(es));
            proof {
                assert(r@ == t@);
            }
            r
        },
        Type::Other => Type::Other,
    }
}

/// A deep copy of an optional boxed type with the same view.
pub(crate) fn clone_opt_type(o: &Option<Box<Type>>) -> (r: Option<Box<Type>>)
    ensures
        view_of_opt(r) == view_of_opt(*o),
    decreases *o,
{
    match o {
        Option::Some(e) => Option::Some(Box::new(clone_type(&**e))),
        Option::None => Option::None,
    }
}

/// A deep copy of a list of types, element views unchanged.
pub(crate) fn clone_types(v: &Vec<Type>) -> (r: Vec<Type>)
    ensures
        views_of_types(r@) == views_of_types(v@),
    decreases *v,
{
    let mut out: Vec<Type> = Vec::new();
    let mut i: usize = 0;
    while i < v.len()
        invariant
            0 <= i <= v.len(),
            out@.len() == i,
            forall|j: int| 0 <= j < i ==> view_of_type(#[trigger] out@[j]) == view_of_type(v@[j]),
        decreases v.len() - i,
    {
        out.push(clone_type(&v[i]));
        i += 1;
    }
    proof {
        lemma_views_of_types_len(out@);
        lemma_views_of_types_len(v@);
        assert forall|j: int| 0 <= j < v@.len() implies views_of_types(out@)[j] == views_of_types(
            v@,
        )[j] by {
            lemma_views_of_types_index(out@, j);
            lemma_views_of_types_index(v@, j);
        }
        assert(views_of_types(out@) =~= views_of_types(v@));
    }
    out
}

/// A deep copy of a list of path segments, element views unchanged.
pub(crate) fn clone_segments(v: &Vec<Segment>) -> (r: Vec<Segment>)
    ensures
        views_of_segments(r@) == views_of_segments(v@),
    decreases *v,
{
    let mut out: Vec<Segment> = Vec::new();
    let mut i: usize = 0;
    while i < v.len()
        invariant
            0 <= i <= v.len(),
            out@.len() == i,
            forall|j: int| 0 <= j < i ==> view_of_segment(#[trigger] out@[j]) == view_of_segment(
                v@[j],
            ),
        decreases v.len() - i,
    {
        out.push(clone_segment(&v[i]));
        i += 1;
    }
    proof {
        lemma_views_of_segments_len(out@);
        lemma_views_of_segments_len(v@);
        assert forall|j: int| 0 <= j < v@.len() implies views_of_segments(out@)[j]
            == views_of_segments(v@)[j] by {
            lemma_views_of_segments_index(out@, j);
            lemma_views_of_segments_index(v@, j);
        }
        assert(views_of_segments(out@) =~= views_of_segments(v@));
    }
    out
}

/// A deep copy of one path segment with the same view.
fn clone_segment(s: &Segment) -> (r: Segment)
    ensures
        r@ == s@,
    decreases *s,
{
    Segment { ident: s.ident.clone(), arguments: clone_path_args(&s.arguments) }
}

/// A deep copy of a segment's argument list with the same view.
fn clone_path_args(a: &PathArgs) -> (r: PathArgs)
    ensures
        r@ == a@,
    decreases *a,
{
    match a {
        PathArgs::Bare => PathArgs::Bare,
        PathArgs::Angle(gs) => {
            let r = PathArgs::Angle(clone_gargs(gs));
            proof {
                assert(r@ == a@);
            }
            r
        },
        PathArgs::Parenthesized(ins, out) => {
            let r = PathArgs::Parenthesized(clone_types(ins), clone_opt_type(out));
            proof {
                assert(r@ == a@);
            }
            r
        },
    }
}

/// A deep copy of a list of generic arguments, element views unchanged.
fn clone_gargs(v: &Vec<GenericArg>) -> (r: Vec<GenericArg>)
    ensures
        views_of_gargs(r@) == views_of_gargs(v@),
    decreases *v,
{
    let mut out: Vec<GenericArg> = Vec::new();
    let mut i: usize = 0;
    while i < v.len()
        invariant
            0 <= i <= v.len(),
            out@.len() == i,
            forall|j: int| 0 <= j < i ==> view_of_garg(#[trigger] out@[j]) == view_of_garg(v@[j]),
        decreases v.len() - i,
    {
        let g = match &v[i] {
            GenericArg::Type(t) => GenericArg::Type(Box::new(clone_type(&**t))),
            GenericArg::Other => GenericArg::Other,
        };
        out.push(g);
        i += 1;
    }
    proof {
        lemma_views_of_gargs_len(out@);
        lemma_views_of_gargs_len(v@);
        assert forall|j: int| 0 <= j < v@.len() implies views_of_gargs(out@)[j] == views_of_gargs(
            v@,
        )[j] by {
            lemma_views_of_gargs_index(out@, j);
            lemma_views_of_gargs_index(v@, j);
        }
        assert(views_of_gargs(out@) =~= views_of_gargs(v@));
    }
    out
}

pub broadcast proof fn lemma_views_of_types_len(ts: Seq<Type>)
    ensures
        #[trigger] views_of_types(ts).len() == ts.len(),
    decreases ts,
{
    if ts.len() > 0 {
        lemma_views_of_types_len(ts.drop_first());
    }
}

pub broadcast proof fn lemma_views_of_types_index(ts: Seq<Type>, i: int)
    requires
        0 <= i < ts.len(),
    ensures
        #[trigger] views_of_types(ts)[i] == view_of_type(ts[i]),
    decreases ts,
{
    lemma_views_of_types_len(ts);
    if i > 0 {
        lemma_views_of_types_index(ts.drop_first(), i - 1);
    }
}

pub broadcast proof fn lemma_views_of_segments_len(ss: Seq<Segment>)
    ensures
        #[trigger] views_of_segments(ss).len() == ss.len(),
    decreases ss,
{
    if ss.len() > 0 {
        lemma_views_of_segments_len(ss.drop_first());
    }
}

pub broadcast proof fn lemma_views_of_segments_index(ss: Seq<Segment>, i: int)
    requires
        0 <= i < ss.len(),
    ensures
        #[trigger] views_of_segments(ss)[i] == view_of_segment(ss[i]),
    decreases ss,
{
    lemma_views_of_segments_len(ss);
    if i > 0 {
        lemma_views_of_segments_index(ss.drop_first(), i - 1);
    }
}

pub broadcast proof fn lemma_views_of_gargs_len(gs: Seq<GenericArg>)
    ensures
        #[trigger] views_of_gargs(gs).len() == gs.len(),
    decreases gs,
{
    if gs.len() > 0 {
        lemma_views_of_gargs_len(gs.drop_first());
    }
}

pub broadcast proof fn lemma_views_of_gargs_index(gs: Seq<GenericArg>, i: int)
    requires
        0 <= i < gs.len(),
    ensures
        #[trigger] views_of_gargs(gs)[i] == view_of_garg(gs[i]),
    decreases gs,
{
    lemma_views_of_gargs_len(gs);
    if i > 0 {
        lemma_views_of_gargs_index(gs.drop_first(), i - 1);
    }
}

} // verus!
