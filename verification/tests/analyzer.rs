use extern_trait::ty::{GenericArg, PathArgs, Segment, SelfKind, Type, TypeExt};

fn seg(name: &str) -> Segment {
    Segment { ident: String::from(name), arguments: PathArgs::Bare }
}

fn path(name: &str) -> Type {
    Type::Path(None, vec![seg(name)])
}

fn self_ty() -> Type {
    path("Self")
}

fn generic(name: &str, arg: Type) -> Type {
    Type::Path(
        None,
        vec![Segment {
            ident: String::from(name),
            arguments: PathArgs::Angle(vec![GenericArg::Type(Box::new(arg))]),
        }],
    )
}

#[test]
fn classify_owned_value() {
    assert_eq!(self_ty().self_kind(), Some(SelfKind::Value));
    assert!(self_ty().contains_self());
}

#[test]
fn classify_pointers_and_references() {
    let const_ptr = Type::Ptr(false, Box::new(self_ty()));
    let mut_ptr = Type::Ptr(true, Box::new(self_ty()));
    let shared = Type::Reference(false, Box::new(self_ty()));
    let exclusive = Type::Reference(true, Box::new(self_ty()));
    assert_eq!(const_ptr.self_kind(), Some(SelfKind::Ptr));
    assert_eq!(mut_ptr.self_kind(), Some(SelfKind::Ptr));
    assert_eq!(shared.self_kind(), Some(SelfKind::Ref(false)));
    assert_eq!(exclusive.self_kind(), Some(SelfKind::Ref(true)));
}

#[test]
fn plain_types_are_not_self() {
    let plain = path("usize");
    assert_eq!(plain.self_kind(), None);
    assert!(!plain.contains_self());
    assert!(!Type::Other.contains_self());
}

#[test]
fn nested_self_is_detected_but_unclassifiable() {
    let vec_self = generic("Vec", self_ty());
    assert!(vec_self.contains_self());
    assert_eq!(vec_self.self_kind(), None);

    let ref_vec_self = Type::Reference(false, Box::new(generic("Vec", self_ty())));
    assert!(ref_vec_self.contains_self());
    assert_eq!(ref_vec_self.self_kind(), None);
}

#[test]
fn recursion_reaches_every_composite_shape() {
    let in_array = Type::Array(Box::new(self_ty()));
    let in_slice = Type::Slice(Box::new(self_ty()));
    let in_tuple = Type::Tuple(vec![path("u8"), self_ty()]);
    let in_fn_arg = Type::BareFn(vec![self_ty()], None);
    let in_fn_ret = Type::BareFn(vec![], Some(Box::new(self_ty())));
    let in_group = Type::Group(Box::new(self_ty()));
    let in_paren = Type::Paren(Box::new(self_ty()));
    let in_qself = Type::Path(Some(Box::new(self_ty())), vec![seg("Output")]);
    let in_parenthesized = Type::Path(
        None,
        vec![Segment {
            ident: String::from("Fn"),
            arguments: PathArgs::Parenthesized(vec![self_ty()], None),
        }],
    );
    for t in [
        in_array,
        in_slice,
        in_tuple,
        in_fn_arg,
        in_fn_ret,
        in_group,
        in_paren,
        in_qself,
        in_parenthesized,
    ] {
        assert!(t.contains_self());
        assert_eq!(t.self_kind(), None);
    }
}

#[test]
fn self_as_later_path_segment_counts() {
    let assoc = Type::Path(None, vec![seg("Self"), seg("Output")]);
    assert!(assoc.contains_self());
    assert_eq!(assoc.self_kind(), None);
}

#[test]
fn lifetime_arguments_are_ignored() {
    let t = Type::Path(
        None,
        vec![Segment {
            ident: String::from("Ref"),
            arguments: PathArgs::Angle(vec![GenericArg::Other]),
        }],
    );
    assert!(!t.contains_self());
}
