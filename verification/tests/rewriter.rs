use extern_trait::error::Error;
use extern_trait::sig::{BoundarySig, Param, Signature, rewrite_signature};
use extern_trait::ty::{GenericArg, PathArgs, Segment, Type};

fn seg2(name: &str) -> Segment {
    Segment { ident: String::from(name), arguments: PathArgs::Bare }
}

fn path2(name: &str) -> Type {
    Type::Path(None, vec![seg2(name)])
}

fn self_ty2() -> Type {
    path2("Self")
}

fn vec_of_self() -> Type {
    Type::Path(
        None,
        vec![Segment {
            ident: String::from("Vec"),
            arguments: PathArgs::Angle(vec![GenericArg::Type(Box::new(self_ty2()))]),
        }],
    )
}

fn sig_of(name: &str, inputs: Vec<Param>, output: Option<Type>) -> Signature {
    Signature { ident: String::from(name), inputs, output }
}

#[test]
fn signature_without_self_is_unchanged() {
    let s = sig_of(
        "compute",
        vec![
            Param { receiver: false, ty: path2("usize") },
            Param { receiver: false, ty: Type::Reference(false, Box::new(path2("str"))) },
        ],
        Some(path2("bool")),
    );
    let b = rewrite_signature(&s, &path2("CounterProxy")).unwrap();
    let expected = BoundarySig {
        inputs: vec![
            path2("usize"),
            Type::Reference(false, Box::new(path2("str"))),
        ],
        output: Some(path2("bool")),
    };
    assert_eq!(b, expected);
}

#[test]
fn receiver_mutability_survives_the_rewrite() {
    let shared = sig_of(
        "peek",
        vec![Param { receiver: true, ty: Type::Reference(false, Box::new(self_ty2())) }],
        None,
    );
    let exclusive = sig_of(
        "poke",
        vec![Param { receiver: true, ty: Type::Reference(true, Box::new(self_ty2())) }],
        None,
    );
    let proxy = path2("CounterProxy");
    let b_shared = rewrite_signature(&shared, &proxy).unwrap();
    let b_exclusive = rewrite_signature(&exclusive, &proxy).unwrap();
    assert_eq!(b_shared.inputs, vec![Type::Reference(false, Box::new(proxy.clone()))]);
    assert_eq!(b_exclusive.inputs, vec![Type::Reference(true, Box::new(proxy.clone()))]);
}

#[test]
fn pointer_receiver_keeps_constness() {
    let s = sig_of(
        "peek_raw",
        vec![Param { receiver: false, ty: Type::Ptr(false, Box::new(self_ty2())) }],
        None,
    );
    let m = sig_of(
        "poke_raw",
        vec![Param { receiver: false, ty: Type::Ptr(true, Box::new(self_ty2())) }],
        None,
    );
    let proxy = path2("CounterProxy");
    assert_eq!(
        rewrite_signature(&s, &proxy).unwrap().inputs,
        vec![Type::Ptr(false, Box::new(proxy.clone()))]
    );
    assert_eq!(
        rewrite_signature(&m, &proxy).unwrap().inputs,
        vec![Type::Ptr(true, Box::new(proxy.clone()))]
    );
}

#[test]
fn owned_return_becomes_the_proxy() {
    let s = sig_of("new", vec![], Some(self_ty2()));
    let b = rewrite_signature(&s, &path2("CounterProxy")).unwrap();
    assert_eq!(b.inputs, Vec::<Type>::new());
    assert_eq!(b.output, Some(path2("CounterProxy")));
}

#[test]
fn self_by_value_parameter_is_rejected() {
    let s = sig_of(
        "consume",
        vec![Param { receiver: true, ty: self_ty2() }],
        Some(path2("u64")),
    );
    let e = rewrite_signature(&s, &path2("CounterProxy")).unwrap_err();
    assert_eq!(e, Error::SelfByValueArg);
    assert_eq!(
        e.message(),
        "Passing `Self` by value is not supported for #[extern_trait] yet"
    );
}

#[test]
fn unclassifiable_parameter_is_rejected() {
    let s = sig_of(
        "absorb",
        vec![Param { receiver: false, ty: vec_of_self() }],
        None,
    );
    let e = rewrite_signature(&s, &path2("CounterProxy")).unwrap_err();
    assert_eq!(e, Error::TooComplexArg);
    assert_eq!(e.message(), "Too complex argument type for #[extern_trait]");
}

#[test]
fn unclassifiable_return_is_rejected_first() {
    // The return position is examined before any parameter, so its error
    // wins even when a parameter is also bad.
    let s = sig_of(
        "emit",
        vec![Param { receiver: true, ty: self_ty2() }],
        Some(vec_of_self()),
    );
    let e = rewrite_signature(&s, &path2("CounterProxy")).unwrap_err();
    assert_eq!(e, Error::TooComplexReturn);
    assert_eq!(e.message(), "Too complex return type for #[extern_trait]");
}
