use extern_trait::symbol::{PkgId, as_ref_symbol, drop_symbol, method_symbol, symbol_prefix};
use extern_trait::ty::{PathArgs, Segment, Type};

fn pkg(name: &str, version: &str, crate_name: &str) -> PkgId {
    PkgId {
        name: Some(String::from(name)),
        version: Some(String::from(version)),
        crate_name: Some(String::from(crate_name)),
    }
}

fn path3(name: &str) -> Type {
    Type::Path(None, vec![Segment { ident: String::from(name), arguments: PathArgs::Bare }])
}

#[test]
fn prefix_embeds_the_package_identity() {
    let p = symbol_prefix(&pkg("gadget", "1.2.3", "gadget"), &String::from("Widget"));
    assert_eq!(p, "__extern_trait_gadget_1.2.3_gadget_Widget");
}

#[test]
fn missing_identity_parts_fall_back_to_unknown() {
    let p = symbol_prefix(
        &PkgId { name: None, version: None, crate_name: None },
        &String::from("Widget"),
    );
    assert_eq!(p, "__extern_trait_<unknown>_<unknown>_<unknown>_Widget");
}

#[test]
fn method_and_drop_names_share_the_prefix() {
    let p = symbol_prefix(&pkg("gadget", "1.2.3", "gadget"), &String::from("Widget"));
    assert_eq!(method_symbol(&p, &String::from("refresh")),
        "__extern_trait_gadget_1.2.3_gadget_Widget_refresh");
    assert_eq!(drop_symbol(&p), "__extern_trait_gadget_1.2.3_gadget_Widget_drop");
}

#[test]
fn distinct_methods_get_distinct_names() {
    let p = symbol_prefix(&pkg("gadget", "1.2.3", "gadget"), &String::from("Widget"));
    let a = method_symbol(&p, &String::from("new"));
    let b = method_symbol(&p, &String::from("count"));
    assert_ne!(a, b);
}

#[test]
fn conversion_symbols_render_the_target_type() {
    let p = symbol_prefix(&pkg("gadget", "1.2.3", "gadget"), &String::from("Widget"));
    assert_eq!(
        as_ref_symbol(&p, &path3("str")),
        "__extern_trait_gadget_1.2.3_gadget_Widget_AsRef_str"
    );
    let slice_u8 = Type::Slice(Box::new(path3("u8")));
    assert_eq!(
        as_ref_symbol(&p, &slice_u8),
        "__extern_trait_gadget_1.2.3_gadget_Widget_AsRef_[u8]"
    );
    let ref_str = Type::Reference(false, Box::new(path3("str")));
    assert_eq!(
        as_ref_symbol(&p, &ref_str),
        "__extern_trait_gadget_1.2.3_gadget_Widget_AsRef_&str"
    );
}
