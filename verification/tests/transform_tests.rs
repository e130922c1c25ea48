use trait_defaults::registry::Registry;
use trait_defaults::transform::{default_trait_impl, trait_impl, TransformError};

/// Parse a rendered implementation block back apart with syn, yielding
/// the trait identifier, the self-type identifier, and each member's
/// identifier and source text in order.
fn dissect(source: &str) -> (String, String, Vec<(String, String)>) {
    let item: syn::ItemImpl = syn::parse_str(source).expect("output must re-parse");
    let trait_ident = item
        .trait_
        .as_ref()
        .expect("output must reference a trait")
        .1
        .get_ident()
        .expect("output trait must be a simple identifier")
        .to_string();
    let self_ident = match &*item.self_ty {
        syn::Type::Path(p) => p.path.get_ident().expect("simple self type").to_string(),
        _ => panic!("output self type must be a simple identifier"),
    };
    let members = item
        .items
        .iter()
        .map(|it| {
            let ident = match it {
                syn::ImplItem::Method(m) => m.sig.ident.to_string(),
                syn::ImplItem::Const(c) => c.ident.to_string(),
                syn::ImplItem::Type(t) => t.ident.to_string(),
                _ => panic!("unexpected member kind in output"),
            };
            let text = quote::ToTokens::to_token_stream(it).to_string();
            (ident, text)
        })
        .collect();
    (trait_ident, self_ident, members)
}

fn car_registry() -> Registry {
    let mut registry = Registry::new();
    let out = default_trait_impl(
        &mut registry,
        "impl Car for NewCar { fn get_mileage(&self) -> Option<usize> { Some(6000) } fn has_bluetooth(&self) -> bool { true } }",
    );
    assert_eq!(out, Ok(String::new()));
    registry
}

#[test]
fn register_emits_nothing() {
    let mut registry = Registry::new();
    let out = default_trait_impl(
        &mut registry,
        "impl Greeter for Friendly { fn greet(&self) -> String { String::from(\"hi\") } }",
    );
    assert_eq!(out, Ok(String::new()));
}

#[test]
fn apply_merges_missing_member() {
    let registry = car_registry();
    let out = trait_impl(
        &registry,
        "impl NewCar for NewOldFashionedCar { fn has_bluetooth(&self) -> bool { false } }",
    )
    .expect("apply must succeed");
    let (trait_ident, self_ident, members) = dissect(&out);
    assert_eq!(trait_ident, "Car");
    assert_eq!(self_ident, "NewOldFashionedCar");
    assert_eq!(members.len(), 2);
    assert_eq!(members[0].0, "has_bluetooth");
    assert!(members[0].1.contains("false"));
    assert_eq!(members[1].0, "get_mileage");
    assert!(members[1].1.contains("6000"));
}

#[test]
fn apply_merges_other_member() {
    let registry = car_registry();
    let out = trait_impl(
        &registry,
        "impl NewCar for WellUsedNewCar { fn get_mileage(&self) -> Option<usize> { Some(100000) } }",
    )
    .expect("apply must succeed");
    let (trait_ident, self_ident, members) = dissect(&out);
    assert_eq!(trait_ident, "Car");
    assert_eq!(self_ident, "WellUsedNewCar");
    assert_eq!(members.len(), 2);
    assert_eq!(members[0].0, "get_mileage");
    assert!(members[0].1.contains("100000"));
    assert_eq!(members[1].0, "has_bluetooth");
    assert!(members[1].1.contains("true"));
}

#[test]
fn full_override_appends_nothing() {
    let registry = car_registry();
    let out = trait_impl(
        &registry,
        "impl NewCar for RebuiltCar { fn get_mileage(&self) -> Option<usize> { Some(1) } fn has_bluetooth(&self) -> bool { false } }",
    )
    .expect("apply must succeed");
    let (_, _, members) = dissect(&out);
    assert_eq!(members.len(), 2);
    assert!(members[0].1.contains("Some (1)") || members[0].1.contains("Some(1)"));
    assert!(members[1].1.contains("false"));
}

#[test]
fn override_member_appears_once() {
    let registry = car_registry();
    let out = trait_impl(
        &registry,
        "impl NewCar for NewOldFashionedCar { fn has_bluetooth(&self) -> bool { false } }",
    )
    .expect("apply must succeed");
    let (_, _, members) = dissect(&out);
    let bluetooth = members.iter().filter(|(id, _)| id == "has_bluetooth").count();
    let mileage = members.iter().filter(|(id, _)| id == "get_mileage").count();
    assert_eq!(bluetooth, 1);
    assert_eq!(mileage, 1);
    assert!(members.iter().find(|(id, _)| id == "has_bluetooth").unwrap().1.contains("false"));
}

#[test]
fn unregistered_alias_is_fatal() {
    let registry = Registry::new();
    let out = trait_impl(&registry, "impl NoSuchAlias for Anything { fn f(&self) -> bool { true } }");
    assert_eq!(out, Err(TransformError::NoRegisteredDefault));
}

#[test]
fn second_registration_wins() {
    let mut registry = Registry::new();
    default_trait_impl(
        &mut registry,
        "impl Car for NewCar { fn get_mileage(&self) -> Option<usize> { Some(1) } }",
    )
    .unwrap();
    default_trait_impl(
        &mut registry,
        "impl Car for NewCar { fn has_bluetooth(&self) -> bool { true } }",
    )
    .unwrap();
    let out = trait_impl(&registry, "impl NewCar for FreshCar { }").expect("apply must succeed");
    let (_, _, members) = dissect(&out);
    assert_eq!(members.len(), 1);
    assert_eq!(members[0].0, "has_bluetooth");
}

#[test]
fn appended_defaults_keep_registration_order() {
    let mut registry = Registry::new();
    default_trait_impl(
        &mut registry,
        "impl Wide for Alias { fn a(&self) -> u8 { 1 } fn b(&self) -> u8 { 2 } fn c(&self) -> u8 { 3 } fn d(&self) -> u8 { 4 } }",
    )
    .unwrap();
    let out = trait_impl(&registry, "impl Alias for Thing { fn c(&self) -> u8 { 30 } }")
        .expect("apply must succeed");
    let (_, _, members) = dissect(&out);
    let idents: Vec<&str> = members.iter().map(|(id, _)| id.as_str()).collect();
    assert_eq!(idents, vec!["c", "a", "b", "d"]);
}

#[test]
fn trait_reference_is_rewritten() {
    let registry = car_registry();
    let out = trait_impl(&registry, "impl NewCar for AnyCar { }").expect("apply must succeed");
    let (trait_ident, _, _) = dissect(&out);
    assert_eq!(trait_ident, "Car");
    assert!(!out.contains("NewCar"));
}

#[test]
fn const_and_type_members_are_merged() {
    let mut registry = Registry::new();
    default_trait_impl(
        &mut registry,
        "impl Store for Boxed { const CAPACITY: usize = 8; type Item = u64; fn take(&self) -> u64 { 0 } }",
    )
    .unwrap();
    let out = trait_impl(&registry, "impl Boxed for Crate { const CAPACITY: usize = 16; }")
        .expect("apply must succeed");
    let (trait_ident, _, members) = dissect(&out);
    assert_eq!(trait_ident, "Store");
    let idents: Vec<&str> = members.iter().map(|(id, _)| id.as_str()).collect();
    assert_eq!(idents, vec!["CAPACITY", "Item", "take"]);
    assert!(members[0].1.contains("16"));
}

#[test]
fn opaque_member_in_default_is_fatal() {
    let mut registry = Registry::new();
    // a value-less associated constant is left uninterpreted by the parser
    default_trait_impl(&mut registry, "impl Store for Alias { const N: usize; }").unwrap();
    let out = trait_impl(&registry, "impl Alias for Thing { }");
    assert_eq!(out, Err(TransformError::UnsupportedDefaultMember));
}

#[test]
fn macro_member_in_default_is_fatal() {
    let mut registry = Registry::new();
    default_trait_impl(&mut registry, "impl Loud for Alias { speak!(); fn f(&self) -> u8 { 1 } }")
        .unwrap();
    let out = trait_impl(&registry, "impl Alias for Thing { }");
    assert_eq!(out, Err(TransformError::UnsupportedDefaultMember));
}

#[test]
fn register_rejects_qualified_trait_path() {
    let mut registry = Registry::new();
    let out = default_trait_impl(
        &mut registry,
        "impl vehicles::Car for NewCar { fn has_bluetooth(&self) -> bool { true } }",
    );
    assert_eq!(out, Err(TransformError::InvalidSyntax));
    // the failed registration must have left nothing behind
    let apply = trait_impl(&registry, "impl NewCar for Anything { }");
    assert_eq!(apply, Err(TransformError::NoRegisteredDefault));
}

#[test]
fn register_rejects_generic_alias() {
    let mut registry = Registry::new();
    let out = default_trait_impl(
        &mut registry,
        "impl Car for NewCar<T> { fn has_bluetooth(&self) -> bool { true } }",
    );
    assert_eq!(out, Err(TransformError::InvalidSyntax));
}

#[test]
fn register_rejects_inherent_impl() {
    let mut registry = Registry::new();
    let out = default_trait_impl(&mut registry, "impl NewCar { fn f(&self) -> u8 { 1 } }");
    assert_eq!(out, Err(TransformError::InvalidSyntax));
}

#[test]
fn register_rejects_malformed_text() {
    let mut registry = Registry::new();
    let out = default_trait_impl(&mut registry, "impl impl impl");
    assert_eq!(out, Err(TransformError::InvalidSyntax));
}

#[test]
fn apply_rejects_qualified_self_type() {
    let registry = car_registry();
    let out = trait_impl(&registry, "impl NewCar for cars::OldCar { }");
    assert_eq!(out, Err(TransformError::InvalidSyntax));
}

#[test]
fn diagnostics_carry_fixed_text() {
    assert_eq!(
        TransformError::InvalidSyntax.message(),
        "`default_trait_impl` expects to be given a syntactially valid trait implementation"
    );
    assert_eq!(
        TransformError::NoRegisteredDefault.message(),
        "`trait_impl` expects there to be a `default_trait_impl` for the trait it implements"
    );
    assert_eq!(
        TransformError::UnsupportedDefaultMember.message(),
        "macros invocation within default impl blocks are not supported"
    );
}

#[test]
fn output_is_complete_source_text() {
    let registry = car_registry();
    let out = trait_impl(
        &registry,
        "impl NewCar for NewOldFashionedCar { fn has_bluetooth(&self) -> bool { false } }",
    )
    .expect("apply must succeed");
    assert!(out.starts_with("impl Car for NewOldFashionedCar { "));
    assert!(out.ends_with("}"));
}
