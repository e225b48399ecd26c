use rpc_interface::registry::{build, Declaration, Param, ParamShape, RootOptions, ValidationError};
use rpc_interface::types::TypeRef;

fn text(s: &str) -> String {
    s.to_string()
}

fn decl(name: &str, params: Vec<Param>, result: Option<TypeRef>) -> Declaration {
    Declaration {
        fn_name: text(name),
        rpc_name_override: None,
        notification: false,
        positional: false,
        params,
        result,
        docs: None,
    }
}

fn param(name: &str, ty: TypeRef) -> Param {
    Param { name: Some(text(name)), ty }
}

fn root() -> RootOptions {
    RootOptions { all_positional: false, ts_outdir: Some(text("typescript/generated")), schema_outdir: None }
}

#[test]
fn duplicate_wire_name_is_refused() {
    let mut second = decl("other", vec![], None);
    second.rpc_name_override = Some(text("ping"));
    let r = build(vec![decl("ping", vec![], None), second], root());
    match r {
        Err(ValidationError::DuplicateName(n)) => assert_eq!(n, "ping"),
        other => panic!("unexpected {:?}", other),
    }
}

#[test]
fn names_differing_in_case_are_distinct() {
    let r = build(vec![decl("ping", vec![], None), decl("Ping", vec![], None)], root());
    assert_eq!(r.unwrap().methods.len(), 2);
}

#[test]
fn notification_with_result_is_refused() {
    let mut d = decl("notify", vec![], Some(TypeRef::Int));
    d.notification = true;
    match build(vec![d], root()) {
        Err(ValidationError::NotificationResult(n)) => assert_eq!(n, "notify"),
        other => panic!("unexpected {:?}", other),
    }
}

#[test]
fn notification_with_unit_result_has_no_result() {
    let mut d = decl("notify", vec![], Some(TypeRef::Unit));
    d.notification = true;
    let reg = build(vec![d], root()).unwrap();
    assert!(reg.methods[0].is_notification);
    assert!(reg.methods[0].result.is_none());
}

#[test]
fn request_without_result_returns_unit() {
    let reg = build(vec![decl("ping", vec![], None)], root()).unwrap();
    assert!(matches!(reg.methods[0].result, Some(TypeRef::Unit)));
}

#[test]
fn structured_with_two_params_is_refused() {
    let d = decl("add", vec![param("a", TypeRef::Int), param("b", TypeRef::Int)], None);
    match build(vec![d], root()) {
        Err(ValidationError::StructuredArity(n)) => assert_eq!(n, "add"),
        other => panic!("unexpected {:?}", other),
    }
}

#[test]
fn positional_override_allows_two_params() {
    let mut d = decl("add", vec![param("a", TypeRef::Int), param("b", TypeRef::Int)], None);
    d.positional = true;
    let reg = build(vec![d], root()).unwrap();
    assert!(matches!(&reg.methods[0].params, ParamShape::Positional(ps) if ps.len() == 2));
}

#[test]
fn all_positional_makes_every_method_positional() {
    let d = decl("add", vec![param("a", TypeRef::Int), param("b", TypeRef::Int)], None);
    let mut options = root();
    options.all_positional = true;
    let reg = build(vec![d], options).unwrap();
    assert!(matches!(&reg.methods[0].params, ParamShape::Positional(_)));
}

#[test]
fn no_output_target_is_refused() {
    let options = RootOptions { all_positional: false, ts_outdir: None, schema_outdir: None };
    let r = build(vec![decl("ping", vec![], None)], options);
    assert!(matches!(r, Err(ValidationError::NoOutputTarget)));
}

#[test]
fn schema_alone_is_an_output_target() {
    let options = RootOptions { all_positional: false, ts_outdir: None, schema_outdir: Some(text("openrpc")) };
    let reg = build(vec![decl("ping", vec![], None)], options).unwrap();
    assert!(reg.schema);
    assert!(!reg.client_stub);
}

#[test]
fn first_fault_in_declaration_order_is_reported() {
    let bad_arity = decl("add", vec![param("a", TypeRef::Int), param("b", TypeRef::Int)], None);
    let mut bad_note = decl("notify", vec![], Some(TypeRef::Str));
    bad_note.notification = true;
    match build(vec![bad_arity, bad_note], root()) {
        Err(ValidationError::StructuredArity(n)) => assert_eq!(n, "add"),
        other => panic!("unexpected {:?}", other),
    }
}

#[test]
fn wire_name_override_and_exposed_name() {
    let mut d = decl("get_user", vec![], None);
    d.docs = Some(text("Looks a user up."));
    let mut e = decl("handler", vec![], None);
    e.rpc_name_override = Some(text("list_all_users"));
    let reg = build(vec![d, e], root()).unwrap();
    assert_eq!(reg.methods[0].rpc_name, "get_user");
    assert_eq!(reg.methods[0].exposed_name, "getUser");
    assert_eq!(reg.methods[0].docs.as_deref(), Some("Looks a user up."));
    assert_eq!(reg.methods[1].rpc_name, "list_all_users");
    assert_eq!(reg.methods[1].exposed_name, "listAllUsers");
}

#[test]
fn structured_single_param_is_kept() {
    let reg = build(vec![decl("echo", vec![param("msg", TypeRef::Str)], None)], root()).unwrap();
    match &reg.methods[0].params {
        ParamShape::Structured(Some(p)) => assert_eq!(p.name.as_deref(), Some("msg")),
        other => panic!("unexpected {:?}", other),
    }
}
