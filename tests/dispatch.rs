use rpc_interface::decode::{ParamError, Value};
use rpc_interface::dispatch::{
    complete, encode, refuse, route, DispatchError, HandlerFailure, Reply, INTERNAL_ERROR,
    INVALID_PARAMS, METHOD_NOT_FOUND,
};
use rpc_interface::json::{Json, Member};
use rpc_interface::registry::{build, Declaration, Param, Registry, RootOptions};
use rpc_interface::types::{Field, Record, Scalar, TypeRef};

fn text(s: &str) -> String {
    s.to_string()
}

fn decl(name: &str, positional: bool, params: Vec<Param>, result: Option<TypeRef>) -> Declaration {
    Declaration {
        fn_name: text(name),
        rpc_name_override: None,
        notification: false,
        positional,
        params,
        result,
        docs: None,
    }
}

fn param(name: &str, ty: TypeRef) -> Param {
    Param { name: Some(text(name)), ty }
}

fn field(name: &str, ty: Scalar, optional: bool) -> Field {
    Field { name: text(name), ty, optional }
}

fn filter_type() -> TypeRef {
    TypeRef::Record(Record {
        name: text("Filter"),
        fields: vec![field("limit", Scalar::Int, true), field("prefix", Scalar::Str, true)],
    })
}

fn user_type() -> TypeRef {
    TypeRef::Record(Record {
        name: text("User"),
        fields: vec![field("id", Scalar::Int, false), field("nick", Scalar::Str, true)],
    })
}

fn member(key: &str, value: Json) -> Member {
    Member { key: text(key), value }
}

fn registry() -> Registry {
    let mut note = decl("log", false, vec![param("line", TypeRef::Str)], None);
    note.notification = true;
    let decls = vec![
        decl("pair", true, vec![param("n", TypeRef::Int), param("s", TypeRef::Str)], Some(TypeRef::Str)),
        decl("search", false, vec![param("filter", filter_type())], Some(TypeRef::Int)),
        decl("lookup", false, vec![param("user", user_type())], Some(user_type())),
        decl("ping", false, vec![], None),
        note,
    ];
    let options = RootOptions { all_positional: false, ts_outdir: Some(text("ts")), schema_outdir: None };
    build(decls, options).unwrap()
}

#[test]
fn positional_payload_decodes_in_order() {
    let reg = registry();
    let p = Some(Json::Array(vec![Json::Int(3), Json::Str(text("a"))]));
    let call = route(&reg, &text("pair"), &p).unwrap();
    assert_eq!(call.method, 0);
    assert_eq!(call.args.len(), 2);
    assert!(matches!(call.args[0], Value::Int(3)));
    assert!(matches!(&call.args[1], Value::Str(s) if s == "a"));
}

#[test]
fn positional_type_mismatch_reports_first_index() {
    let reg = registry();
    let p = Some(Json::Array(vec![Json::Str(text("a")), Json::Int(3)]));
    match route(&reg, &text("pair"), &p) {
        Err(DispatchError::InvalidParams { method: 0, error: ParamError::Index(0) }) => {}
        other => panic!("unexpected {:?}", other),
    }
}

#[test]
fn positional_too_few_reports_missing_index() {
    let reg = registry();
    let p = Some(Json::Array(vec![Json::Int(3)]));
    assert!(matches!(
        route(&reg, &text("pair"), &p),
        Err(DispatchError::InvalidParams { error: ParamError::Index(1), .. })
    ));
}

#[test]
fn positional_too_many_reports_surplus_index() {
    let reg = registry();
    let p = Some(Json::Array(vec![Json::Int(3), Json::Str(text("a")), Json::Null]));
    assert!(matches!(
        route(&reg, &text("pair"), &p),
        Err(DispatchError::InvalidParams { error: ParamError::Index(2), .. })
    ));
}

#[test]
fn positional_object_payload_is_a_shape_error() {
    let reg = registry();
    let p = Some(Json::Object(vec![]));
    assert!(matches!(
        route(&reg, &text("pair"), &p),
        Err(DispatchError::InvalidParams { error: ParamError::Shape, .. })
    ));
}

#[test]
fn structured_all_optional_accepts_empty_object() {
    let reg = registry();
    let call = route(&reg, &text("search"), &Some(Json::Object(vec![]))).unwrap();
    assert_eq!(call.method, 1);
    match &call.args[..] {
        [Value::Record(slots)] => {
            assert_eq!(slots.len(), 2);
            assert!(slots[0].is_none() && slots[1].is_none());
        }
        other => panic!("unexpected {:?}", other),
    }
}

#[test]
fn structured_absent_payload_is_an_empty_object() {
    let reg = registry();
    let call = route(&reg, &text("search"), &None).unwrap();
    assert!(matches!(&call.args[..], [Value::Record(slots)] if slots.len() == 2));
}

#[test]
fn structured_fields_decode_by_name() {
    let reg = registry();
    let p = Some(Json::Object(vec![member("prefix", Json::Str(text("ab"))), member("limit", Json::Int(7))]));
    let call = route(&reg, &text("search"), &p).unwrap();
    match &call.args[..] {
        [Value::Record(slots)] => {
            assert!(matches!(slots[0], Some(Value::Int(7))));
            assert!(matches!(&slots[1], Some(Value::Str(s)) if s == "ab"));
        }
        other => panic!("unexpected {:?}", other),
    }
}

#[test]
fn structured_missing_required_field_is_refused() {
    let reg = registry();
    let p = Some(Json::Object(vec![member("nick", Json::Str(text("bo")))]));
    match route(&reg, &text("lookup"), &p) {
        Err(DispatchError::InvalidParams { method: 2, error: ParamError::Field(n) }) => assert_eq!(n, "id"),
        other => panic!("unexpected {:?}", other),
    }
}

#[test]
fn structured_ill_typed_field_is_refused() {
    let reg = registry();
    let p = Some(Json::Object(vec![member("id", Json::Int(1)), member("nick", Json::Int(2))]));
    match route(&reg, &text("lookup"), &p) {
        Err(DispatchError::InvalidParams { error: ParamError::Field(n), .. }) => assert_eq!(n, "nick"),
        other => panic!("unexpected {:?}", other),
    }
}

#[test]
fn structured_array_payload_is_a_shape_error() {
    let reg = registry();
    let p = Some(Json::Array(vec![]));
    assert!(matches!(
        route(&reg, &text("lookup"), &p),
        Err(DispatchError::InvalidParams { error: ParamError::Shape, .. })
    ));
}

#[test]
fn no_params_accepts_absent_and_empty_object_only() {
    let reg = registry();
    assert!(route(&reg, &text("ping"), &None).unwrap().args.is_empty());
    assert!(route(&reg, &text("ping"), &Some(Json::Object(vec![]))).unwrap().args.is_empty());
    let p = Some(Json::Object(vec![member("x", Json::Null)]));
    assert!(matches!(
        route(&reg, &text("ping"), &p),
        Err(DispatchError::InvalidParams { error: ParamError::Shape, .. })
    ));
}

#[test]
fn unknown_method_carries_its_name() {
    let reg = registry();
    match route(&reg, &text("noSuchMethod"), &None) {
        Err(DispatchError::MethodNotFound(n)) => assert_eq!(n, "noSuchMethod"),
        other => panic!("unexpected {:?}", other),
    }
}

#[test]
fn unknown_method_reply() {
    let reg = registry();
    match refuse(&reg, DispatchError::MethodNotFound(text("noSuchMethod"))) {
        Reply::Error { code, message, data: None } => {
            assert_eq!(code, METHOD_NOT_FOUND);
            assert_eq!(message, "noSuchMethod");
        }
        other => panic!("unexpected {:?}", other),
    }
}

#[test]
fn invalid_params_reply_carries_the_index() {
    let reg = registry();
    let err = DispatchError::InvalidParams { method: 0, error: ParamError::Index(1) };
    match refuse(&reg, err) {
        Reply::Error { code, data: Some(Json::Int(1)), .. } => assert_eq!(code, INVALID_PARAMS),
        other => panic!("unexpected {:?}", other),
    }
}

#[test]
fn invalid_params_reply_carries_the_field() {
    let reg = registry();
    let err = DispatchError::InvalidParams { method: 2, error: ParamError::Field(text("id")) };
    match refuse(&reg, err) {
        Reply::Error { code, data: Some(Json::Str(s)), .. } => {
            assert_eq!(code, INVALID_PARAMS);
            assert_eq!(s, "id");
        }
        other => panic!("unexpected {:?}", other),
    }
}

#[test]
fn notification_never_replies() {
    let reg = registry();
    let m = &reg.methods[4];
    let failure = HandlerFailure { code: 5, message: text("disk full") };
    assert!(matches!(complete(m, Err(failure)), Reply::NoResponse));
    assert!(matches!(complete(m, Ok(Value::Unit)), Reply::NoResponse));
    let err = DispatchError::InvalidParams { method: 4, error: ParamError::Shape };
    assert!(matches!(refuse(&reg, err), Reply::NoResponse));
}

#[test]
fn notification_routes_its_params() {
    let reg = registry();
    let p = Some(Json::Str(text("hello")));
    let call = route(&reg, &text("log"), &p).unwrap();
    assert_eq!(call.method, 4);
    assert!(matches!(&call.args[..], [Value::Str(s)] if s == "hello"));
}

#[test]
fn request_result_is_encoded() {
    let reg = registry();
    match complete(&reg.methods[0], Ok(Value::Str(text("3a")))) {
        Reply::Response(Json::Str(s)) => assert_eq!(s, "3a"),
        other => panic!("unexpected {:?}", other),
    }
    assert!(matches!(complete(&reg.methods[3], Ok(Value::Unit)), Reply::Response(Json::Null)));
}

#[test]
fn request_failure_is_passed_through() {
    let reg = registry();
    let failure = HandlerFailure { code: 42, message: text("no such user") };
    match complete(&reg.methods[2], Err(failure)) {
        Reply::Error { code: 42, message, data: None } => assert_eq!(message, "no such user"),
        other => panic!("unexpected {:?}", other),
    }
}

#[test]
fn mistyped_result_is_an_internal_error() {
    let reg = registry();
    match complete(&reg.methods[1], Ok(Value::Str(text("x")))) {
        Reply::Error { code, .. } => assert_eq!(code, INTERNAL_ERROR),
        other => panic!("unexpected {:?}", other),
    }
}

#[test]
fn record_result_becomes_an_object() {
    let reg = registry();
    let v = Value::Record(vec![Some(Value::Int(9)), None]);
    match complete(&reg.methods[2], Ok(v)) {
        Reply::Response(Json::Object(ms)) => {
            assert_eq!(ms.len(), 2);
            assert_eq!(ms[0].key, "id");
            assert!(matches!(ms[0].value, Json::Int(9)));
            assert_eq!(ms[1].key, "nick");
            assert!(matches!(ms[1].value, Json::Null));
        }
        other => panic!("unexpected {:?}", other),
    }
}

#[test]
fn record_missing_required_slot_does_not_encode() {
    let v = Value::Record(vec![None, None]);
    assert!(encode(v, &user_type()).is_none());
    let short = Value::Record(vec![Some(Value::Int(1))]);
    assert!(encode(short, &user_type()).is_none());
}
