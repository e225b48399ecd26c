use rpc_interface::client::generate_client;
use rpc_interface::consistency::GenerationError;
use rpc_interface::registry::{build, Declaration, Param, Registry, RootOptions};
use rpc_interface::schema::{generate_schema, SchemaParams};
use rpc_interface::types::{Field, Record, Scalar, TypeKind, TypeRef};

fn text(s: &str) -> String {
    s.to_string()
}

fn user_type() -> TypeRef {
    TypeRef::Record(Record {
        name: text("User"),
        fields: vec![Field { name: text("id"), ty: Scalar::Int, optional: false }],
    })
}

fn decl(name: &str, positional: bool, params: Vec<Param>, result: Option<TypeRef>) -> Declaration {
    Declaration {
        fn_name: text(name),
        rpc_name_override: None,
        notification: false,
        positional,
        params,
        result,
        docs: None,
    }
}

fn registry() -> Registry {
    let mut note = decl("user_changed", false, vec![Param { name: None, ty: user_type() }], None);
    note.notification = true;
    note.docs = Some(text("Sent when a user changes."));
    let decls = vec![
        decl(
            "get_user",
            true,
            vec![Param { name: Some(text("user_id")), ty: TypeRef::Int }, Param { name: None, ty: TypeRef::Bool }],
            Some(user_type()),
        ),
        decl("put_user", false, vec![Param { name: None, ty: user_type() }], Some(TypeRef::Bool)),
        note,
    ];
    let options = RootOptions {
        all_positional: false,
        ts_outdir: Some(text("ts")),
        schema_outdir: Some(text("openrpc")),
    };
    build(decls, options).unwrap()
}

#[test]
fn client_wrappers_follow_the_registry() {
    let reg = registry();
    let c = generate_client(&reg).unwrap();
    assert_eq!(c.methods.len(), 3);
    let m = &c.methods[0];
    assert_eq!(m.exposed_name, "getUser");
    assert_eq!(m.rpc_name, "get_user");
    assert!(m.is_positional);
    assert_eq!(m.args.len(), 2);
    assert_eq!(m.args[0].name, "userId");
    assert_eq!(m.args[1].name, "arg2");
    assert_eq!(m.args[1].ty.kind, TypeKind::Bool);
    assert_eq!(m.result.as_ref().unwrap().name, "User");
    let s = &c.methods[1];
    assert!(!s.is_positional);
    assert_eq!(s.args.len(), 1);
    assert_eq!(s.args[0].name, "params");
    let n = &c.methods[2];
    assert!(n.is_notification);
    assert!(n.result.is_none());
    assert_eq!(n.docs.as_deref(), Some("Sent when a user changes."));
}

#[test]
fn catalogue_lists_each_type_once_in_first_use_order() {
    let reg = registry();
    let c = generate_client(&reg).unwrap();
    let kinds: Vec<TypeKind> = c.types.iter().map(|k| k.kind).collect();
    assert_eq!(kinds, vec![TypeKind::Int, TypeKind::Bool, TypeKind::Record]);
    assert_eq!(c.types[2].name, "User");
}

#[test]
fn schema_entries_follow_the_registry() {
    let reg = registry();
    let d = generate_schema(&reg).unwrap();
    assert_eq!(d.entries.len(), 3);
    match &d.entries[0].params {
        SchemaParams::Positional(ps) => {
            assert_eq!(ps.len(), 2);
            assert_eq!(ps[0].name.as_deref(), Some("user_id"));
            assert!(ps[1].name.is_none());
        }
        other => panic!("unexpected {:?}", other),
    }
    assert!(matches!(&d.entries[1].params, SchemaParams::Structured(Some(p)) if p.ty.name == "User"));
    assert!(d.entries[2].notification);
    assert!(d.entries[2].result.is_none());
}

#[test]
fn client_and_schema_agree() {
    let reg = registry();
    let c = generate_client(&reg).unwrap();
    let d = generate_schema(&reg).unwrap();
    assert_eq!(c.methods.len(), d.entries.len());
    for (m, e) in c.methods.iter().zip(d.entries.iter()) {
        assert_eq!(m.rpc_name, e.rpc_name);
    }
    assert_eq!(c.types.len(), d.types.len());
    for (a, b) in c.types.iter().zip(d.types.iter()) {
        assert_eq!(a.kind, b.kind);
        assert_eq!(a.name, b.name);
    }
}

#[test]
fn regeneration_is_byte_identical() {
    let reg = registry();
    let first = format!("{:?}{:?}", generate_client(&reg).unwrap(), generate_schema(&reg).unwrap());
    let second = format!("{:?}{:?}", generate_client(&reg).unwrap(), generate_schema(&reg).unwrap());
    assert_eq!(first, second);
}

#[test]
fn record_described_two_ways_is_refused() {
    let other_user = TypeRef::Record(Record {
        name: text("User"),
        fields: vec![Field { name: text("id"), ty: Scalar::Str, optional: false }],
    });
    let decls = vec![
        decl("get_user", false, vec![], Some(user_type())),
        decl("put_user", false, vec![Param { name: None, ty: other_user }], None),
    ];
    let options = RootOptions { all_positional: false, ts_outdir: Some(text("ts")), schema_outdir: None };
    let reg = build(decls, options).unwrap();
    match generate_client(&reg) {
        Err(GenerationError::InconsistentType(n)) => assert_eq!(n, "User"),
        other => panic!("unexpected {:?}", other),
    }
    assert!(generate_schema(&reg).is_err());
}

#[test]
fn record_described_alike_twice_is_catalogued_once() {
    let decls = vec![
        decl("get_user", false, vec![], Some(user_type())),
        decl("put_user", false, vec![Param { name: None, ty: user_type() }], Some(user_type())),
    ];
    let options = RootOptions { all_positional: false, ts_outdir: None, schema_outdir: Some(text("openrpc")) };
    let reg = build(decls, options).unwrap();
    let d = generate_schema(&reg).unwrap();
    assert_eq!(d.types.len(), 1);
    assert_eq!(d.types[0].name, "User");
}

#[test]
fn empty_registry_generates_empty_outputs() {
    let options = RootOptions { all_positional: false, ts_outdir: Some(text("ts")), schema_outdir: None };
    let reg = build(vec![], options).unwrap();
    let c = generate_client(&reg).unwrap();
    let d = generate_schema(&reg).unwrap();
    assert!(c.methods.is_empty() && c.types.is_empty());
    assert!(d.entries.is_empty() && d.types.is_empty());
}
