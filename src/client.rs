use crate::catalogue::{catalogue_of, exposed_result, opt_key_view, type_catalogue};
use crate::naming::{camel_of, decimal, positional_name, to_camel};
use crate::registry::{MethodDescriptor, Param, ParamShape, Registry};
use crate::types::{key_of, keys_view, TypeKey};
use crate::consistency::{check_types, types_consistent, GenerationError};
use vstd::prelude::*;

verus! {

/// One argument of a client call wrapper.
#[derive(Debug)]
pub struct StubArg {
    pub name: String,
    pub ty: TypeKey,
}

/// One typed call wrapper of the client module.
#[derive(Debug)]
pub struct StubMethod {
    pub exposed_name: String,
    pub rpc_name: String,
    pub args: Vec<StubArg>,
    pub result: Option<TypeKey>,
    pub is_notification: bool,
    pub is_positional: bool,
    pub docs: Option<String>,
}

/// The client module: one wrapper per method, in registry order, and the
/// catalogue of the types they refer to.
#[derive(Debug)]
pub struct ClientModule {
    pub methods: Vec<StubMethod>,
    pub types: Vec<TypeKey>,
}

/// The name a positional parameter gets in a wrapper: its own, or `arg` and
/// its position counted from one.
pub open spec fn positional_label(p: Param, i: int) -> Seq<char> {
    match p.name {
        Some(n) => n@,
        None => seq!['a', 'r', 'g'] + decimal((i + 1) as nat),
    }
}

/// The name the structured parameter gets in a wrapper: its own, or `params`.
pub open spec fn structured_label(p: Param) -> Seq<char> {
    match p.name {
        Some(n) => n@,
        None => seq!['p', 'a', 'r', 'a', 'm', 's'],
    }
}

pub open spec fn arg_is(a: StubArg, label: Seq<char>, p: Param) -> bool {
    a.name@ == camel_of(label) && a.ty@ == key_of(p.ty)
}

/// `s` is the wrapper generated for `m`.
pub open spec fn stub_of(s: StubMethod, m: MethodDescriptor) -> bool {
    &&& s.exposed_name@ == m.exposed_name@
    &&& s.rpc_name@ == m.rpc_name@
    &&& s.is_notification == m.is_notification
    &&& s.is_positional == m.params is Positional
    &&& s.docs == m.docs
    &&& opt_key_view(s.result) == exposed_result(m)
    &&& match m.params {
        ParamShape::Positional(ps) => s.args@.len() == ps@.len() && forall|i: int|
            0 <= i < ps@.len() ==> arg_is(#[trigger] s.args@[i], positional_label(ps@[i], i), ps@[i]),
        ParamShape::Structured(None) => s.args@.len() == 0,
        ParamShape::Structured(Some(p)) => s.args@.len() == 1 && arg_is(
            s.args@[0],
            structured_label(p),
            p,
        ),
    }
}

/// `c` is the client module generated for `reg`.
pub open spec fn client_of(c: ClientModule, reg: Registry) -> bool {
    &&& c.methods@.len() == reg.methods@.len()
    &&& forall|i: int| 0 <= i < reg.methods@.len() ==> stub_of(#[trigger] c.methods@[i], reg.methods@[i])
    &&& keys_view(c.types@) == catalogue_of(reg.methods@)
}

pub(crate) fn copy_text(d: &Option<String>) -> (r: Option<String>)
    ensures
        r == *d,
{
    match d {
        Some(s) => Some(s.clone()),
        None => None,
    }
}

pub(crate) fn result_key(m: &MethodDescriptor) -> (r: Option<TypeKey>)
    ensures
        opt_key_view(r) == exposed_result(*m),
{
    if m.is_notification {
        return None;
    }
    match &m.result {
        Some(t) => Some(t.key()),
        None => None,
    }
}

fn stub_method(m: &MethodDescriptor) -> (s: StubMethod)
    ensures
        stub_of(s, *m),
{
    let mut args: Vec<StubArg> = Vec::new();
    match &m.params {
        ParamShape::Positional(ps) => {
            let mut i: usize = 0;
            while i < ps.len()
                invariant
                    i <= ps@.len(),
                    args@.len() == i,
                    forall|k: int|
                        0 <= k < i ==> arg_is(#[trigger] args@[k], positional_label(ps@[k], k), ps@[k]),
                decreases ps.len() - i,
            {
                let p = &ps[i];
                let label = match &p.name {
                    Some(n) => n.clone(),
                    None => positional_name(i + 1),
                };
                args.push(StubArg { name: to_camel(&label), ty: p.ty.key() });
                i += 1;
            }
        },
        ParamShape::Structured(None) => {},
        ParamShape::Structured(Some(p)) => {
            let label = match &p.name {
                Some(n) => n.clone(),
                None => {
                    let s = "params".to_owned();
                    proof {
                        reveal_strlit("params");
                    }
                    assert(s@ =~= seq!['p', 'a', 'r', 'a', 'm', 's']);
                    s
                },
            };
            args.push(StubArg { name: to_camel(&label), ty: p.ty.key() });
        },
    }
    StubMethod {
        exposed_name: m.exposed_name.clone(),
        rpc_name: m.rpc_name.clone(),
        args,
        result: result_key(m),
        is_notification: m.is_notification,
        is_positional: matches!(m.params, ParamShape::Positional(_)),
        docs: copy_text(&m.docs),
    }
}

/// Generates the client module: one call wrapper per method, in registry
/// order, and the deduplicated catalogue of the types they refer to; refuses
/// a registry whose references to one record type disagree.
pub fn generate_client(reg: &Registry) -> (r: Result<ClientModule, GenerationError>)
    ensures
        match r {
            Ok(c) => types_consistent(reg.methods@) && client_of(c, *reg),
            Err(_) => !types_consistent(reg.methods@),
        },
{
    if let Err(e) = check_types(&reg.methods) {
        return Err(e);
    }
    let mut methods: Vec<StubMethod> = Vec::new();
    let mut i: usize = 0;
    while i < reg.methods.len()
        invariant
            i <= reg.methods@.len(),
            methods@.len() == i,
            forall|k: int| 0 <= k < i ==> stub_of(#[trigger] methods@[k], reg.methods@[k]),
        decreases reg.methods.len() - i,
    {
        methods.push(stub_method(&reg.methods[i]));
        i += 1;
    }
    Ok(ClientModule { methods, types: type_catalogue(&reg.methods) })
}

} // verus!
