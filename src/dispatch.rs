use crate::decode::{
    decode_fault, decode_ok, decode_record, decode_value, decodes_to, first_bad_field, record_decodes,
    record_ok, ParamError, Value,
};
use crate::json::{Json, Member};
use crate::registry::{MethodDescriptor, Param, ParamShape, Registry};
use crate::types::{Field, Scalar, TypeRef};
use vstd::prelude::*;

verus! {

/// The JSON-RPC code for a method that is not registered.
pub const METHOD_NOT_FOUND: i64 = -32601;

/// The JSON-RPC code for parameters that do not decode.
pub const INVALID_PARAMS: i64 = -32602;

/// The JSON-RPC code for a handler result that does not fit the declared type.
pub const INTERNAL_ERROR: i64 = -32603;

/// A call that passed routing and decoding: the handler to run and its arguments.
#[derive(Debug)]
pub struct Call {
    pub method: usize,
    pub args: Vec<Value>,
}

/// Why a call was not handed to a handler.
#[derive(Debug)]
pub enum DispatchError {
    MethodNotFound(String),
    InvalidParams { method: usize, error: ParamError },
}

/// What a handler reports when it fails.
#[derive(Debug)]
pub struct HandlerFailure {
    pub code: i64,
    pub message: String,
}

/// What goes back to the caller.
#[derive(Debug)]
pub enum Reply {
    Response(Json),
    NoResponse,
    Error { code: i64, message: String, data: Option<Json> },
}

/// The elements of a positional payload; an absent payload has none.
pub open spec fn positional_items(p: Option<Json>) -> Option<Seq<Json>> {
    match p {
        None => Some(Seq::empty()),
        Some(Json::Array(v)) => Some(v@),
        Some(_) => None,
    }
}

/// The members of a structured payload; an absent payload is an empty object.
pub open spec fn structured_members(p: Option<Json>) -> Option<Seq<Member>> {
    match p {
        None => Some(Seq::empty()),
        Some(Json::Object(ms)) => Some(ms@),
        Some(_) => None,
    }
}

pub open spec fn positional_ok(items: Seq<Json>, ps: Seq<Param>) -> bool {
    &&& items.len() == ps.len()
    &&& forall|i: int| 0 <= i < ps.len() ==> decode_ok(#[trigger] items[i], ps[i].ty)
}

/// The positional parameter at `i` is the first one that fails: missing,
/// ill-typed, or (at `ps.len()`) the first surplus element.
pub open spec fn positional_fault(items: Seq<Json>, ps: Seq<Param>, i: int) -> bool {
    &&& forall|k: int| 0 <= k < i && k < ps.len() ==> k < items.len() && decode_ok(#[trigger] items[k], ps[k].ty)
    &&& if i < ps.len() {
        0 <= i && (i >= items.len() || !decode_ok(items[i], ps[i].ty))
    } else {
        i == ps.len() && items.len() > ps.len()
    }
}

/// Whether the payload decodes against the parameter shape.
pub open spec fn params_ok(shape: ParamShape, p: Option<Json>) -> bool {
    match shape {
        ParamShape::Positional(ps) => match positional_items(p) {
            Some(items) => positional_ok(items, ps@),
            None => false,
        },
        ParamShape::Structured(None) => match structured_members(p) {
            Some(ms) => ms.len() == 0,
            None => false,
        },
        ParamShape::Structured(Some(q)) => match q.ty {
            TypeRef::Record(r) => match structured_members(p) {
                Some(ms) => record_ok(ms, r.fields@),
                None => false,
            },
            _ => match p {
                Some(j) => decode_ok(j, q.ty),
                None => false,
            },
        },
    }
}

/// `args` are the handler's arguments decoded from the payload.
pub open spec fn args_decoded(shape: ParamShape, p: Option<Json>, args: Seq<Value>) -> bool {
    match shape {
        ParamShape::Positional(ps) => {
            let items = positional_items(p)->Some_0;
            args.len() == ps@.len() && forall|i: int|
                0 <= i < ps@.len() ==> decodes_to(items[i], ps@[i].ty, #[trigger] args[i])
        },
        ParamShape::Structured(None) => args.len() == 0,
        ParamShape::Structured(Some(q)) => args.len() == 1 && match q.ty {
            TypeRef::Record(r) => args[0] is Record && record_decodes(
                structured_members(p)->Some_0,
                r.fields@,
                args[0]->Record_0@,
            ),
            _ => decodes_to(p->Some_0, q.ty, args[0]),
        },
    }
}

/// The error reported for a payload that does not decode.
pub open spec fn params_fault(shape: ParamShape, p: Option<Json>, e: ParamError) -> bool {
    match shape {
        ParamShape::Positional(ps) => match positional_items(p) {
            Some(items) => e matches ParamError::Index(i) && positional_fault(items, ps@, i as int),
            None => e is Shape,
        },
        ParamShape::Structured(None) => e is Shape,
        ParamShape::Structured(Some(q)) => match q.ty {
            TypeRef::Record(r) => match structured_members(p) {
                Some(ms) => e matches ParamError::Field(n) && first_bad_field(ms, r.fields@, n@),
                None => e is Shape,
            },
            _ => match p {
                Some(j) => decode_fault(j, q.ty, e),
                None => e is Shape,
            },
        },
    }
}

fn decode_positional(items: &Vec<Json>, ps: &Vec<Param>) -> (res: Result<Vec<Value>, ParamError>)
    ensures
        match res {
            Ok(args) => positional_ok(items@, ps@) && args@.len() == ps@.len() && forall|i: int|
                0 <= i < ps@.len() ==> decodes_to(items@[i], ps@[i].ty, #[trigger] args@[i]),
            Err(e) => !positional_ok(items@, ps@) && (e matches ParamError::Index(i)
                && positional_fault(items@, ps@, i as int)),
        },
{
    let mut args: Vec<Value> = Vec::new();
    let mut i: usize = 0;
    while i < ps.len()
        invariant
            i <= ps@.len(),
            args@.len() == i,
            i <= items@.len(),
            forall|k: int| 0 <= k < i ==> decodes_to(items@[k], ps@[k].ty, #[trigger] args@[k]),
            forall|k: int| 0 <= k < i ==> decode_ok(#[trigger] items@[k], ps@[k].ty),
        decreases ps.len() - i,
    {
        if i >= items.len() {
            return Err(ParamError::Index(i));
        }
        match decode_value(&items[i], &ps[i].ty) {
            Ok(v) => args.push(v),
            Err(_) => {
                return Err(ParamError::Index(i));
            },
        }
        i += 1;
    }
    if items.len() > ps.len() {
        return Err(ParamError::Index(ps.len()));
    }
    Ok(args)
}

/// Decodes a payload against a method's parameter shape.
pub fn decode_params(shape: &ParamShape, p: &Option<Json>) -> (res: Result<Vec<Value>, ParamError>)
    ensures
        match res {
            Ok(args) => params_ok(*shape, *p) && args_decoded(*shape, *p, args@),
            Err(e) => !params_ok(*shape, *p) && params_fault(*shape, *p, e),
        },
{
    let no_items: Vec<Json> = Vec::new();
    let no_members: Vec<Member> = Vec::new();
    match shape {
        ParamShape::Positional(ps) => {
            let items = match p {
                None => &no_items,
                Some(Json::Array(v)) => v,
                Some(_) => {
                    return Err(ParamError::Shape);
                },
            };
            decode_positional(items, ps)
        },
        ParamShape::Structured(None) => match p {
            None => Ok(Vec::new()),
            Some(Json::Object(ms)) => if ms.len() == 0 {
                Ok(Vec::new())
            } else {
                Err(ParamError::Shape)
            },
            Some(_) => Err(ParamError::Shape),
        },
        ParamShape::Structured(Some(q)) => match &q.ty {
            TypeRef::Record(r) => {
                let ms = match p {
                    None => &no_members,
                    Some(Json::Object(ms)) => ms,
                    Some(_) => {
                        return Err(ParamError::Shape);
                    },
                };
                match decode_record(ms, r) {
                    Ok(vals) => {
                        let mut args: Vec<Value> = Vec::new();
                        args.push(Value::Record(vals));
                        Ok(args)
                    },
                    Err(n) => Err(ParamError::Field(n)),
                }
            },
            _ => match p {
                None => Err(ParamError::Shape),
                Some(j) => match decode_value(j, &q.ty) {
                    Ok(v) => {
                        let mut args: Vec<Value> = Vec::new();
                        args.push(v);
                        Ok(args)
                    },
                    Err(e) => Err(e),
                },
            },
        },
    }
}

/// Finds the method registered under a wire name.
pub fn find_method(reg: &Registry, name: &String) -> (r: Option<usize>)
    ensures
        match r {
            Some(i) => i < reg.methods@.len() && reg.methods@[i as int].rpc_name@ == name@,
            None => forall|i: int|
                0 <= i < reg.methods@.len() ==> #[trigger] reg.methods@[i].rpc_name@ != name@,
        },
{
    let mut i: usize = 0;
    while i < reg.methods.len()
        invariant
            i <= reg.methods@.len(),
            forall|k: int| 0 <= k < i ==> #[trigger] reg.methods@[k].rpc_name@ != name@,
        decreases reg.methods.len() - i,
    {
        if reg.methods[i].rpc_name == *name {
            return Some(i);
        }
        i += 1;
    }
    None
}

/// Routes an incoming call: finds its method and decodes its parameters.
/// The handler is not run here; on success the caller runs
/// `reg.methods[call.method]` with `call.args` and then calls `complete`.
pub fn route(reg: &Registry, name: &String, params: &Option<Json>) -> (r: Result<Call, DispatchError>)
    ensures
        match r {
            Ok(call) => call.method < reg.methods@.len()
                && reg.methods@[call.method as int].rpc_name@ == name@
                && params_ok(reg.methods@[call.method as int].params, *params)
                && args_decoded(reg.methods@[call.method as int].params, *params, call.args@),
            Err(DispatchError::MethodNotFound(n)) => n@ == name@ && forall|i: int|
                0 <= i < reg.methods@.len() ==> #[trigger] reg.methods@[i].rpc_name@ != name@,
            Err(DispatchError::InvalidParams { method, error }) => method < reg.methods@.len()
                && reg.methods@[method as int].rpc_name@ == name@
                && !params_ok(reg.methods@[method as int].params, *params)
                && params_fault(reg.methods@[method as int].params, *params, error),
        },
{
    match find_method(reg, name) {
        None => Err(DispatchError::MethodNotFound(name.clone())),
        Some(i) => match decode_params(&reg.methods[i].params, params) {
            Ok(args) => Ok(Call { method: i, args }),
            Err(error) => Err(DispatchError::InvalidParams { method: i, error }),
        },
    }
}

pub open spec fn scalar_json(v: Value, s: Scalar) -> Option<Json> {
    match s {
        Scalar::Bool => match v {
            Value::Bool(b) => Some(Json::Bool(b)),
            _ => None,
        },
        Scalar::Int => match v {
            Value::Int(n) => Some(Json::Int(n)),
            _ => None,
        },
        Scalar::Str => match v {
            Value::Str(x) => Some(Json::Str(x)),
            _ => None,
        },
    }
}

pub open spec fn slot_fits(slot: Option<Value>, f: Field) -> bool {
    match slot {
        None => f.optional,
        Some(v) => scalar_json(v, f.ty) is Some,
    }
}

pub open spec fn slot_encodes(slot: Option<Value>, f: Field, j: Json) -> bool {
    match slot {
        None => f.optional && j is Null,
        Some(v) => scalar_json(v, f.ty) == Some(j),
    }
}

/// Whether `v` is a value of type `t`.
pub open spec fn encodable(v: Value, t: TypeRef) -> bool {
    match t {
        TypeRef::Unit => v is Unit,
        TypeRef::Bool => scalar_json(v, Scalar::Bool) is Some,
        TypeRef::Int => scalar_json(v, Scalar::Int) is Some,
        TypeRef::Str => scalar_json(v, Scalar::Str) is Some,
        TypeRef::Record(r) => v is Record && v->Record_0@.len() == r.fields@.len() && forall|i: int|
            0 <= i < r.fields@.len() ==> slot_fits(#[trigger] v->Record_0@[i], r.fields@[i]),
    }
}

/// `j` is the wire form of `v` as a value of type `t`: a record becomes an
/// object with one member per field, in field order, `null` for an absent one.
pub open spec fn encodes_to(v: Value, t: TypeRef, j: Json) -> bool {
    match t {
        TypeRef::Unit => v is Unit && j is Null,
        TypeRef::Bool => scalar_json(v, Scalar::Bool) == Some(j),
        TypeRef::Int => scalar_json(v, Scalar::Int) == Some(j),
        TypeRef::Str => scalar_json(v, Scalar::Str) == Some(j),
        TypeRef::Record(r) => v is Record && j is Object && {
            let vals = v->Record_0@;
            let ms = j->Object_0@;
            &&& vals.len() == r.fields@.len()
            &&& ms.len() == r.fields@.len()
            &&& forall|i: int|
                0 <= i < r.fields@.len() ==> (#[trigger] ms[i]).key@ == r.fields@[i].name@
                    && slot_encodes(vals[i], r.fields@[i], ms[i].value)
        },
    }
}

/// The declared result type of a method; a method without one returns unit.
pub open spec fn result_type(m: MethodDescriptor) -> TypeRef {
    match m.result {
        Some(t) => t,
        None => TypeRef::Unit,
    }
}

/// The data attached to an invalid-params reply: the index or the field.
pub open spec fn error_data(e: ParamError) -> Option<Json> {
    match e {
        ParamError::Index(i) => if i <= i64::MAX {
            Some(Json::Int(i as i64))
        } else {
            None
        },
        ParamError::Field(n) => Some(Json::Str(n)),
        ParamError::Shape => None,
    }
}

fn encode_scalar(v: Value, s: Scalar) -> (r: Option<Json>)
    ensures
        r == scalar_json(v, s),
{
    match (s, v) {
        (Scalar::Bool, Value::Bool(b)) => Some(Json::Bool(b)),
        (Scalar::Int, Value::Int(n)) => Some(Json::Int(n)),
        (Scalar::Str, Value::Str(x)) => Some(Json::Str(x)),
        _ => None,
    }
}

/// Encodes a value as its declared type; `None` when it is not of that type.
pub fn encode(v: Value, t: &TypeRef) -> (r: Option<Json>)
    ensures
        r is Some <==> encodable(v, *t),
        r matches Some(j) ==> encodes_to(v, *t, j),
{
    let ghost v0 = v;
    match t {
        TypeRef::Unit => match v {
            Value::Unit => Some(Json::Null),
            _ => None,
        },
        TypeRef::Bool => encode_scalar(v, Scalar::Bool),
        TypeRef::Int => encode_scalar(v, Scalar::Int),
        TypeRef::Str => encode_scalar(v, Scalar::Str),
        TypeRef::Record(r) => {
            let vals = match v {
                Value::Record(vals) => vals,
                _ => {
                    return None;
                },
            };
            if vals.len() != r.fields.len() {
                return None;
            }
            let ghost orig = vals@;
            let mut rest = vals;
            let mut ms: Vec<Member> = Vec::new();
            let mut i: usize = 0;
            while i < r.fields.len()
                invariant
                    orig == v0->Record_0@,
                    v0 == v,
                    v0 is Record,
                    *t == TypeRef::Record(*r),
                    orig.len() == r.fields@.len(),
                    i <= r.fields@.len(),
                    rest@ == orig.subrange(i as int, orig.len() as int),
                    ms@.len() == i,
                    forall|k: int| 0 <= k < i ==> slot_fits(#[trigger] orig[k], r.fields@[k]),
                    forall|k: int|
                        0 <= k < i ==> (#[trigger] ms@[k]).key@ == r.fields@[k].name@
                            && slot_encodes(orig[k], r.fields@[k], ms@[k].value),
                decreases r.fields.len() - i,
            {
                let slot = rest.remove(0);
                assert(slot == orig[i as int]);
                let f = &r.fields[i];
                let value = match slot {
                    None => if f.optional {
                        Json::Null
                    } else {
                        assert(!slot_fits(v0->Record_0@[i as int], r.fields@[i as int]));
                        return None;
                    },
                    Some(x) => match encode_scalar(x, f.ty) {
                        Some(j) => j,
                        None => {
                            assert(!slot_fits(v0->Record_0@[i as int], r.fields@[i as int]));
                            return None;
                        },
                    },
                };
                ms.push(Member { key: f.name.clone(), value });
                i += 1;
                assert(rest@ =~= orig.subrange(i as int, orig.len() as int));
            }
            Some(Json::Object(ms))
        },
    }
}

/// Turns a handler's outcome into the reply for the caller.
///
/// A notification never gets a reply, whatever its handler did. A request
/// gets its result encoded as the declared type, or the handler's failure.
pub fn complete(m: &MethodDescriptor, outcome: Result<Value, HandlerFailure>) -> (r: Reply)
    ensures
        m.is_notification ==> r is NoResponse,
        !m.is_notification ==> match outcome {
            Err(f) => r == Reply::Error { code: f.code, message: f.message, data: None },
            Ok(v) => if encodable(v, result_type(*m)) {
                r is Response && encodes_to(v, result_type(*m), r->Response_0)
            } else {
                r matches Reply::Error { code, data, .. } && code == INTERNAL_ERROR && data is None
            },
        },
{
    if m.is_notification {
        return Reply::NoResponse;
    }
    match outcome {
        Err(f) => Reply::Error { code: f.code, message: f.message, data: None },
        Ok(v) => {
            let unit = TypeRef::Unit;
            let t = match &m.result {
                Some(t) => t,
                None => &unit,
            };
            match encode(v, t) {
                Some(j) => Reply::Response(j),
                None => Reply::Error {
                    code: INTERNAL_ERROR,
                    message: "result does not match the declared type".to_owned(),
                    data: None,
                },
            }
        },
    }
}

/// Turns a routing failure into the reply for the caller. A notification
/// whose parameters do not decode gets no reply.
pub fn refuse(reg: &Registry, err: DispatchError) -> (r: Reply)
    requires
        err matches DispatchError::InvalidParams { method, .. } ==> method < reg.methods@.len(),
    ensures
        match err {
            DispatchError::MethodNotFound(n) => r == Reply::Error {
                code: METHOD_NOT_FOUND,
                message: n,
                data: None,
            },
            DispatchError::InvalidParams { method, error } => if reg.methods@[method as int].is_notification {
                r is NoResponse
            } else {
                r matches Reply::Error { code, data, .. } && code == INVALID_PARAMS && data
                    == error_data(error)
            },
        },
{
    match err {
        DispatchError::MethodNotFound(n) => Reply::Error { code: METHOD_NOT_FOUND, message: n, data: None },
        DispatchError::InvalidParams { method, error } => {
            if reg.methods[method].is_notification {
                return Reply::NoResponse;
            }
            let data = match error {
                ParamError::Index(i) => if (i as u64) <= (i64::MAX as u64) {
                    Some(Json::Int(i as i64))
                } else {
                    None
                },
                ParamError::Field(n) => Some(Json::Str(n)),
                ParamError::Shape => None,
            };
            Reply::Error { code: INVALID_PARAMS, message: "invalid params".to_owned(), data }
        },
    }
}

} // verus!
