use crate::json::{find_member, lookup, Json, Member};
use crate::types::{Field, Record, Scalar, TypeRef};
use vstd::prelude::*;

verus! {

/// A decoded, typed value handed to a handler or returned by one.
#[derive(Debug)]
pub enum Value {
    Unit,
    Bool(bool),
    Int(i64),
    Str(String),
    /// One slot per field of the record type, `None` for an absent optional field.
    Record(Vec<Option<Value>>),
}

/// Where a payload failed to decode.
#[derive(Debug)]
pub enum ParamError {
    /// The positional parameter at this index is missing, extra or ill-typed.
    Index(usize),
    /// The structured parameter lacks this required field, or has it ill-typed.
    Field(String),
    /// The payload as a whole has the wrong shape.
    Shape,
}

pub open spec fn scalar_value(j: Json, s: Scalar) -> Option<Value> {
    match s {
        Scalar::Bool => match j {
            Json::Bool(b) => Some(Value::Bool(b)),
            _ => None,
        },
        Scalar::Int => match j {
            Json::Int(n) => Some(Value::Int(n)),
            _ => None,
        },
        Scalar::Str => match j {
            Json::Str(x) => Some(Value::Str(x)),
            _ => None,
        },
    }
}

/// The slot that field `f` decodes to from the members `ms`; `None` when it
/// cannot be decoded.
pub open spec fn field_slot(ms: Seq<Member>, f: Field) -> Option<Option<Value>> {
    match lookup(ms, f.name@) {
        None => if f.optional {
            Some(None)
        } else {
            None
        },
        Some(j) => if f.optional && j is Null {
            Some(None)
        } else {
            match scalar_value(j, f.ty) {
                Some(v) => Some(Some(v)),
                None => None,
            }
        },
    }
}

pub open spec fn record_ok(ms: Seq<Member>, fields: Seq<Field>) -> bool {
    forall|i: int| 0 <= i < fields.len() ==> (#[trigger] field_slot(ms, fields[i])) is Some
}

pub open spec fn record_decodes(ms: Seq<Member>, fields: Seq<Field>, vals: Seq<Option<Value>>) -> bool {
    &&& vals.len() == fields.len()
    &&& forall|i: int|
        0 <= i < fields.len() ==> #[trigger] field_slot(ms, fields[i]) == Some(vals[i])
}

/// `name` is the name of the first field that cannot be decoded.
pub open spec fn first_bad_field(ms: Seq<Member>, fields: Seq<Field>, name: Seq<char>) -> bool {
    exists|i: int|
        0 <= i < fields.len() && (#[trigger] field_slot(ms, fields[i])) is None && fields[i].name@
            == name && forall|k: int| 0 <= k < i ==> (#[trigger] field_slot(ms, fields[k])) is Some
}

/// Whether `j` decodes as a value of type `t`.
pub open spec fn decode_ok(j: Json, t: TypeRef) -> bool {
    match t {
        TypeRef::Unit => j is Null,
        TypeRef::Bool => scalar_value(j, Scalar::Bool) is Some,
        TypeRef::Int => scalar_value(j, Scalar::Int) is Some,
        TypeRef::Str => scalar_value(j, Scalar::Str) is Some,
        TypeRef::Record(r) => j is Object && record_ok(j->Object_0@, r.fields@),
    }
}

/// `v` is what `j` decodes to as a value of type `t`.
pub open spec fn decodes_to(j: Json, t: TypeRef, v: Value) -> bool {
    match t {
        TypeRef::Unit => j is Null && v is Unit,
        TypeRef::Bool => scalar_value(j, Scalar::Bool) == Some(v),
        TypeRef::Int => scalar_value(j, Scalar::Int) == Some(v),
        TypeRef::Str => scalar_value(j, Scalar::Str) == Some(v),
        TypeRef::Record(r) => j is Object && v is Record && record_decodes(
            j->Object_0@,
            r.fields@,
            v->Record_0@,
        ),
    }
}

/// The error that decoding `j` as `t` reports, when it fails.
pub open spec fn decode_fault(j: Json, t: TypeRef, e: ParamError) -> bool {
    match e {
        ParamError::Shape => !(t is Record && j is Object),
        ParamError::Field(n) => t is Record && j is Object && first_bad_field(
            j->Object_0@,
            t->Record_0.fields@,
            n@,
        ),
        ParamError::Index(_) => false,
    }
}

pub fn decode_scalar(j: &Json, s: Scalar) -> (r: Option<Value>)
    ensures
        r == scalar_value(*j, s),
{
    match (s, j) {
        (Scalar::Bool, Json::Bool(b)) => Some(Value::Bool(*b)),
        (Scalar::Int, Json::Int(n)) => Some(Value::Int(*n)),
        (Scalar::Str, Json::Str(x)) => Some(Value::Str(x.clone())),
        _ => None,
    }
}

fn decode_field(ms: &Vec<Member>, f: &Field) -> (r: Option<Option<Value>>)
    ensures
        r == field_slot(ms@, *f),
{
    match find_member(ms, &f.name) {
        None => if f.optional {
            Some(None)
        } else {
            None
        },
        Some(j) => {
            if f.optional && matches!(j, Json::Null) {
                Some(None)
            } else {
                match decode_scalar(j, f.ty) {
                    Some(v) => Some(Some(v)),
                    None => None,
                }
            }
        },
    }
}

/// Decodes the members of an object as a record of the given type.
pub fn decode_record(ms: &Vec<Member>, r: &Record) -> (res: Result<Vec<Option<Value>>, String>)
    ensures
        match res {
            Ok(vals) => record_ok(ms@, r.fields@) && record_decodes(ms@, r.fields@, vals@),
            Err(n) => !record_ok(ms@, r.fields@) && first_bad_field(ms@, r.fields@, n@),
        },
{
    let mut vals: Vec<Option<Value>> = Vec::new();
    let mut i: usize = 0;
    while i < r.fields.len()
        invariant
            i <= r.fields@.len(),
            vals@.len() == i,
            forall|k: int| 0 <= k < i ==> #[trigger] field_slot(ms@, r.fields@[k]) == Some(vals@[k]),
        decreases r.fields.len() - i,
    {
        match decode_field(ms, &r.fields[i]) {
            Some(slot) => vals.push(slot),
            None => {
                proof {
                    assert forall|k: int| 0 <= k < i implies (#[trigger] field_slot(ms@, r.fields@[k])) is Some by {
                        assert(field_slot(ms@, r.fields@[k]) == Some(vals@[k]));
                    }
                }
                return Err(r.fields[i].name.clone());
            },
        }
        i += 1;
    }
    Ok(vals)
}

/// Decodes a JSON value as a value of type `t`.
pub fn decode_value(j: &Json, t: &TypeRef) -> (res: Result<Value, ParamError>)
    ensures
        match res {
            Ok(v) => decode_ok(*j, *t) && decodes_to(*j, *t, v),
            Err(e) => !decode_ok(*j, *t) && decode_fault(*j, *t, e),
        },
{
    match t {
        TypeRef::Unit => match j {
            Json::Null => Ok(Value::Unit),
            _ => Err(ParamError::Shape),
        },
        TypeRef::Bool => match decode_scalar(j, Scalar::Bool) {
            Some(v) => Ok(v),
            None => Err(ParamError::Shape),
        },
        TypeRef::Int => match decode_scalar(j, Scalar::Int) {
            Some(v) => Ok(v),
            None => Err(ParamError::Shape),
        },
        TypeRef::Str => match decode_scalar(j, Scalar::Str) {
            Some(v) => Ok(v),
            None => Err(ParamError::Shape),
        },
        TypeRef::Record(r) => match j {
            Json::Object(ms) => match decode_record(ms, r) {
                Ok(vals) => Ok(Value::Record(vals)),
                Err(n) => Err(ParamError::Field(n)),
            },
            _ => Err(ParamError::Shape),
        },
    }
}

} // verus!
