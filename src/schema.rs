use crate::catalogue::{catalogue_of, exposed_result, opt_key_view, type_catalogue};
use crate::client::{copy_text, result_key};
use crate::registry::{MethodDescriptor, Param, ParamShape, Registry};
use crate::types::{key_of, keys_view, TypeKey};
use crate::consistency::{check_types, types_consistent, GenerationError};
use vstd::prelude::*;

verus! {

/// A parameter as the schema describes it.
#[derive(Debug)]
pub struct SchemaParam {
    pub name: Option<String>,
    pub ty: TypeKey,
}

/// The parameter shape as the schema describes it.
#[derive(Debug)]
pub enum SchemaParams {
    Positional(Vec<SchemaParam>),
    Structured(Option<SchemaParam>),
}

/// One method as the schema describes it.
#[derive(Debug)]
pub struct SchemaEntry {
    pub rpc_name: String,
    pub params: SchemaParams,
    pub result: Option<TypeKey>,
    pub docs: Option<String>,
    pub notification: bool,
}

/// The schema document: one entry per method, in registry order, and the
/// catalogue of the types they refer to.
#[derive(Debug)]
pub struct SchemaDocument {
    pub entries: Vec<SchemaEntry>,
    pub types: Vec<TypeKey>,
}

pub open spec fn param_is(s: SchemaParam, p: Param) -> bool {
    s.name == p.name && s.ty@ == key_of(p.ty)
}

/// `e` is the schema entry for `m`.
pub open spec fn entry_of(e: SchemaEntry, m: MethodDescriptor) -> bool {
    &&& e.rpc_name@ == m.rpc_name@
    &&& e.notification == m.is_notification
    &&& e.docs == m.docs
    &&& opt_key_view(e.result) == exposed_result(m)
    &&& match m.params {
        ParamShape::Positional(ps) => e.params is Positional && {
            let sps = e.params->Positional_0@;
            sps.len() == ps@.len() && forall|i: int| 0 <= i < ps@.len() ==> param_is(#[trigger] sps[i], ps@[i])
        },
        ParamShape::Structured(None) => e.params matches SchemaParams::Structured(None),
        ParamShape::Structured(Some(p)) => e.params matches SchemaParams::Structured(Some(sp))
            && param_is(sp, p),
    }
}

/// `d` is the schema document generated for `reg`.
pub open spec fn schema_of(d: SchemaDocument, reg: Registry) -> bool {
    &&& d.entries@.len() == reg.methods@.len()
    &&& forall|i: int| 0 <= i < reg.methods@.len() ==> entry_of(#[trigger] d.entries@[i], reg.methods@[i])
    &&& keys_view(d.types@) == catalogue_of(reg.methods@)
}

fn schema_param(p: &Param) -> (s: SchemaParam)
    ensures
        param_is(s, *p),
{
    SchemaParam { name: copy_text(&p.name), ty: p.ty.key() }
}

fn schema_entry(m: &MethodDescriptor) -> (e: SchemaEntry)
    ensures
        entry_of(e, *m),
{
    let params = match &m.params {
        ParamShape::Positional(ps) => {
            let mut out: Vec<SchemaParam> = Vec::new();
            let mut i: usize = 0;
            while i < ps.len()
                invariant
                    i <= ps@.len(),
                    out@.len() == i,
                    forall|k: int| 0 <= k < i ==> param_is(#[trigger] out@[k], ps@[k]),
                decreases ps.len() - i,
            {
                out.push(schema_param(&ps[i]));
                i += 1;
            }
            SchemaParams::Positional(out)
        },
        ParamShape::Structured(None) => SchemaParams::Structured(None),
        ParamShape::Structured(Some(p)) => SchemaParams::Structured(Some(schema_param(p))),
    };
    SchemaEntry {
        rpc_name: m.rpc_name.clone(),
        params,
        result: result_key(m),
        docs: copy_text(&m.docs),
        notification: m.is_notification,
    }
}

/// Generates the schema document: one entry per method, in registry order,
/// and the deduplicated catalogue of the types they refer to; refuses a
/// registry whose references to one record type disagree.
pub fn generate_schema(reg: &Registry) -> (r: Result<SchemaDocument, GenerationError>)
    ensures
        match r {
            Ok(d) => types_consistent(reg.methods@) && schema_of(d, *reg),
            Err(_) => !types_consistent(reg.methods@),
        },
{
    if let Err(e) = check_types(&reg.methods) {
        return Err(e);
    }
    let mut entries: Vec<SchemaEntry> = Vec::new();
    let mut i: usize = 0;
    while i < reg.methods.len()
        invariant
            i <= reg.methods@.len(),
            entries@.len() == i,
            forall|k: int| 0 <= k < i ==> entry_of(#[trigger] entries@[k], reg.methods@[k]),
        decreases reg.methods.len() - i,
    {
        entries.push(schema_entry(&reg.methods[i]));
        i += 1;
    }
    Ok(SchemaDocument { entries, types: type_catalogue(&reg.methods) })
}

} // verus!
