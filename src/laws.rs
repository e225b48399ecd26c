use crate::catalogue::{all_refs, lemma_dedup, opt_key_view};
use crate::client::{client_of, ClientModule};
use crate::registry::{
    build_outcome, fault_of, first_fault, lemma_first_fault_stable, names_unique, rpc_name_of,
    Declaration, Registry, RootOptions, ValidationError,
};
use crate::schema::{schema_of, SchemaDocument, SchemaParams};
use crate::types::keys_view;
use vstd::prelude::*;

verus! {

proof fn lemma_fault_found(decls: Seq<Declaration>, all_positional: bool, j: int)
    requires
        0 <= j < decls.len(),
        fault_of(decls, all_positional, j) is Some,
    ensures
        first_fault(decls, all_positional, decls.len()) is Some,
{
    assert(first_fault(decls, all_positional, (j + 1) as nat) is Some);
    lemma_first_fault_stable(decls, all_positional, (j + 1) as nat, decls.len());
}

/// A registry that `build` returns has unique wire names, and declarations
/// where two methods share a wire name are refused.
pub proof fn lemma_wire_names_unique(
    decls: Seq<Declaration>,
    root: RootOptions,
    r: Result<Registry, ValidationError>,
)
    requires
        build_outcome(decls, root, r),
    ensures
        r matches Ok(reg) ==> names_unique(reg.methods@),
        (exists|i: int, j: int|
            0 <= i < j < decls.len() && rpc_name_of(#[trigger] decls[i]) == rpc_name_of(
                #[trigger] decls[j],
            )) ==> r is Err,
{
    if exists|i: int, j: int|
        0 <= i < j < decls.len() && rpc_name_of(#[trigger] decls[i]) == rpc_name_of(#[trigger] decls[j]) {
        let (i, j) = choose|i: int, j: int|
            0 <= i < j < decls.len() && rpc_name_of(#[trigger] decls[i]) == rpc_name_of(
                #[trigger] decls[j],
            );
        assert(rpc_name_of(decls[i]) == rpc_name_of(decls[j]));
        lemma_fault_found(decls, root.all_positional, j);
    }
}

/// In a registry that `build` returns no notification has a result, and a
/// notification declared with a result other than unit is refused.
pub proof fn lemma_notifications_have_no_result(
    decls: Seq<Declaration>,
    root: RootOptions,
    r: Result<Registry, ValidationError>,
)
    requires
        build_outcome(decls, root, r),
    ensures
        r matches Ok(reg) ==> forall|i: int|
            0 <= i < reg.methods@.len() && (#[trigger] reg.methods@[i]).is_notification
                ==> reg.methods@[i].result is None,
        (exists|i: int|
            0 <= i < decls.len() && (#[trigger] decls[i]).notification && decls[i].result is Some
                && !(decls[i].result->Some_0 is Unit)) ==> r is Err,
{
    if exists|i: int|
        0 <= i < decls.len() && (#[trigger] decls[i]).notification && decls[i].result is Some
            && !(decls[i].result->Some_0 is Unit) {
        let i = choose|i: int|
            0 <= i < decls.len() && (#[trigger] decls[i]).notification && decls[i].result is Some
                && !(decls[i].result->Some_0 is Unit);
        lemma_fault_found(decls, root.all_positional, i);
    }
}

/// The client module and the schema generated from one registry list the
/// methods in the same order and carry the same type catalogue: each type
/// once, and every type that some method refers to.
pub proof fn lemma_outputs_agree(reg: Registry, c: ClientModule, d: SchemaDocument)
    requires
        client_of(c, reg),
        schema_of(d, reg),
    ensures
        c.methods@.len() == d.entries@.len(),
        forall|i: int|
            0 <= i < c.methods@.len() ==> (#[trigger] c.methods@[i]).rpc_name@
                == d.entries@[i].rpc_name@,
        keys_view(c.types@) == keys_view(d.types@),
        keys_view(c.types@).no_duplicates(),
        keys_view(c.types@).to_set() == all_refs(reg.methods@).to_set(),
{
    assert forall|i: int| 0 <= i < c.methods@.len() implies (#[trigger] c.methods@[i]).rpc_name@
        == d.entries@[i].rpc_name@ by {
        assert(crate::client::stub_of(c.methods@[i], reg.methods@[i]));
        assert(crate::schema::entry_of(d.entries@[i], reg.methods@[i]));
    }
    lemma_dedup(all_refs(reg.methods@));
}

/// Two client modules agree in every name, argument, type and flag.
pub open spec fn same_client(a: ClientModule, b: ClientModule) -> bool {
    &&& a.methods@.len() == b.methods@.len()
    &&& forall|i: int|
        0 <= i < a.methods@.len() ==> {
            let x = #[trigger] a.methods@[i];
            let y = b.methods@[i];
            &&& x.exposed_name@ == y.exposed_name@
            &&& x.rpc_name@ == y.rpc_name@
            &&& x.is_notification == y.is_notification
            &&& x.is_positional == y.is_positional
            &&& x.docs == y.docs
            &&& opt_key_view(x.result) == opt_key_view(y.result)
            &&& x.args@.len() == y.args@.len()
            &&& forall|k: int|
                0 <= k < x.args@.len() ==> (#[trigger] x.args@[k]).name@ == y.args@[k].name@
                    && x.args@[k].ty@ == y.args@[k].ty@
        }
    &&& keys_view(a.types@) == keys_view(b.types@)
}

/// Two schema documents agree in every name, parameter, type and flag.
pub open spec fn same_schema(a: SchemaDocument, b: SchemaDocument) -> bool {
    &&& a.entries@.len() == b.entries@.len()
    &&& forall|i: int|
        0 <= i < a.entries@.len() ==> {
            let x = #[trigger] a.entries@[i];
            let y = b.entries@[i];
            &&& x.rpc_name@ == y.rpc_name@
            &&& x.notification == y.notification
            &&& x.docs == y.docs
            &&& opt_key_view(x.result) == opt_key_view(y.result)
            &&& match (x.params, y.params) {
                (SchemaParams::Positional(p), SchemaParams::Positional(q)) => p@.len() == q@.len()
                    && forall|k: int|
                    0 <= k < p@.len() ==> (#[trigger] p@[k]).name == q@[k].name && p@[k].ty@
                        == q@[k].ty@,
                (SchemaParams::Structured(None), SchemaParams::Structured(None)) => true,
                (SchemaParams::Structured(Some(p)), SchemaParams::Structured(Some(q))) => p.name
                    == q.name && p.ty@ == q.ty@,
                _ => false,
            }
        }
    &&& keys_view(a.types@) == keys_view(b.types@)
}

/// Generating the client module and the schema twice from one registry gives
/// the same artifacts both times.
pub proof fn lemma_regeneration_stable(
    reg: Registry,
    c1: ClientModule,
    c2: ClientModule,
    d1: SchemaDocument,
    d2: SchemaDocument,
)
    requires
        client_of(c1, reg),
        client_of(c2, reg),
        schema_of(d1, reg),
        schema_of(d2, reg),
    ensures
        same_client(c1, c2),
        same_schema(d1, d2),
{
    assert forall|i: int| 0 <= i < c1.methods@.len() implies {
        let x = #[trigger] c1.methods@[i];
        let y = c2.methods@[i];
        &&& x.exposed_name@ == y.exposed_name@
        &&& x.rpc_name@ == y.rpc_name@
        &&& x.is_notification == y.is_notification
        &&& x.is_positional == y.is_positional
        &&& x.docs == y.docs
        &&& opt_key_view(x.result) == opt_key_view(y.result)
        &&& x.args@.len() == y.args@.len()
        &&& forall|k: int|
            0 <= k < x.args@.len() ==> (#[trigger] x.args@[k]).name@ == y.args@[k].name@
                && x.args@[k].ty@ == y.args@[k].ty@
    } by {
        assert(crate::client::stub_of(c1.methods@[i], reg.methods@[i]));
        assert(crate::client::stub_of(c2.methods@[i], reg.methods@[i]));
    }
    assert forall|i: int| 0 <= i < d1.entries@.len() implies {
        let x = #[trigger] d1.entries@[i];
        let y = d2.entries@[i];
        &&& x.rpc_name@ == y.rpc_name@
        &&& x.notification == y.notification
        &&& x.docs == y.docs
        &&& opt_key_view(x.result) == opt_key_view(y.result)
        &&& match (x.params, y.params) {
            (SchemaParams::Positional(p), SchemaParams::Positional(q)) => p@.len() == q@.len()
                && forall|k: int|
                0 <= k < p@.len() ==> (#[trigger] p@[k]).name == q@[k].name && p@[k].ty@
                    == q@[k].ty@,
            (SchemaParams::Structured(None), SchemaParams::Structured(None)) => true,
            (SchemaParams::Structured(Some(p)), SchemaParams::Structured(Some(q))) => p.name
                == q.name && p.ty@ == q.ty@,
            _ => false,
        }
    } by {
        assert(crate::schema::entry_of(d1.entries@[i], reg.methods@[i]));
        assert(crate::schema::entry_of(d2.entries@[i], reg.methods@[i]));
    }
}

} // verus!
