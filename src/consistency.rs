use crate::registry::{MethodDescriptor, Param, ParamShape};
use crate::types::{key_of, Field, Scalar, TypeRef};
use vstd::prelude::*;

verus! {

/// Why the generators cannot describe the registry's types.
#[derive(Debug)]
pub enum GenerationError {
    /// Two record types share this name but differ in their fields.
    InconsistentType(String),
}

pub type FieldView = (Seq<char>, Scalar, bool);

/// The fields of a type as a generator describes them; none for a built-in type.
pub open spec fn body_of(t: TypeRef) -> Seq<FieldView> {
    match t {
        TypeRef::Record(r) => r.fields@.map_values(|f: Field| (f.name@, f.ty, f.optional)),
        _ => Seq::empty(),
    }
}

/// Two references to one type describe it alike.
pub open spec fn agree(a: TypeRef, b: TypeRef) -> bool {
    key_of(a) == key_of(b) ==> body_of(a) == body_of(b)
}

/// The types a method refers to: its parameters, then its exposed result.
pub open spec fn method_types(m: MethodDescriptor) -> Seq<TypeRef> {
    let ps = match m.params {
        ParamShape::Positional(ps) => ps@.map_values(|p: Param| p.ty),
        ParamShape::Structured(None) => Seq::empty(),
        ParamShape::Structured(Some(p)) => seq![p.ty],
    };
    if !m.is_notification && m.result is Some {
        ps.push(m.result->Some_0)
    } else {
        ps
    }
}

/// Every type reference of the methods, in method order.
pub open spec fn all_types(ms: Seq<MethodDescriptor>) -> Seq<TypeRef>
    decreases ms.len(),
{
    if ms.len() == 0 {
        Seq::empty()
    } else {
        all_types(ms.drop_last()) + method_types(ms.last())
    }
}

/// Every two references to a type with the same key describe it alike.
pub open spec fn types_consistent(ms: Seq<MethodDescriptor>) -> bool {
    all_agree(all_types(ms))
}

pub open spec fn all_agree(ts: Seq<TypeRef>) -> bool {
    forall|i: int, j: int| 0 <= i < ts.len() && 0 <= j < ts.len() ==> agree(#[trigger] ts[i], #[trigger] ts[j])
}

fn same_field(a: &Field, b: &Field) -> (r: bool)
    ensures
        r == ((a.name@, a.ty, a.optional) == (b.name@, b.ty, b.optional)),
{
    a.name == b.name && a.ty == b.ty && a.optional == b.optional
}

fn agree_exec(a: &TypeRef, b: &TypeRef) -> (r: bool)
    ensures
        r == agree(*a, *b),
{
    match (a, b) {
        (TypeRef::Record(x), TypeRef::Record(y)) => {
            if x.name != y.name {
                return true;
            }
            let ghost bx = body_of(*a);
            let ghost by = body_of(*b);
            if x.fields.len() != y.fields.len() {
                assert(bx.len() != by.len());
                return false;
            }
            let mut i: usize = 0;
            while i < x.fields.len()
                invariant
                    i <= x.fields@.len(),
                    x.fields@.len() == y.fields@.len(),
                    x.name@ == y.name@,
                    bx == body_of(*a),
                    by == body_of(*b),
                    *a == TypeRef::Record(*x),
                    *b == TypeRef::Record(*y),
                    forall|k: int| 0 <= k < i ==> bx[k] == by[k],
                decreases x.fields.len() - i,
            {
                if !same_field(&x.fields[i], &y.fields[i]) {
                    assert(bx[i as int] != by[i as int]);
                    return false;
                }
                i += 1;
            }
            assert(bx =~= by);
            true
        },
        _ => true,
    }
}

pub open spec fn derefs(s: Seq<&TypeRef>) -> Seq<TypeRef> {
    s.map_values(|t: &TypeRef| *t)
}

proof fn lemma_derefs_push(s: Seq<&TypeRef>, t: &TypeRef)
    ensures
        derefs(s.push(t)) == derefs(s).push(*t),
{
    assert(derefs(s.push(t)) =~= derefs(s).push(*t));
}

fn method_type_refs<'a>(m: &'a MethodDescriptor, out: &mut Vec<&'a TypeRef>)
    ensures
        derefs(final(out)@) == derefs(old(out)@) + method_types(*m),
{
    let ghost start = derefs(out@);
    match &m.params {
        ParamShape::Positional(ps) => {
            let mut i: usize = 0;
            while i < ps.len()
                invariant
                    i <= ps@.len(),
                    derefs(out@) == start + ps@.subrange(0, i as int).map_values(|p: Param| p.ty),
                decreases ps.len() - i,
            {
                proof {
                    lemma_derefs_push(out@, &ps@[i as int].ty);
                }
                out.push(&ps[i].ty);
                i += 1;
                assert(ps@.subrange(0, i as int).map_values(|p: Param| p.ty) =~= ps@.subrange(
                    0,
                    (i - 1) as int,
                ).map_values(|p: Param| p.ty).push(ps@[i - 1].ty));
            }
            assert(ps@.subrange(0, ps@.len() as int) =~= ps@);
        },
        ParamShape::Structured(None) => {
            assert(derefs(out@) =~= start + Seq::<TypeRef>::empty());
        },
        ParamShape::Structured(Some(p)) => {
            proof {
                lemma_derefs_push(out@, &p.ty);
            }
            out.push(&p.ty);
            assert(derefs(out@) =~= start + seq![p.ty]);
        },
    }
    let ghost mid = derefs(out@);
    if !m.is_notification {
        match &m.result {
            Some(t) => {
                proof {
                    lemma_derefs_push(out@, t);
                }
                out.push(t);
                assert(derefs(out@) =~= start + (mid.subrange(start.len() as int, mid.len() as int)).push(*t));
            },
            None => {},
        }
    }
    assert(derefs(out@) =~= start + method_types(*m));
}

/// Checks that every two references to one record type describe it alike;
/// otherwise names the first record, in reference order, that is described
/// two ways.
pub fn check_types(ms: &Vec<MethodDescriptor>) -> (r: Result<(), GenerationError>)
    ensures
        r is Ok <==> types_consistent(ms@),
{
    let mut ts: Vec<&TypeRef> = Vec::new();
    let mut m: usize = 0;
    assert(ms@.subrange(0, 0) =~= Seq::<MethodDescriptor>::empty());
    assert(derefs(ts@) =~= Seq::<TypeRef>::empty());
    while m < ms.len()
        invariant
            m <= ms@.len(),
            derefs(ts@) == all_types(ms@.subrange(0, m as int)),
        decreases ms.len() - m,
    {
        method_type_refs(&ms[m], &mut ts);
        assert(ms@.subrange(0, m + 1).drop_last() =~= ms@.subrange(0, m as int));
        m += 1;
    }
    assert(ms@.subrange(0, ms@.len() as int) =~= ms@);
    let ghost all = all_types(ms@);
    let mut i: usize = 0;
    while i < ts.len()
        invariant
            derefs(ts@) == all,
            all == all_types(ms@),
            i <= ts@.len(),
            forall|a: int, b: int| 0 <= a < i && 0 <= b < ts@.len() ==> agree(#[trigger] all[a], #[trigger] all[b]),
        decreases ts.len() - i,
    {
        let mut j: usize = 0;
        while j < ts.len()
            invariant
                derefs(ts@) == all,
                all == all_types(ms@),
                i < ts@.len(),
                j <= ts@.len(),
                forall|a: int, b: int| 0 <= a < i && 0 <= b < ts@.len() ==> agree(#[trigger] all[a], #[trigger] all[b]),
                forall|b: int| 0 <= b < j ==> agree(all[i as int], #[trigger] all[b]),
            decreases ts.len() - j,
        {
            assert(all[i as int] == *ts@[i as int] && all[j as int] == *ts@[j as int]);
            if !agree_exec(ts[i], ts[j]) {
                assert(!agree(all[i as int], all[j as int]));
                assert(all.len() == ts@.len());
                assert(!all_agree(all));
                let name = match ts[i] {
                    TypeRef::Record(x) => x.name.clone(),
                    _ => String::new(),
                };
                return Err(GenerationError::InconsistentType(name));
            }
            j += 1;
        }
        i += 1;
    }
    Ok(())
}

} // verus!
