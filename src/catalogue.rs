use crate::registry::{MethodDescriptor, Param, ParamShape};
use crate::types::{key_of, keys_view, KeyView, TypeKey, TypeRef};
use vstd::prelude::*;

verus! {

/// The types a parameter shape refers to, in order.
pub open spec fn param_refs(shape: ParamShape) -> Seq<KeyView> {
    match shape {
        ParamShape::Positional(ps) => ps@.map_values(|p: Param| key_of(p.ty)),
        ParamShape::Structured(None) => Seq::empty(),
        ParamShape::Structured(Some(p)) => seq![key_of(p.ty)],
    }
}

pub open spec fn opt_key(t: Option<TypeRef>) -> Option<KeyView> {
    match t {
        Some(t) => Some(key_of(t)),
        None => None,
    }
}

pub open spec fn opt_key_view(k: Option<TypeKey>) -> Option<KeyView> {
    match k {
        Some(k) => Some(k@),
        None => None,
    }
}

/// The result type a method exposes: none for a notification.
pub open spec fn exposed_result(m: MethodDescriptor) -> Option<KeyView> {
    if m.is_notification {
        None
    } else {
        opt_key(m.result)
    }
}

/// The types a method refers to: its parameters, then its result.
pub open spec fn method_refs(m: MethodDescriptor) -> Seq<KeyView> {
    param_refs(m.params) + match exposed_result(m) {
        Some(k) => seq![k],
        None => Seq::empty(),
    }
}

/// Every type reference of the methods, in method order, repeats included.
pub open spec fn all_refs(ms: Seq<MethodDescriptor>) -> Seq<KeyView>
    decreases ms.len(),
{
    if ms.len() == 0 {
        Seq::empty()
    } else {
        all_refs(ms.drop_last()) + method_refs(ms.last())
    }
}

/// The first occurrence of each key, in order.
pub open spec fn dedup(s: Seq<KeyView>) -> Seq<KeyView>
    decreases s.len(),
{
    if s.len() == 0 {
        Seq::empty()
    } else {
        let d = dedup(s.drop_last());
        if d.contains(s.last()) {
            d
        } else {
            d.push(s.last())
        }
    }
}

/// The type catalogue of a list of methods.
pub open spec fn catalogue_of(ms: Seq<MethodDescriptor>) -> Seq<KeyView> {
    dedup(all_refs(ms))
}

proof fn lemma_keys_push(s: Seq<TypeKey>, k: TypeKey)
    ensures
        keys_view(s.push(k)) == keys_view(s).push(k@),
{
    assert(keys_view(s.push(k)) =~= keys_view(s).push(k@));
}

/// A catalogue holds each key once, and exactly the keys referred to.
pub proof fn lemma_dedup(s: Seq<KeyView>)
    ensures
        dedup(s).no_duplicates(),
        dedup(s).to_set() == s.to_set(),
    decreases s.len(),
{
    if s.len() > 0 {
        let p = s.drop_last();
        lemma_dedup(p);
        assert(s =~= p.push(s.last()));
        let d = dedup(p);
        if !d.contains(s.last()) {
            assert forall|i: int, j: int|
                0 <= i < d.push(s.last()).len() && 0 <= j < d.push(s.last()).len() && i != j implies d.push(
                s.last(),
            )[i] != d.push(s.last())[j] by {
                if i < d.len() && j < d.len() {
                } else if i == d.len() {
                    assert(d.contains(d[j]));
                } else {
                    assert(d.contains(d[i]));
                }
            }
        }
        assert(dedup(s).to_set() =~= s.to_set()) by {
            assert forall|x: KeyView| s.to_set().contains(x) implies dedup(s).to_set().contains(x) by {
                let i = choose|i: int| 0 <= i < s.len() && s[i] == x;
                if i < p.len() {
                    assert(p[i] == x);
                    assert(p.to_set().contains(x));
                    assert(d.to_set().contains(x));
                    let j = choose|j: int| 0 <= j < d.len() && d[j] == x;
                    if !d.contains(s.last()) {
                        assert(d.push(s.last())[j] == x);
                    }
                } else {
                    if !d.contains(s.last()) {
                        assert(d.push(s.last())[d.len() as int] == x);
                    }
                }
            }
            assert forall|x: KeyView| dedup(s).to_set().contains(x) implies s.to_set().contains(x) by {
                let i = choose|i: int| 0 <= i < dedup(s).len() && dedup(s)[i] == x;
                if i < d.len() {
                    assert(d.contains(x));
                    assert(d.to_set().contains(x));
                    assert(p.to_set().contains(x));
                    let j = choose|j: int| 0 <= j < p.len() && p[j] == x;
                    assert(s[j] == x);
                } else {
                    assert(s[s.len() - 1] == x);
                }
            }
        }
    }
}

/// The keys a method refers to, in order.
fn method_keys(m: &MethodDescriptor) -> (r: Vec<TypeKey>)
    ensures
        keys_view(r@) == method_refs(*m),
{
    let mut out: Vec<TypeKey> = Vec::new();
    match &m.params {
        ParamShape::Positional(ps) => {
            let mut i: usize = 0;
            while i < ps.len()
                invariant
                    i <= ps@.len(),
                    keys_view(out@) == ps@.subrange(0, i as int).map_values(|p: Param| key_of(p.ty)),
                decreases ps.len() - i,
            {
                let k = ps[i].ty.key();
                proof {
                    lemma_keys_push(out@, k);
                }
                out.push(k);
                i += 1;
                assert(ps@.subrange(0, i as int).map_values(|p: Param| key_of(p.ty)) =~= ps@.subrange(
                    0,
                    (i - 1) as int,
                ).map_values(|p: Param| key_of(p.ty)).push(key_of(ps@[i - 1].ty)));
            }
            assert(ps@.subrange(0, ps@.len() as int) =~= ps@);
        },
        ParamShape::Structured(None) => {
            assert(keys_view(out@) =~= Seq::empty());
        },
        ParamShape::Structured(Some(p)) => {
            let k = p.ty.key();
            proof {
                lemma_keys_push(out@, k);
                assert(keys_view(out@) =~= Seq::empty());
            }
            out.push(k);
        },
    }
    let ghost before = keys_view(out@);
    assert(before == param_refs(m.params));
    if !m.is_notification {
        match &m.result {
            Some(t) => {
                let k = t.key();
                proof {
                    lemma_keys_push(out@, k);
                }
                out.push(k);
                assert(keys_view(out@) =~= param_refs(m.params) + seq![key_of(*t)]);
            },
            None => {
                assert(keys_view(out@) =~= param_refs(m.params) + Seq::empty());
            },
        }
    } else {
        assert(keys_view(out@) =~= param_refs(m.params) + Seq::empty());
    }
    out
}

/// Every key the methods refer to, in method order, repeats included.
fn referenced_keys(ms: &Vec<MethodDescriptor>) -> (r: Vec<TypeKey>)
    ensures
        keys_view(r@) == all_refs(ms@),
{
    let mut out: Vec<TypeKey> = Vec::new();
    let mut i: usize = 0;
    assert(ms@.subrange(0, 0) =~= Seq::<MethodDescriptor>::empty());
    assert(keys_view(out@) =~= Seq::empty());
    while i < ms.len()
        invariant
            i <= ms@.len(),
            keys_view(out@) == all_refs(ms@.subrange(0, i as int)),
        decreases ms.len() - i,
    {
        let ks = method_keys(&ms[i]);
        let ghost start = keys_view(out@);
        let mut j: usize = 0;
        while j < ks.len()
            invariant
                j <= ks@.len(),
                keys_view(out@) == start + keys_view(ks@).subrange(0, j as int),
            decreases ks.len() - j,
        {
            let k = ks[j].duplicate();
            proof {
                lemma_keys_push(out@, k);
            }
            out.push(k);
            j += 1;
            assert(start + keys_view(ks@).subrange(0, j as int) =~= (start + keys_view(ks@).subrange(
                0,
                (j - 1) as int,
            )).push(k@));
        }
        assert(keys_view(ks@).subrange(0, ks@.len() as int) =~= keys_view(ks@));
        let ghost next = ms@.subrange(0, i + 1);
        assert(next.drop_last() =~= ms@.subrange(0, i as int));
        i += 1;
    }
    assert(ms@.subrange(0, ms@.len() as int) =~= ms@);
    out
}

fn contains_key(ks: &Vec<TypeKey>, k: &TypeKey) -> (r: bool)
    ensures
        r == keys_view(ks@).contains(k@),
{
    let mut i: usize = 0;
    while i < ks.len()
        invariant
            i <= ks@.len(),
            forall|j: int| 0 <= j < i ==> (#[trigger] ks@[j])@ != k@,
        decreases ks.len() - i,
    {
        if ks[i].same(k) {
            assert(keys_view(ks@)[i as int] == k@);
            return true;
        }
        i += 1;
    }
    proof {
        if keys_view(ks@).contains(k@) {
            let j = choose|j: int| 0 <= j < keys_view(ks@).len() && keys_view(ks@)[j] == k@;
            assert(ks@[j]@ == k@);
        }
    }
    false
}

/// The deduplicated catalogue of the types the methods refer to, each at its
/// first reference.
pub fn type_catalogue(ms: &Vec<MethodDescriptor>) -> (r: Vec<TypeKey>)
    ensures
        keys_view(r@) == catalogue_of(ms@),
{
    let refs = referenced_keys(ms);
    let mut out: Vec<TypeKey> = Vec::new();
    let mut i: usize = 0;
    assert(keys_view(refs@).subrange(0, 0) =~= Seq::<KeyView>::empty());
    assert(keys_view(out@) =~= Seq::empty());
    while i < refs.len()
        invariant
            i <= refs@.len(),
            keys_view(out@) == dedup(keys_view(refs@).subrange(0, i as int)),
        decreases refs.len() - i,
    {
        let ghost pre = keys_view(refs@).subrange(0, i + 1);
        assert(pre.drop_last() =~= keys_view(refs@).subrange(0, i as int));
        assert(pre.last() == refs@[i as int]@);
        if !contains_key(&out, &refs[i]) {
            let k = refs[i].duplicate();
            proof {
                lemma_keys_push(out@, k);
            }
            out.push(k);
        }
        i += 1;
    }
    assert(keys_view(refs@).subrange(0, refs@.len() as int) =~= keys_view(refs@));
    out
}

} // verus!
