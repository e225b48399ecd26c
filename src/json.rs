use vstd::prelude::*;

verus! {

/// A JSON value as it travels on the wire.
#[derive(Debug)]
pub enum Json {
    Null,
    Bool(bool),
    Int(i64),
    Str(String),
    Array(Vec<Json>),
    Object(Vec<Member>),
}

/// One `key: value` entry of a JSON object, in the order it was written.
#[derive(Debug)]
pub struct Member {
    pub key: String,
    pub value: Json,
}

/// The first member of `ms` with the given key, if any.
pub open spec fn lookup(ms: Seq<Member>, key: Seq<char>) -> Option<Json>
    decreases ms.len(),
{
    if ms.len() == 0 {
        None
    } else if ms[0].key@ == key {
        Some(ms[0].value)
    } else {
        lookup(ms.drop_first(), key)
    }
}

/// Finds the first member with the given key.
pub fn find_member<'a>(ms: &'a Vec<Member>, key: &String) -> (r: Option<&'a Json>)
    ensures
        match r {
            Some(j) => lookup(ms@, key@) == Some(*j),
            None => lookup(ms@, key@) is None,
        },
{
    let mut i: usize = 0;
    assert(ms@.subrange(0, ms@.len() as int) =~= ms@);
    while i < ms.len()
        invariant
            i <= ms@.len(),
            lookup(ms@, key@) == lookup(ms@.subrange(i as int, ms@.len() as int), key@),
        decreases ms.len() - i,
    {
        let ghost rest = ms@.subrange(i as int, ms@.len() as int);
        assert(rest.drop_first() =~= ms@.subrange(i + 1, ms@.len() as int));
        if ms[i].key == *key {
            return Some(&ms[i].value);
        }
        i += 1;
    }
    None
}

} // verus!
