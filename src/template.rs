use vstd::prelude::*;

verus! {

/// `s` with every non-overlapping occurrence of `pat`, found from left to
/// right, replaced by `with`.
pub open spec fn replace_all(s: Seq<char>, pat: Seq<char>, with: Seq<char>) -> Seq<char>
    decreases s.len(),
{
    if pat.len() == 0 || s.len() < pat.len() {
        s
    } else if s.subrange(0, pat.len() as int) == pat {
        with + replace_all(s.subrange(pat.len() as int, s.len() as int), pat, with)
    } else {
        seq![s[0]] + replace_all(s.drop_first(), pat, with)
    }
}

/// The marker in a client template where the call wrappers go.
pub open spec fn methods_marker() -> Seq<char> {
    seq!['#', 'm', 'e', 't', 'h', 'o', 'd', 's']
}

/// Relies on std's `str::replace`: a new string in which each match of the
/// pattern, searched from left to right without overlap, is replaced.
#[verifier::external_body]
fn replace_str(s: &str, pat: &str, with: &str) -> (r: String)
    requires
        pat@.len() > 0,
    ensures
        r@ == replace_all(s@, pat@, with@),
{
    s.replace(pat, with)
}

/// Splices the rendered call wrappers into a client template at its
/// `#methods` marker; the rest of the template is kept as it is.
pub fn splice_methods(template: &str, methods: &str) -> (r: String)
    ensures
        r@ == replace_all(template@, methods_marker(), methods@),
{
    let marker = "#methods";
    proof {
        reveal_strlit("#methods");
    }
    assert(marker@ =~= methods_marker());
    replace_str(template, marker, methods)
}

} // verus!
