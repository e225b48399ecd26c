use convert_case::{Case, Casing};
use vstd::prelude::*;

verus! {

/// The camel-case form of an identifier, as convert_case computes it.
pub uninterp spec fn camel_of(s: Seq<char>) -> Seq<char>;

/// Relies on convert_case's `Casing::to_case` with `Case::Camel`: its result
/// depends on the characters of the input alone.
#[verifier::external_body]
pub(crate) fn to_camel(s: &String) -> (r: String)
    ensures
        r@ == camel_of(s@),
{
    s.to_case(Case::Camel)
}

/// The decimal digits of `n`.
pub open spec fn decimal(n: nat) -> Seq<char>
    decreases n,
{
    if n < 10 {
        seq![digit_char(n)]
    } else {
        decimal(n / 10) + seq![digit_char(n % 10)]
    }
}

pub open spec fn digit_char(d: nat) -> char {
    if d == 0 { '0' } else if d == 1 { '1' } else if d == 2 { '2' } else if d == 3 { '3' }
    else if d == 4 { '4' } else if d == 5 { '5' } else if d == 6 { '6' } else if d == 7 { '7' }
    else if d == 8 { '8' } else { '9' }
}

/// Relies on std's `format!` of an unsigned integer: its decimal digits,
/// without sign or padding.
#[verifier::external_body]
fn decimal_string(n: usize) -> (r: String)
    ensures
        r@ == decimal(n as nat),
{
    format!("{}", n)
}

/// The name of an unnamed positional parameter: `arg` and its number.
pub(crate) fn positional_name(n: usize) -> (r: String)
    ensures
        r@ == seq!['a', 'r', 'g'] + decimal(n as nat),
{
    let digits = decimal_string(n);
    let mut name = "arg".to_owned();
    proof {
        reveal_strlit("arg");
    }
    name.append(digits.as_str());
    assert(name@ =~= seq!['a', 'r', 'g'] + decimal(n as nat));
    name
}

} // verus!
