use vstd::prelude::*;

verus! {

/// Relies on std's `format!`: the two strings with `sep` between them.
#[verifier::external_body]
pub(crate) fn join_with(a: &str, sep: char, b: &str) -> (r: String)
    ensures
        r@ == a@ + seq![sep] + b@,
{
    format!("{}{}{}", a, sep, b)
}

} // verus!
