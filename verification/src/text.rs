use vstd::prelude::*;
use vstd::string::StringExecFns;

verus! {

/// Compares two string slices by content, with the comparison's meaning
/// visible to the verifier through the strings' views.
pub fn str_eq(a: &str, b: &str) -> (r: bool)
    ensures
        r == (a@ == b@),
{
    let x = String::from_str(a);
    let y = String::from_str(b);
    x == y
}

} // verus!
