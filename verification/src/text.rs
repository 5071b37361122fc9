use vstd::prelude::*;
use vstd::string::StringExecFns;

verus! {

/// Whether a string equals the given slice, compared character by character.
pub fn str_eq(a: &String, lit: &str) -> (r: bool)
    ensures
        r == (a@ == lit@),
{
    let l = String::from_str(lit);
    *a == l
}

} // verus!
