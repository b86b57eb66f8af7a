//! How finished requests are labelled in the request counter.
use vstd::prelude::*;

verus! {

/// The `outcome` label a finished request is counted under.
pub open spec fn outcome_of(succeeded: bool) -> Seq<char> {
    if succeeded {
        "ok"@
    } else {
        "error"@
    }
}

/// The `outcome` label of the request counter: `ok` for a request that was
/// answered, `error` for one that failed.
pub fn outcome_label(succeeded: bool) -> (r: &'static str)
    ensures
        r@ == outcome_of(succeeded),
        succeeded ==> r@ == "ok"@,
        !succeeded ==> r@ == "error"@,
{
    if succeeded {
        "ok"
    } else {
        "error"
    }
}

/// An answered request is counted as `ok`, a failed one as `error`, and the
/// two labels differ.
pub proof fn lemma_outcome_labels()
    ensures
        outcome_of(true) == "ok"@,
        outcome_of(false) == "error"@,
        outcome_of(true) != outcome_of(false),
{
    reveal_strlit("ok");
    reveal_strlit("error");
    assert(outcome_of(true).len() != outcome_of(false).len());
}

} // verus!
