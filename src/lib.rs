//! Liveness probe for the hdl21 extension module.
//!
//! The module exposes one operation to its host: `health`, which answers with
//! the fixed text `alive`. It reads no state and writes none, so every call,
//! from any caller and in any order, gives the same answer.
use vstd::prelude::*;

verus! {

/// The answer of the health check, character by character.
pub open spec fn alive_text() -> Seq<char> {
    seq!['a', 'l', 'i', 'v', 'e']
}

/// Health check: answers with the text `alive`, always and without failing.
pub fn health() -> (r: String)
    ensures
        r@ == alive_text(),
{
    let r = String::from_str("alive");
    proof {
        reveal_strlit("alive");
        assert(r@ =~= alive_text());
    }
    r
}

/// Two answers of the health check are the same text: calling it again gives
/// exactly what the previous call gave.
pub proof fn lemma_health_idempotent(first: String, second: String)
    requires
        first@ == alive_text(),
        second@ == alive_text(),
    ensures
        first@ == second@,
{
}

/// The answers of any number of health checks, taken in the order they were
/// made, are all the same text, whatever came before: no call changes or
/// depends on another.
pub proof fn lemma_health_independent_of_history(answers: Seq<String>)
    requires
        forall|k: int| 0 <= k < answers.len() ==> #[trigger] answers[k]@ == alive_text(),
    ensures
        forall|i: int, j: int|
            0 <= i < answers.len() && 0 <= j < answers.len() ==> #[trigger] answers[i]@
                == #[trigger] answers[j]@,
{
}

} // verus!
