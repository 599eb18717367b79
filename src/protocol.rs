use vstd::prelude::*;

use crate::lit::{is_lit_value, Lit};
use crate::state::Phase;

verus! {

/// What the engine's solve returns when it was interrupted.
pub const SOLVE_UNKNOWN: i32 = 0;

/// What the engine's solve returns when it found a model.
pub const SOLVE_SAT: i32 = 10;

/// What the engine's solve returns when it proved that there is no model.
pub const SOLVE_UNSAT: i32 = 20;

/// The phase a solve result code leads to; `None` for a code outside the
/// engine's contract.
pub open spec fn solve_phase(code: int) -> Option<Phase> {
    if code == SOLVE_UNKNOWN as int {
        Some(Phase::Unknown)
    } else if code == SOLVE_SAT as int {
        Some(Phase::Sat)
    } else if code == SOLVE_UNSAT as int {
        Some(Phase::Unsat)
    } else {
        None
    }
}

/// Maps the engine's solve result code to the phase the session moves to.
pub fn phase_after_solve(code: i32) -> (r: Option<Phase>)
    ensures
        r == solve_phase(code as int),
{
    if code == SOLVE_UNKNOWN {
        Some(Phase::Unknown)
    } else if code == SOLVE_SAT {
        Some(Phase::Sat)
    } else if code == SOLVE_UNSAT {
        Some(Phase::Unsat)
    } else {
        None
    }
}

/// The values handed to the engine's add entry point for one clause: each
/// literal's encoding, then the terminating zero.
pub open spec fn clause_encoding(c: Seq<Lit>) -> Seq<int> {
    c.map_values(|l: Lit| l@).push(0)
}

/// The sequence of values that adds `clause` to the engine as one clause.
pub fn clause_commands(clause: &[Lit]) -> (r: Vec<i32>)
    ensures
        r@.map_values(|x: i32| x as int) == clause_encoding(clause@),
{
    let mut r: Vec<i32> = Vec::new();
    let mut i: usize = 0;
    while i < clause.len()
        invariant
            i <= clause@.len(),
            r@.len() == i,
            forall|j: int| 0 <= j < i ==> #[trigger] r@[j] as int == clause@[j]@,
        decreases clause@.len() - i,
    {
        let v = clause[i].get();
        r.push(v);
        i = i + 1;
    }
    r.push(0);
    assert(r@.map_values(|x: i32| x as int) =~= clause_encoding(clause@));
    r
}

/// A clause of valid literals reaches the engine as exactly one clause: every
/// value but the last is nonzero, and the last is the terminating zero.
pub proof fn lemma_encoding_one_clause(c: Seq<Lit>)
    requires
        forall|i: int| 0 <= i < c.len() ==> is_lit_value(#[trigger] c[i]@),
    ensures
        clause_encoding(c).len() == c.len() + 1,
        clause_encoding(c).last() == 0,
        forall|i: int| 0 <= i < c.len() ==> #[trigger] clause_encoding(c)[i] != 0,
{
    assert forall|i: int| 0 <= i < c.len() implies #[trigger] clause_encoding(c)[i] != 0 by {
        assert(clause_encoding(c)[i] == c[i]@);
    }
}

/// Whether a literal is true in the model, from the engine's value query.
pub fn model_value(res: i32) -> (r: bool)
    ensures
        r == (res > 0),
{
    res > 0
}

/// Whether an assumption is in the failed core, from the engine's query.
pub fn failed_value(res: i32) -> (r: bool)
    ensures
        r == (res != 0),
{
    res != 0
}

} // verus!
