use vstd::prelude::*;

verus! {

/// One action on the engine's cancellation callback and its predicate.
#[derive(Debug, Clone, Copy, PartialEq, Eq, Structural)]
pub enum BridgeStep {
    /// Point the engine at the replacement predicate and the trampoline.
    Register,
    /// Clear the engine's callback: null state, no function.
    Deregister,
    /// Free the previously installed predicate with its recorded release function.
    ReleasePrevious,
}

/// Which predicate the engine's callback points at.
#[derive(Debug, Clone, Copy, PartialEq, Eq, Structural)]
pub enum Holder {
    Previous,
    Replacement,
}

/// The bridge as the engine and the allocator see it.
pub struct BridgeModel {
    /// The predicate the engine would call during a solve, if any.
    pub engine: Option<Holder>,
    /// Whether the previously installed predicate is still allocated.
    pub previous_live: bool,
}

/// The bridge before a change: the engine holds the previous predicate exactly
/// when one is installed.
pub open spec fn bridge_before(has_previous: bool) -> BridgeModel {
    BridgeModel {
        engine: if has_previous { Some(Holder::Previous) } else { None },
        previous_live: has_previous,
    }
}

/// The effect of one step; `None` when the step would free a predicate that
/// the engine may still call, or free one twice.
pub open spec fn apply_step(m: BridgeModel, s: BridgeStep) -> Option<BridgeModel> {
    match s {
        BridgeStep::Register => Some(
            BridgeModel { engine: Some(Holder::Replacement), previous_live: m.previous_live },
        ),
        BridgeStep::Deregister => Some(BridgeModel { engine: None, previous_live: m.previous_live }),
        BridgeStep::ReleasePrevious => if m.previous_live && m.engine != Some(Holder::Previous) {
            Some(BridgeModel { engine: m.engine, previous_live: false })
        } else {
            None
        },
    }
}

/// The effect of a sequence of steps; `None` when one of them is unsafe.
pub open spec fn run_steps(m: BridgeModel, steps: Seq<BridgeStep>) -> Option<BridgeModel>
    decreases steps.len(),
{
    if steps.len() == 0 {
        Some(m)
    } else {
        match apply_step(m, steps[0]) {
            Some(n) => run_steps(n, steps.drop_first()),
            None => None,
        }
    }
}

/// The steps that install a replacement predicate, or remove the installed one.
pub open spec fn bridge_plan(has_previous: bool, has_replacement: bool) -> Seq<BridgeStep> {
    let first = if has_replacement {
        seq![BridgeStep::Register]
    } else {
        seq![BridgeStep::Deregister]
    };
    if has_previous {
        first.push(BridgeStep::ReleasePrevious)
    } else {
        first
    }
}

/// The steps for `set_terminator`: first the engine is pointed at the
/// replacement, or cleared, and only then is the previous predicate freed.
pub fn bridge_steps(has_previous: bool, has_replacement: bool) -> (r: Vec<BridgeStep>)
    ensures
        r@ == bridge_plan(has_previous, has_replacement),
        run_steps(bridge_before(has_previous), r@) == Some(
            BridgeModel {
                engine: if has_replacement { Some(Holder::Replacement) } else { None },
                previous_live: false,
            },
        ),
{
    let mut r: Vec<BridgeStep> = Vec::new();
    if has_replacement {
        r.push(BridgeStep::Register);
    } else {
        r.push(BridgeStep::Deregister);
    }
    if has_previous {
        r.push(BridgeStep::ReleasePrevious);
    }
    proof {
        assert(r@ =~= bridge_plan(has_previous, has_replacement));
        lemma_bridge_plan_safe(has_previous, has_replacement);
    }
    r
}

/// Installing or removing a predicate is safe and leaks nothing: no step frees
/// a predicate the engine may still call, the previous predicate is freed
/// exactly once, and afterwards the engine holds the replacement exactly when
/// one was supplied.
pub proof fn lemma_bridge_plan_safe(has_previous: bool, has_replacement: bool)
    ensures
        run_steps(bridge_before(has_previous), bridge_plan(has_previous, has_replacement))
            == Some(
            BridgeModel {
                engine: if has_replacement { Some(Holder::Replacement) } else { None },
                previous_live: false,
            },
        ),
{
    let plan = bridge_plan(has_previous, has_replacement);
    reveal_with_fuel(run_steps, 3);
    assert(plan.drop_first().len() == plan.len() - 1);
    if has_previous {
        assert(plan.drop_first().drop_first().len() == 0);
    }
}

} // verus!
