use cadical::bridge::{bridge_steps, BridgeStep};
use cadical::lit::Lit;
use cadical::protocol::{clause_commands, failed_value, model_value, phase_after_solve};
use cadical::state::Phase;

#[test]
fn solve_codes() {
    assert_eq!(phase_after_solve(0), Some(Phase::Unknown));
    assert_eq!(phase_after_solve(10), Some(Phase::Sat));
    assert_eq!(phase_after_solve(20), Some(Phase::Unsat));
    assert_eq!(phase_after_solve(1), None);
    assert_eq!(phase_after_solve(-10), None);
}

#[test]
fn clause_is_zero_terminated() {
    let tie = Lit::new(1).unwrap();
    let shirt = Lit::new(2).unwrap();
    assert_eq!(clause_commands(&[!tie, shirt]), vec![-1, 2, 0]);
    assert_eq!(clause_commands(&[tie, shirt]), vec![1, 2, 0]);
    assert_eq!(clause_commands(&[!tie, !shirt]), vec![-1, -2, 0]);
    assert_eq!(clause_commands(&[]), vec![0]);
}

#[test]
fn query_results() {
    assert!(model_value(1));
    assert!(model_value(7));
    assert!(!model_value(-1));
    assert!(!model_value(0));
    assert!(failed_value(1));
    assert!(failed_value(-1));
    assert!(!failed_value(0));
}

#[test]
fn bridge_plans() {
    assert_eq!(bridge_steps(false, true), vec![BridgeStep::Register]);
    assert_eq!(
        bridge_steps(true, true),
        vec![BridgeStep::Register, BridgeStep::ReleasePrevious]
    );
    assert_eq!(bridge_steps(false, false), vec![BridgeStep::Deregister]);
    assert_eq!(
        bridge_steps(true, false),
        vec![BridgeStep::Deregister, BridgeStep::ReleasePrevious]
    );
}
