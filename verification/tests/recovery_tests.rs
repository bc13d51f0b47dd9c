use formfill::oracle::{FailureAnalysis, InteractionStrategy};
use formfill::recovery::{
    RecoveryCtx, RecoveryOp, RecoveryState, RecoveryStep, recovery_start, recovery_step,
};

fn ctx(alts: &[&str]) -> RecoveryCtx {
    let analysis = FailureAnalysis {
        likely_cause: "selector targets the wrong element".to_string(),
        suggested_fixes: vec!["try the alternative id".to_string()],
        alternative_selectors: alts.iter().map(|s| s.to_string()).collect(),
        retry_strategy: InteractionStrategy::DirectSelect,
        confidence: 55,
    };
    RecoveryCtx::from_analysis("US", &analysis)
}

fn act(step: RecoveryStep) -> (RecoveryOp, RecoveryState) {
    match step {
        RecoveryStep::Act(op, st) => (op, st),
        _ => panic!("expected another attempt"),
    }
}

#[test]
fn recovery_reports_success_and_stops_at_the_working_alternative() {
    let c = ctx(&["select#country-alt", "select#never-reached"]);
    let (op, st) = act(recovery_start(&c));
    match &op {
        RecoveryOp::SelectValue { selector, value } => {
            assert_eq!(selector, "select#country-alt");
            assert_eq!(value, "US");
        }
    }
    // the alternative accepts the value: recovery succeeds at once and no
    // further candidate is attempted
    match recovery_step(&c, st, true) {
        RecoveryStep::Succeeded { idx } => assert_eq!(idx, 0),
        _ => panic!("a working alternative must end recovery"),
    }
}

#[test]
fn recovery_walks_the_alternatives_in_order_then_fails() {
    let c = ctx(&["#a", "#b"]);
    let (op, st) = act(recovery_start(&c));
    assert!(matches!(op, RecoveryOp::SelectValue { ref selector, .. } if selector == "#a"));
    let (op, st) = act(recovery_step(&c, st, false));
    assert!(matches!(op, RecoveryOp::SelectValue { ref selector, .. } if selector == "#b"));
    assert!(matches!(recovery_step(&c, st, false), RecoveryStep::Failed));
}

#[test]
fn recovery_without_alternatives_fails_outright() {
    let c = ctx(&[]);
    assert!(matches!(recovery_start(&c), RecoveryStep::Failed));
}
