//! Failure recovery: after a selection failure, the oracle's failure
//! analysis supplies alternative selectors, and recovery tries a plain
//! select-option call on each in order, stopping at the first that
//! succeeds.

use vstd::prelude::*;
use crate::oracle::FailureAnalysis;
use crate::text::clone_string_vec;

verus! {

/// The fixed context of one recovery run: the value that failed to stick
/// and the alternative selectors the oracle suggested, in order.
pub struct RecoveryCtx {
    pub attempted_value: String,
    pub alternative_selectors: Vec<String>,
}

/// The ghost image of the context.
pub struct RecoveryCtxView {
    pub attempted_value: Seq<char>,
    pub alternative_selectors: Seq<Seq<char>>,
}

/// The ghost image of the context.
pub open spec fn recovery_ctx_view(c: RecoveryCtx) -> RecoveryCtxView {
    RecoveryCtxView {
        attempted_value: c.attempted_value@,
        alternative_selectors: c.alternative_selectors@.map_values(|s: String| s@),
    }
}

impl RecoveryCtx {
    /// The recovery context a failure analysis gives rise to.
    pub fn from_analysis(attempted_value: &str, analysis: &FailureAnalysis) -> (r: RecoveryCtx)
        ensures
            r.attempted_value@ == attempted_value@,
            r.alternative_selectors@ == analysis.alternative_selectors@,
    {
        RecoveryCtx {
            attempted_value: String::from_str(attempted_value),
            alternative_selectors: clone_string_vec(&analysis.alternative_selectors),
        }
    }
}

/// An operation recovery asks the embedding to perform: one plain
/// select-option call against an alternative selector.
pub enum RecoveryOp {
    SelectValue { selector: String, value: String },
}

/// The ghost image of an operation.
pub enum RecoveryOpView {
    SelectValue { selector: Seq<char>, value: Seq<char> },
}

/// The ghost image of an operation.
pub open spec fn recovery_op_view(op: RecoveryOp) -> RecoveryOpView {
    match op {
        RecoveryOp::SelectValue { selector, value } => RecoveryOpView::SelectValue {
            selector: selector@,
            value: value@,
        },
    }
}

/// Recovery is between attempts: the zero-based index of the alternative
/// whose outcome is awaited.
pub enum RecoveryState {
    TryingAlternative { idx: usize },
}

/// What one recovery step asks for next: try an alternative, stop with
/// the index of the alternative that worked, or give up.
pub enum RecoveryStep {
    Act(RecoveryOp, RecoveryState),
    Succeeded { idx: usize },
    Failed,
}

/// The ghost image of a step.
pub enum RecoveryStepView {
    Act(RecoveryOpView, RecoveryState),
    Succeeded { idx: usize },
    Failed,
}

/// The ghost image of a step.
pub open spec fn recovery_step_view(s: RecoveryStep) -> RecoveryStepView {
    match s {
        RecoveryStep::Act(op, st) => RecoveryStepView::Act(recovery_op_view(op), st),
        RecoveryStep::Succeeded { idx } => RecoveryStepView::Succeeded { idx },
        RecoveryStep::Failed => RecoveryStepView::Failed,
    }
}

/// Recovery's first move: try the first alternative, or fail outright
/// when the analysis suggested none.
pub open spec fn spec_recovery_start(c: RecoveryCtxView) -> RecoveryStepView {
    if c.alternative_selectors.len() == 0 {
        RecoveryStepView::Failed
    } else {
        RecoveryStepView::Act(
            RecoveryOpView::SelectValue {
                selector: c.alternative_selectors[0],
                value: c.attempted_value,
            },
            RecoveryState::TryingAlternative { idx: 0 },
        )
    }
}

/// Recovery's transition relation: a successful attempt ends the run at
/// once with that alternative; a failed one moves to the next, and the
/// run fails after the last.
pub open spec fn spec_recovery_step(
    c: RecoveryCtxView,
    state: RecoveryState,
    succeeded: bool,
) -> RecoveryStepView {
    match state {
        RecoveryState::TryingAlternative { idx } => if succeeded {
            RecoveryStepView::Succeeded { idx }
        } else {
            if idx + 1 < c.alternative_selectors.len() {
                RecoveryStepView::Act(
                    RecoveryOpView::SelectValue {
                        selector: c.alternative_selectors[idx + 1],
                        value: c.attempted_value,
                    },
                    RecoveryState::TryingAlternative { idx: (idx + 1) as usize },
                )
            } else {
                RecoveryStepView::Failed
            }
        },
    }
}

/// A successful alternative ends recovery at once: the step neither
/// issues another operation nor moves past the alternative that worked.
pub proof fn lemma_recovery_stops_at_first_success(
    c: RecoveryCtxView,
    state: RecoveryState,
    succeeded: bool,
)
    ensures
        succeeded ==> spec_recovery_step(c, state, succeeded) == (RecoveryStepView::Succeeded {
            idx: state->TryingAlternative_idx,
        }),
{
}

/// Recovery's first move for `c`.
pub fn recovery_start(c: &RecoveryCtx) -> (r: RecoveryStep)
    ensures
        recovery_step_view(r) == spec_recovery_start(recovery_ctx_view(*c)),
{
    if c.alternative_selectors.len() == 0 {
        RecoveryStep::Failed
    } else {
        RecoveryStep::Act(
            RecoveryOp::SelectValue {
                selector: c.alternative_selectors[0].clone(),
                value: c.attempted_value.clone(),
            },
            RecoveryState::TryingAlternative { idx: 0 },
        )
    }
}

/// One recovery step: `succeeded` reports whether the awaited
/// select-option call worked.
pub fn recovery_step(c: &RecoveryCtx, state: RecoveryState, succeeded: bool) -> (r: RecoveryStep)
    ensures
        recovery_step_view(r) == spec_recovery_step(recovery_ctx_view(*c), state, succeeded),
{
    match state {
        RecoveryState::TryingAlternative { idx } => {
            if succeeded {
                RecoveryStep::Succeeded { idx }
            } else {
                if idx < c.alternative_selectors.len() && c.alternative_selectors.len() - idx > 1 {
                    RecoveryStep::Act(
                        RecoveryOp::SelectValue {
                            selector: c.alternative_selectors[idx + 1].clone(),
                            value: c.attempted_value.clone(),
                        },
                        RecoveryState::TryingAlternative { idx: idx + 1 },
                    )
                } else {
                    proof {
                        assert(!(idx + 1 < c.alternative_selectors@.len()));
                    }
                    RecoveryStep::Failed
                }
            }
        },
    }
}

} // verus!
