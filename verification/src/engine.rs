//! Interaction strategy engine: a per-strategy stepper that drives the live
//! browser session to realize a value inside a classified dropdown.  Browser
//! work and oracle calls are asynchronous outside work, so each handler is a
//! state machine: the embedding performs the emitted operation and hands the
//! outcome back as an event, and every decision in between is verified.

use vstd::prelude::*;
use crate::oracle::{DropdownAnalysis, InteractionStrategy, LoadingStrategy};
use crate::text::str_eq;

verus! {

/// One operation the embedding must perform against the browser session or
/// the oracle.
pub enum EngineOp {
    /// Fetch the inner HTML of the element at `selector`.
    FetchHtml { selector: String },
    /// Ask the oracle's option-matching operation for the best option.
    OracleMatch { html: String, value: String, field_name: String },
    /// Select an option on a `<select>`-like element by value.
    SelectValue { selector: String, value: String },
    /// Click the element.
    Click { selector: String },
    /// Focus the element.
    Focus { selector: String },
    /// Send one key event.
    PressKey { key: String },
    /// Type text into the focused element.
    TypeChars { text: String },
    /// Fill an input element's value.
    FillInput { selector: String, value: String },
    /// Scan `div, li, span, a` under `container` and click the first one
    /// whose text or value matches `option` or contains `value`.
    ClickOption { container: String, option: String, value: String },
    /// Look for a text or search input nested inside the dropdown.
    QuerySearchInput { selector: String },
    /// Wait for a selector to appear, up to the timeout.
    WaitForSelector { selector: String, timeout_ms: u64 },
    /// Sleep for the given settle time.
    Pause { millis: u64 },
}

/// The ghost image of an operation: the same shape over character
/// sequences, what the contracts speak of.
pub enum OpView {
    FetchHtml { selector: Seq<char> },
    OracleMatch { html: Seq<char>, value: Seq<char>, field_name: Seq<char> },
    SelectValue { selector: Seq<char>, value: Seq<char> },
    Click { selector: Seq<char> },
    Focus { selector: Seq<char> },
    PressKey { key: Seq<char> },
    TypeChars { text: Seq<char> },
    FillInput { selector: Seq<char>, value: Seq<char> },
    ClickOption { container: Seq<char>, option: Seq<char>, value: Seq<char> },
    QuerySearchInput { selector: Seq<char> },
    WaitForSelector { selector: Seq<char>, timeout_ms: u64 },
    Pause { millis: u64 },
}

/// The ghost image of an operation.
pub open spec fn op_view(op: EngineOp) -> OpView {
    match op {
        EngineOp::FetchHtml { selector } => OpView::FetchHtml { selector: selector@ },
        EngineOp::OracleMatch { html, value, field_name } => OpView::OracleMatch {
            html: html@,
            value: value@,
            field_name: field_name@,
        },
        EngineOp::SelectValue { selector, value } => OpView::SelectValue {
            selector: selector@,
            value: value@,
        },
        EngineOp::Click { selector } => OpView::Click { selector: selector@ },
        EngineOp::Focus { selector } => OpView::Focus { selector: selector@ },
        EngineOp::PressKey { key } => OpView::PressKey { key: key@ },
        EngineOp::TypeChars { text } => OpView::TypeChars { text: text@ },
        EngineOp::FillInput { selector, value } => OpView::FillInput {
            selector: selector@,
            value: value@,
        },
        EngineOp::ClickOption { container, option, value } => OpView::ClickOption {
            container: container@,
            option: option@,
            value: value@,
        },
        EngineOp::QuerySearchInput { selector } => OpView::QuerySearchInput {
            selector: selector@,
        },
        EngineOp::WaitForSelector { selector, timeout_ms } => OpView::WaitForSelector {
            selector: selector@,
            timeout_ms,
        },
        EngineOp::Pause { millis } => OpView::Pause { millis },
    }
}

/// The ghost images of a sequence of operations.
pub open spec fn op_views(ops: Seq<EngineOp>) -> Seq<OpView> {
    ops.map_values(|op: EngineOp| op_view(op))
}

/// What the embedding observed when it performed an operation.
pub enum EngineEvent {
    /// The operation succeeded (clicks, fills, key presses, selects,
    /// pauses, waits).
    OpOk,
    /// The operation failed or timed out.
    OpFailed,
    /// The fetched HTML.
    Html { html: String },
    /// The option the oracle recommends.
    MatchReady { option: String },
    /// The oracle call failed or its response did not parse.
    MatchFailed,
    /// Whether the option scan found and clicked an element.
    OptionClicked { clicked: bool },
    /// The nested search input found, if any.
    SearchInput { selector: Option<String> },
}

/// The ghost image of an event.
pub enum EventView {
    OpOk,
    OpFailed,
    Html { html: Seq<char> },
    MatchReady { option: Seq<char> },
    MatchFailed,
    OptionClicked { clicked: bool },
    SearchInput { selector: Option<Seq<char>> },
}

/// The ghost image of an event.
pub open spec fn event_view(e: EngineEvent) -> EventView {
    match e {
        EngineEvent::OpOk => EventView::OpOk,
        EngineEvent::OpFailed => EventView::OpFailed,
        EngineEvent::Html { html } => EventView::Html { html: html@ },
        EngineEvent::MatchReady { option } => EventView::MatchReady { option: option@ },
        EngineEvent::MatchFailed => EventView::MatchFailed,
        EngineEvent::OptionClicked { clicked } => EventView::OptionClicked { clicked },
        EngineEvent::SearchInput { selector } => EventView::SearchInput {
            selector: match selector {
                Some(s) => Some(s@),
                None => None,
            },
        },
    }
}

/// The fixed context of one dropdown interaction: the element, the value
/// to realize, the field name for oracle prompts, and the selectors the
/// classification supplied.
pub struct EngineCtx {
    pub selector: String,
    pub value: String,
    pub field_name: String,
    pub trigger_selector: Option<String>,
    pub options_container_selector: Option<String>,
}

/// The ghost image of the context.
pub struct CtxView {
    pub selector: Seq<char>,
    pub value: Seq<char>,
    pub field_name: Seq<char>,
    pub trigger_selector: Option<Seq<char>>,
    pub options_container_selector: Option<Seq<char>>,
}

/// The ghost image of the context.
pub open spec fn ctx_view(c: EngineCtx) -> CtxView {
    CtxView {
        selector: c.selector@,
        value: c.value@,
        field_name: c.field_name@,
        trigger_selector: match c.trigger_selector {
            Some(s) => Some(s@),
            None => None,
        },
        options_container_selector: match c.options_container_selector {
            Some(s) => Some(s@),
            None => None,
        },
    }
}

impl EngineCtx {
    /// The context for one interaction, taking the trigger and options
    /// container the classification supplied.
    pub fn from_analysis(selector: &str, value: &str, field_name: &str, analysis: &DropdownAnalysis)
        -> (r: EngineCtx)
        ensures
            r.selector@ == selector@,
            r.value@ == value@,
            r.field_name@ == field_name@,
            match analysis.trigger_selector {
                Some(t) => r.trigger_selector matches Some(rt) && rt@ == t@,
                None => r.trigger_selector is None,
            },
            match analysis.options_container_selector {
                Some(t) => r.options_container_selector matches Some(rt) && rt@ == t@,
                None => r.options_container_selector is None,
            },
    {
        EngineCtx {
            selector: String::from_str(selector),
            value: String::from_str(value),
            field_name: String::from_str(field_name),
            trigger_selector: match &analysis.trigger_selector {
                Some(t) => Some(t.clone()),
                None => None,
            },
            options_container_selector: match &analysis.options_container_selector {
                Some(t) => Some(t.clone()),
                None => None,
            },
        }
    }
}

/// The element clicked to open the dropdown: the classified trigger, or
/// the original selector when the classification named none.
pub open spec fn trigger_or_selector(c: CtxView) -> Seq<char> {
    match c.trigger_selector {
        Some(t) => t,
        None => c.selector,
    }
}

/// The container the options are looked for in: the classified container,
/// or the original selector.
pub open spec fn container_or_selector(c: CtxView) -> Seq<char> {
    match c.options_container_selector {
        Some(t) => t,
        None => c.selector,
    }
}

// ---------------------------------------------------------------------------
// States
// ---------------------------------------------------------------------------
/// Where one strategy stands between two operations.  The `Ds` states walk
/// direct select, `Co` click-to-open, `Kn` keyboard navigation, `Ts`
/// type-to-search; `Ms` wraps the concrete strategy the multi-step chain is
/// currently trying.
pub enum EngineState {
    DsAwaitHtml,
    DsAwaitMatch,
    DsTryRecommended,
    DsTryFallback,
    CoClicked,
    CoSettled,
    CoAwaitHtml,
    CoAwaitMatch,
    CoAwaitOptionClick,
    KnAwaitFocus,
    KnAwaitOpenKey,
    KnAwaitPause1,
    KnAwaitType,
    KnAwaitPause2,
    KnAwaitConfirm,
    TsAwaitQuery,
    TsAwaitFill,
    TsAwaitPause,
    TsAwaitClickFallback,
    TsAwaitType,
    TsAwaitPause2,
    TsAwaitConfirm,
    Ms { idx: usize, sub: Box<EngineState> },
    MsBetween { next_idx: usize },
}

/// What one step of the engine asks for next: perform an operation and
/// continue in the new state, or finish with a verdict.
pub enum EngineStep {
    Act(EngineOp, EngineState),
    Finish(bool),
}

/// The ghost image of a step.
pub enum StepView {
    Act(OpView, EngineState),
    Finish(bool),
}

/// The ghost image of a step.
pub open spec fn step_view(s: EngineStep) -> StepView {
    match s {
        EngineStep::Act(op, st) => StepView::Act(op_view(op), st),
        EngineStep::Finish(b) => StepView::Finish(b),
    }
}

/// The fixed order in which the multi-step chain tries the concrete
/// strategies.
pub open spec fn multi_step_order() -> Seq<InteractionStrategy> {
    seq![
        InteractionStrategy::ClickToOpen,
        InteractionStrategy::TypeToSearch,
        InteractionStrategy::KeyboardNavigation,
        InteractionStrategy::DirectSelect,
    ]
}

/// The multi-step chain tries exactly the four concrete strategies, and
/// never recurses into its own meta-strategy.
pub proof fn lemma_multi_step_excludes_itself()
    ensures
        multi_step_order().len() == 4,
        forall|i: int|
            0 <= i < multi_step_order().len() ==> multi_step_order()[i]
                != InteractionStrategy::MultiStep,
{
    assert forall|i: int|
        0 <= i < multi_step_order().len() implies multi_step_order()[i]
        != InteractionStrategy::MultiStep by {
        assert(i == 0 || i == 1 || i == 2 || i == 3);
    }
}

/// The strategy the multi-step chain tries at position `i`.
pub fn multi_step_strategy_at(i: usize) -> (r: InteractionStrategy)
    requires
        i < 4,
    ensures
        r == multi_step_order()[i as int],
{
    if i == 0 {
        InteractionStrategy::ClickToOpen
    } else if i == 1 {
        InteractionStrategy::TypeToSearch
    } else if i == 2 {
        InteractionStrategy::KeyboardNavigation
    } else {
        InteractionStrategy::DirectSelect
    }
}

// ---------------------------------------------------------------------------
// The transition relation
// ---------------------------------------------------------------------------
/// The first operation and state of a concrete (non-meta) strategy.
pub open spec fn spec_start_concrete(strategy: InteractionStrategy, c: CtxView) -> (OpView,
    EngineState) {
    match strategy {
        InteractionStrategy::DirectSelect => (
            OpView::FetchHtml { selector: c.selector },
            EngineState::DsAwaitHtml,
        ),
        InteractionStrategy::ClickToOpen => (
            OpView::Click { selector: trigger_or_selector(c) },
            EngineState::CoClicked,
        ),
        InteractionStrategy::KeyboardNavigation => (
            OpView::Focus { selector: c.selector },
            EngineState::KnAwaitFocus,
        ),
        InteractionStrategy::TypeToSearch => (
            OpView::QuerySearchInput { selector: c.selector },
            EngineState::TsAwaitQuery,
        ),
        InteractionStrategy::MultiStep => (
            OpView::Pause { millis: 0 },
            EngineState::MsBetween { next_idx: 0 },
        ),
    }
}

/// The first operation and state of any strategy.  The meta-strategy
/// starts its chain at the first concrete strategy; it never starts
/// itself.
pub open spec fn spec_start(strategy: InteractionStrategy, c: CtxView) -> (OpView, EngineState) {
    match strategy {
        InteractionStrategy::MultiStep => {
            let (op, st) = spec_start_concrete(multi_step_order()[0], c);
            (op, EngineState::Ms { idx: 0, sub: Box::new(st) })
        },
        _ => spec_start_concrete(strategy, c),
    }
}

/// The engine's transition relation: what follows `state` when the
/// embedding reports `ev`.  Any event that the state does not expect ends
/// the strategy as failed.
pub open spec fn spec_step(c: CtxView, state: EngineState, ev: EventView) -> StepView
    decreases state,
{
    match state {
        EngineState::DsAwaitHtml => match ev {
            EventView::Html { html } => StepView::Act(
                OpView::OracleMatch { html, value: c.value, field_name: c.field_name },
                EngineState::DsAwaitMatch,
            ),
            _ => StepView::Finish(false),
        },
        EngineState::DsAwaitMatch => match ev {
            EventView::MatchReady { option } => StepView::Act(
                OpView::SelectValue { selector: c.selector, value: option },
                EngineState::DsTryRecommended,
            ),
            _ => StepView::Finish(false),
        },
        EngineState::DsTryRecommended => match ev {
            EventView::OpOk => StepView::Finish(true),
            EventView::OpFailed => StepView::Act(
                OpView::SelectValue { selector: c.selector, value: c.value },
                EngineState::DsTryFallback,
            ),
            _ => StepView::Finish(false),
        },
        EngineState::DsTryFallback => match ev {
            EventView::OpOk => StepView::Finish(true),
            _ => StepView::Finish(false),
        },
        EngineState::CoClicked => match ev {
            EventView::OpOk => StepView::Act(
                OpView::Pause { millis: 300 },
                EngineState::CoSettled,
            ),
            _ => StepView::Finish(false),
        },
        EngineState::CoSettled => match ev {
            EventView::OpOk => StepView::Act(
                OpView::FetchHtml { selector: container_or_selector(c) },
                EngineState::CoAwaitHtml,
            ),
            _ => StepView::Finish(false),
        },
        EngineState::CoAwaitHtml => match ev {
            EventView::Html { html } => StepView::Act(
                OpView::OracleMatch { html, value: c.value, field_name: c.field_name },
                EngineState::CoAwaitMatch,
            ),
            _ => StepView::Finish(false),
        },
        EngineState::CoAwaitMatch => match ev {
            EventView::MatchReady { option } => StepView::Act(
                OpView::ClickOption {
                    container: container_or_selector(c),
                    option,
                    value: c.value,
                },
                EngineState::CoAwaitOptionClick,
            ),
            _ => StepView::Finish(false),
        },
        EngineState::CoAwaitOptionClick => match ev {
            EventView::OptionClicked { clicked } => StepView::Finish(clicked),
            _ => StepView::Finish(false),
        },
        EngineState::KnAwaitFocus => match ev {
            EventView::OpOk => StepView::Act(
                OpView::PressKey { key: "Space"@ },
                EngineState::KnAwaitOpenKey,
            ),
            _ => StepView::Finish(false),
        },
        EngineState::KnAwaitOpenKey => match ev {
            EventView::OpOk => StepView::Act(
                OpView::Pause { millis: 200 },
                EngineState::KnAwaitPause1,
            ),
            _ => StepView::Finish(false),
        },
        EngineState::KnAwaitPause1 => match ev {
            EventView::OpOk => if c.value.len() > 0 {
                StepView::Act(
                    OpView::TypeChars { text: c.value.take(1) },
                    EngineState::KnAwaitType,
                )
            } else {
                StepView::Act(OpView::PressKey { key: "Enter"@ }, EngineState::KnAwaitConfirm)
            },
            _ => StepView::Finish(false),
        },
        EngineState::KnAwaitType => match ev {
            EventView::OpOk => StepView::Act(
                OpView::Pause { millis: 300 },
                EngineState::KnAwaitPause2,
            ),
            _ => StepView::Finish(false),
        },
        EngineState::KnAwaitPause2 => match ev {
            EventView::OpOk => StepView::Act(
                OpView::PressKey { key: "Enter"@ },
                EngineState::KnAwaitConfirm,
            ),
            _ => StepView::Finish(false),
        },
        EngineState::KnAwaitConfirm => match ev {
            EventView::OpOk => StepView::Finish(true),
            _ => StepView::Finish(false),
        },
        EngineState::TsAwaitQuery => match ev {
            EventView::SearchInput { selector } => match selector {
                Some(inp) => StepView::Act(
                    OpView::FillInput { selector: inp, value: c.value },
                    EngineState::TsAwaitFill,
                ),
                None => StepView::Act(
                    OpView::Click { selector: c.selector },
                    EngineState::TsAwaitClickFallback,
                ),
            },
            _ => StepView::Finish(false),
        },
        EngineState::TsAwaitFill => match ev {
            EventView::OpOk => StepView::Act(
                OpView::Pause { millis: 500 },
                EngineState::TsAwaitPause,
            ),
            _ => StepView::Finish(false),
        },
        EngineState::TsAwaitPause => match ev {
            EventView::OpOk => StepView::Act(
                OpView::PressKey { key: "Enter"@ },
                EngineState::TsAwaitConfirm,
            ),
            _ => StepView::Finish(false),
        },
        EngineState::TsAwaitClickFallback => match ev {
            EventView::OpOk => StepView::Act(
                OpView::TypeChars { text: c.value },
                EngineState::TsAwaitType,
            ),
            _ => StepView::Finish(false),
        },
        EngineState::TsAwaitType => match ev {
            EventView::OpOk => StepView::Act(
                OpView::Pause { millis: 300 },
                EngineState::TsAwaitPause2,
            ),
            _ => StepView::Finish(false),
        },
        EngineState::TsAwaitPause2 => match ev {
            EventView::OpOk => StepView::Act(
                OpView::PressKey { key: "Enter"@ },
                EngineState::TsAwaitConfirm,
            ),
            _ => StepView::Finish(false),
        },
        EngineState::TsAwaitConfirm => match ev {
            EventView::OpOk => StepView::Finish(true),
            _ => StepView::Finish(false),
        },
        EngineState::Ms { idx, sub } => match spec_step(c, *sub, ev) {
            StepView::Act(op, st) => StepView::Act(
                op,
                EngineState::Ms { idx, sub: Box::new(st) },
            ),
            StepView::Finish(true) => StepView::Finish(true),
            StepView::Finish(false) => StepView::Act(
                OpView::Pause { millis: 500 },
                EngineState::MsBetween {
                    next_idx: if idx < 4 {
                        (idx + 1) as usize
                    } else {
                        idx
                    },
                },
            ),
        },
        EngineState::MsBetween { next_idx } => match ev {
            EventView::OpOk => if next_idx < 4 {
                let (op, st) = spec_start_concrete(multi_step_order()[next_idx as int], c);
                StepView::Act(op, EngineState::Ms { idx: next_idx, sub: Box::new(st) })
            } else {
                StepView::Finish(false)
            },
            _ => StepView::Finish(false),
        },
    }
}

/// A state the engine can actually be in: the meta-strategy wraps only
/// concrete-strategy states, never itself, and never walks past the end of
/// its chain.
pub open spec fn wf_state(state: EngineState) -> bool {
    match state {
        EngineState::Ms { idx, sub } => idx < 4 && !(*sub is Ms) && !(*sub is MsBetween),
        EngineState::MsBetween { next_idx } => next_idx <= 4,
        _ => true,
    }
}

/// Starting any strategy yields a well-formed state, and stepping keeps
/// states well formed: in particular, the multi-step chain never wraps its
/// own meta-strategy.
pub proof fn lemma_step_preserves_wf(c: CtxView, state: EngineState, ev: EventView)
    requires
        wf_state(state),
    ensures
        match spec_step(c, state, ev) {
            StepView::Act(_, st) => wf_state(st),
            StepView::Finish(_) => true,
        },
    decreases state,
{
    match state {
        EngineState::Ms { idx, sub } => {
            lemma_step_preserves_wf(c, *sub, ev);
            match spec_step(c, *sub, ev) {
                StepView::Act(op, st) => {
                    assert(!(st is Ms) && !(st is MsBetween)) by {
                        lemma_concrete_step_stays_concrete(c, *sub, ev);
                    }
                },
                _ => {},
            }
        },
        _ => {},
    }
}

/// A concrete-strategy state never steps into a meta-strategy state.
proof fn lemma_concrete_step_stays_concrete(c: CtxView, state: EngineState, ev: EventView)
    requires
        !(state is Ms),
        !(state is MsBetween),
    ensures
        match spec_step(c, state, ev) {
            StepView::Act(_, st) => !(st is Ms) && !(st is MsBetween),
            StepView::Finish(_) => true,
        },
{
}

/// The start state of every strategy is well formed.
pub proof fn lemma_start_wf(strategy: InteractionStrategy, c: CtxView)
    ensures
        wf_state(spec_start(strategy, c).1),
{
}

// ---------------------------------------------------------------------------
// The executable engine
// ---------------------------------------------------------------------------
fn start_concrete(strategy: InteractionStrategy, ctx: &EngineCtx) -> (r: (EngineOp, EngineState))
    ensures
        op_view(r.0) == spec_start_concrete(strategy, ctx_view(*ctx)).0,
        r.1 == spec_start_concrete(strategy, ctx_view(*ctx)).1,
{
    match strategy {
        InteractionStrategy::DirectSelect => (
            EngineOp::FetchHtml { selector: ctx.selector.clone() },
            EngineState::DsAwaitHtml,
        ),
        InteractionStrategy::ClickToOpen => (
            EngineOp::Click {
                selector: match &ctx.trigger_selector {
                    Some(t) => t.clone(),
                    None => ctx.selector.clone(),
                },
            },
            EngineState::CoClicked,
        ),
        InteractionStrategy::KeyboardNavigation => (
            EngineOp::Focus { selector: ctx.selector.clone() },
            EngineState::KnAwaitFocus,
        ),
        InteractionStrategy::TypeToSearch => (
            EngineOp::QuerySearchInput { selector: ctx.selector.clone() },
            EngineState::TsAwaitQuery,
        ),
        InteractionStrategy::MultiStep => (
            EngineOp::Pause { millis: 0 },
            EngineState::MsBetween { next_idx: 0 },
        ),
    }
}

/// The first operation of `strategy`, and the state awaiting its outcome.
/// The meta-strategy opens its chain with the first concrete strategy.
pub fn engine_start(strategy: InteractionStrategy, ctx: &EngineCtx) -> (r: (EngineOp, EngineState))
    ensures
        op_view(r.0) == spec_start(strategy, ctx_view(*ctx)).0,
        r.1 == spec_start(strategy, ctx_view(*ctx)).1,
        wf_state(r.1),
{
    proof {
        lemma_start_wf(strategy, ctx_view(*ctx));
    }
    match strategy {
        InteractionStrategy::MultiStep => {
            let (op, st) = start_concrete(InteractionStrategy::ClickToOpen, ctx);
            (op, EngineState::Ms { idx: 0, sub: Box::new(st) })
        },
        _ => start_concrete(strategy, ctx),
    }
}

fn press_enter() -> (r: EngineOp)
    ensures
        op_view(r) == (OpView::PressKey { key: "Enter"@ }),
{
    EngineOp::PressKey { key: String::from_str("Enter") }
}

/// One step of the engine: the operation to perform next, or the
/// strategy's verdict, as `spec_step` fixes it.
pub fn engine_step(ctx: &EngineCtx, state: EngineState, event: EngineEvent) -> (r: EngineStep)
    ensures
        step_view(r) == spec_step(ctx_view(*ctx), state, event_view(event)),
    decreases state,
{
    match state {
        EngineState::DsAwaitHtml => match event {
            EngineEvent::Html { html } => EngineStep::Act(
                EngineOp::OracleMatch {
                    html,
                    value: ctx.value.clone(),
                    field_name: ctx.field_name.clone(),
                },
                EngineState::DsAwaitMatch,
            ),
            _ => EngineStep::Finish(false),
        },
        EngineState::DsAwaitMatch => match event {
            EngineEvent::MatchReady { option } => EngineStep::Act(
                EngineOp::SelectValue { selector: ctx.selector.clone(), value: option },
                EngineState::DsTryRecommended,
            ),
            _ => EngineStep::Finish(false),
        },
        EngineState::DsTryRecommended => match event {
            EngineEvent::OpOk => EngineStep::Finish(true),
            EngineEvent::OpFailed => EngineStep::Act(
                EngineOp::SelectValue {
                    selector: ctx.selector.clone(),
                    value: ctx.value.clone(),
                },
                EngineState::DsTryFallback,
            ),
            _ => EngineStep::Finish(false),
        },
        EngineState::DsTryFallback => match event {
            EngineEvent::OpOk => EngineStep::Finish(true),
            _ => EngineStep::Finish(false),
        },
        EngineState::CoClicked => match event {
            EngineEvent::OpOk => EngineStep::Act(
                EngineOp::Pause { millis: 300 },
                EngineState::CoSettled,
            ),
            _ => EngineStep::Finish(false),
        },
        EngineState::CoSettled => match event {
            EngineEvent::OpOk => EngineStep::Act(
                EngineOp::FetchHtml {
                    selector: match &ctx.options_container_selector {
                        Some(t) => t.clone(),
                        None => ctx.selector.clone(),
                    },
                },
                EngineState::CoAwaitHtml,
            ),
            _ => EngineStep::Finish(false),
        },
        EngineState::CoAwaitHtml => match event {
            EngineEvent::Html { html } => EngineStep::Act(
                EngineOp::OracleMatch {
                    html,
                    value: ctx.value.clone(),
                    field_name: ctx.field_name.clone(),
                },
                EngineState::CoAwaitMatch,
            ),
            _ => EngineStep::Finish(false),
        },
        EngineState::CoAwaitMatch => match event {
            EngineEvent::MatchReady { option } => EngineStep::Act(
                EngineOp::ClickOption {
                    container: match &ctx.options_container_selector {
                        Some(t) => t.clone(),
                        None => ctx.selector.clone(),
                    },
                    option,
                    value: ctx.value.clone(),
                },
                EngineState::CoAwaitOptionClick,
            ),
            _ => EngineStep::Finish(false),
        },
        EngineState::CoAwaitOptionClick => match event {
            EngineEvent::OptionClicked { clicked } => EngineStep::Finish(clicked),
            _ => EngineStep::Finish(false),
        },
        EngineState::KnAwaitFocus => match event {
            EngineEvent::OpOk => EngineStep::Act(
                EngineOp::PressKey { key: String::from_str("Space") },
                EngineState::KnAwaitOpenKey,
            ),
            _ => EngineStep::Finish(false),
        },
        EngineState::KnAwaitOpenKey => match event {
            EngineEvent::OpOk => EngineStep::Act(
                EngineOp::Pause { millis: 200 },
                EngineState::KnAwaitPause1,
            ),
            _ => EngineStep::Finish(false),
        },
        EngineState::KnAwaitPause1 => match event {
            EngineEvent::OpOk => {
                if !ctx.value.as_str().is_empty() {
                    let first = ctx.value.as_str().substring_char(0, 1);
                    proof {
                        assert(first@ == ctx.value@.take(1));
                    }
                    EngineStep::Act(
                        EngineOp::TypeChars { text: String::from_str(first) },
                        EngineState::KnAwaitType,
                    )
                } else {
                    EngineStep::Act(press_enter(), EngineState::KnAwaitConfirm)
                }
            },
            _ => EngineStep::Finish(false),
        },
        EngineState::KnAwaitType => match event {
            EngineEvent::OpOk => EngineStep::Act(
                EngineOp::Pause { millis: 300 },
                EngineState::KnAwaitPause2,
            ),
            _ => EngineStep::Finish(false),
        },
        EngineState::KnAwaitPause2 => match event {
            EngineEvent::OpOk => EngineStep::Act(
                press_enter(),
                EngineState::KnAwaitConfirm,
            ),
            _ => EngineStep::Finish(false),
        },
        EngineState::KnAwaitConfirm => match event {
            EngineEvent::OpOk => EngineStep::Finish(true),
            _ => EngineStep::Finish(false),
        },
        EngineState::TsAwaitQuery => match event {
            EngineEvent::SearchInput { selector } => match selector {
                Some(inp) => EngineStep::Act(
                    EngineOp::FillInput { selector: inp, value: ctx.value.clone() },
                    EngineState::TsAwaitFill,
                ),
                None => EngineStep::Act(
                    EngineOp::Click { selector: ctx.selector.clone() },
                    EngineState::TsAwaitClickFallback,
                ),
            },
            _ => EngineStep::Finish(false),
        },
        EngineState::TsAwaitFill => match event {
            EngineEvent::OpOk => EngineStep::Act(
                EngineOp::Pause { millis: 500 },
                EngineState::TsAwaitPause,
            ),
            _ => EngineStep::Finish(false),
        },
        EngineState::TsAwaitPause => match event {
            EngineEvent::OpOk => EngineStep::Act(
                press_enter(),
                EngineState::TsAwaitConfirm,
            ),
            _ => EngineStep::Finish(false),
        },
        EngineState::TsAwaitClickFallback => match event {
            EngineEvent::OpOk => EngineStep::Act(
                EngineOp::TypeChars { text: ctx.value.clone() },
                EngineState::TsAwaitType,
            ),
            _ => EngineStep::Finish(false),
        },
        EngineState::TsAwaitType => match event {
            EngineEvent::OpOk => EngineStep::Act(
                EngineOp::Pause { millis: 300 },
                EngineState::TsAwaitPause2,
            ),
            _ => EngineStep::Finish(false),
        },
        EngineState::TsAwaitPause2 => match event {
            EngineEvent::OpOk => EngineStep::Act(
                press_enter(),
                EngineState::TsAwaitConfirm,
            ),
            _ => EngineStep::Finish(false),
        },
        EngineState::TsAwaitConfirm => match event {
            EngineEvent::OpOk => EngineStep::Finish(true),
            _ => EngineStep::Finish(false),
        },
        EngineState::Ms { idx, sub } => {
            let sub_r = engine_step(ctx, *sub, event);
            match sub_r {
                EngineStep::Act(op, st) => EngineStep::Act(
                    op,
                    EngineState::Ms { idx, sub: Box::new(st) },
                ),
                EngineStep::Finish(true) => EngineStep::Finish(true),
                EngineStep::Finish(false) => {
                    let next: usize = if idx < 4 {
                        idx + 1
                    } else {
                        idx
                    };
                    EngineStep::Act(
                        EngineOp::Pause { millis: 500 },
                        EngineState::MsBetween { next_idx: next },
                    )
                },
            }
        },
        EngineState::MsBetween { next_idx } => match event {
            EngineEvent::OpOk => {
                if next_idx < 4 {
                    let strat = multi_step_strategy_at(next_idx);
                    let (op, st) = start_concrete(strat, ctx);
                    EngineStep::Act(op, EngineState::Ms { idx: next_idx, sub: Box::new(st) })
                } else {
                    EngineStep::Finish(false)
                }
            },
            _ => EngineStep::Finish(false),
        },
    }
}

// ---------------------------------------------------------------------------
// Dynamic loading
// ---------------------------------------------------------------------------
/// The operation a trigger condition provokes loading with: a click for
/// `click`, a focus for `focus`, and a click again for `hover` (hover is
/// simplified to a click); anything else is ignored.
pub open spec fn trigger_op(t: Seq<char>, sel: Seq<char>) -> Option<OpView> {
    if t == "click"@ {
        Some(OpView::Click { selector: sel })
    } else if t == "focus"@ {
        Some(OpView::Focus { selector: sel })
    } else if t == "hover"@ {
        Some(OpView::Click { selector: sel })
    } else {
        None
    }
}

/// The operations provoking loading, in the order the strategy lists its
/// trigger conditions.
pub open spec fn trigger_ops(ts: Seq<Seq<char>>, sel: Seq<char>) -> Seq<OpView>
    decreases ts.len(),
{
    if ts.len() == 0 {
        Seq::empty()
    } else {
        let head: Seq<OpView> = match trigger_op(ts[0], sel) {
            Some(op) => seq![op],
            None => Seq::empty(),
        };
        head + trigger_ops(ts.skip(1), sel)
    }
}

/// One wait per loading indicator, each capped at five seconds.
pub open spec fn indicator_ops(inds: Seq<Seq<char>>) -> Seq<OpView> {
    inds.map_values(|s: Seq<char>| OpView::WaitForSelector { selector: s, timeout_ms: 5000 })
}

/// The views of a sequence of strings.
pub open spec fn seq_views(v: Seq<String>) -> Seq<Seq<char>> {
    v.map_values(|s: String| s@)
}

/// The whole plan a loading strategy calls for: nothing when the dropdown
/// does not load dynamically; else the trigger actions, the estimated
/// settle pause, and a wait for each loading indicator to resolve.
pub open spec fn loading_plan_spec(ls: LoadingStrategy, sel: Seq<char>) -> Seq<OpView> {
    if !ls.has_dynamic_loading {
        Seq::empty()
    } else {
        trigger_ops(seq_views(ls.trigger_conditions@), sel) + seq![
            OpView::Pause { millis: ls.estimated_wait_time as u64 },
        ] + indicator_ops(seq_views(ls.loading_indicators@))
    }
}

/// The operations that handle a dynamically loading dropdown before the
/// strategy itself runs.
pub fn dynamic_loading_plan(ls: &LoadingStrategy, selector: &str) -> (r: Vec<EngineOp>)
    ensures
        op_views(r@) == loading_plan_spec(*ls, selector@),
{
    let mut r: Vec<EngineOp> = Vec::new();
    if !ls.has_dynamic_loading {
        proof {
            assert(op_views(r@) =~= loading_plan_spec(*ls, selector@));
        }
        return r;
    }
    let ghost ts = seq_views(ls.trigger_conditions@);
    let mut i: usize = 0;
    proof {
        assert(ts.skip(0) =~= ts);
        assert(op_views(r@) + trigger_ops(ts, selector@) =~= trigger_ops(ts, selector@));
    }
    while i < ls.trigger_conditions.len()
        invariant
            i <= ls.trigger_conditions@.len(),
            ts == seq_views(ls.trigger_conditions@),
            op_views(r@) + trigger_ops(ts.skip(i as int), selector@) == trigger_ops(ts, selector@),
        decreases ls.trigger_conditions@.len() - i,
    {
        proof {
            assert(ts.skip(i as int)[0] == ts[i as int]);
            assert(ts[i as int] == ls.trigger_conditions@[i as int]@);
            assert(ts.skip(i as int).skip(1) =~= ts.skip(i + 1));
        }
        let t = &ls.trigger_conditions[i];
        let ghost before = r@;
        if str_eq(t.as_str(), "click") {
            r.push(EngineOp::Click { selector: String::from_str(selector) });
        } else if str_eq(t.as_str(), "focus") {
            r.push(EngineOp::Focus { selector: String::from_str(selector) });
        } else if str_eq(t.as_str(), "hover") {
            r.push(EngineOp::Click { selector: String::from_str(selector) });
        }
        i = i + 1;
        proof {
            match trigger_op(ts[i - 1], selector@) {
                Some(op) => {
                    assert(op_views(r@) =~= op_views(before).push(op));
                },
                None => {
                    assert(op_views(r@) =~= op_views(before));
                },
            }
            assert(op_views(r@) + trigger_ops(ts.skip(i as int), selector@) =~= trigger_ops(
                ts,
                selector@,
            ));
        }
    }
    proof {
        assert(trigger_ops(ts.skip(i as int), selector@) =~= Seq::<OpView>::empty());
        assert(op_views(r@) =~= trigger_ops(ts, selector@));
    }
    let ghost triggers_done = op_views(r@);
    r.push(EngineOp::Pause { millis: ls.estimated_wait_time as u64 });
    proof {
        assert(op_views(r@) =~= triggers_done.push(
            OpView::Pause { millis: ls.estimated_wait_time as u64 },
        ));
    }
    let ghost with_pause = op_views(r@);
    let mut j: usize = 0;
    while j < ls.loading_indicators.len()
        invariant
            j <= ls.loading_indicators@.len(),
            op_views(r@) == with_pause + indicator_ops(
                seq_views(ls.loading_indicators@).take(j as int),
            ),
        decreases ls.loading_indicators@.len() - j,
    {
        let ghost before = r@;
        r.push(
            EngineOp::WaitForSelector {
                selector: ls.loading_indicators[j].clone(),
                timeout_ms: 5000,
            },
        );
        j = j + 1;
        proof {
            let inds = seq_views(ls.loading_indicators@);
            assert(inds[j - 1] == ls.loading_indicators@[j - 1]@);
            assert(op_views(r@) =~= op_views(before).push(
                OpView::WaitForSelector { selector: inds[j - 1], timeout_ms: 5000 },
            ));
            assert(indicator_ops(inds.take(j as int)) =~= indicator_ops(inds.take(j - 1)).push(
                OpView::WaitForSelector { selector: inds[j - 1], timeout_ms: 5000 },
            ));
            assert(op_views(r@) =~= with_pause + indicator_ops(inds.take(j as int)));
        }
    }
    proof {
        assert(seq_views(ls.loading_indicators@).take(j as int) =~= seq_views(
            ls.loading_indicators@,
        ));
        assert(op_views(r@) =~= loading_plan_spec(*ls, selector@));
    }
    r
}

} // verus!
