//! Selection validator: the multi-strategy, multi-attempt pipeline for
//! plain dropdown filling.  Two strategies run in fixed order — native
//! select-option calls, then click-based selection through a DOM scan —
//! each retried with an exponential randomized backoff, and every reported
//! success must be confirmed by re-reading the selected value before the
//! pipeline may stop.
//!
//! The browser work is outside; the machine emits operations and consumes
//! the observed outcomes, so every retry and validation decision is
//! verified.

use vstd::prelude::*;
use crate::sys::random_in_range;
use crate::text::{
    has_substring, joined, join_strings, lower, push_str_chars, trimmed, trim_chars, chars_of,
    to_lower_vec, string_from_chars,
};

verus! {

/// A human-like random delay, drawn uniformly from the inclusive window.
pub fn human_delay_ms(min: u64, max: u64) -> (r: u64)
    requires
        min <= max,
    ensures
        min <= r <= max,
{
    random_in_range(min, max)
}

/// The backoff delay before attempt `attempt`: a randomized value inside
/// the exponential window `[500 * attempt, 1500 * attempt]` milliseconds.
pub fn backoff_delay(attempt: u32) -> (r: u64)
    ensures
        500 * attempt <= r <= 1500 * attempt,
{
    let lo: u64 = 500 * (attempt as u64);
    let hi: u64 = 1500 * (attempt as u64);
    human_delay_ms(lo, hi)
}

// ---------------------------------------------------------------------------
// Option matching
// ---------------------------------------------------------------------------
/// One `<option>` of a native select, as read from the page.
pub struct OptionEntry {
    pub value: String,
    pub text: String,
}

/// Whether option text `t` matches the target exactly, case-insensitively
/// and ignoring surrounding blanks.
pub open spec fn exact_text_match(t: Seq<char>, target: Seq<char>) -> bool {
    trimmed(lower(t)) == trimmed(lower(target))
}

/// Whether option text `t` contains the lowered target.
pub open spec fn partial_text_match(t: Seq<char>, target: Seq<char>) -> bool {
    has_substring(lower(t), lower(target))
}

/// The first option whose text matches exactly, scanning from `i`.
pub open spec fn first_exact_from(texts: Seq<Seq<char>>, target: Seq<char>, i: int) -> Option<int>
    decreases texts.len() - i,
{
    if i < 0 || i >= texts.len() {
        None
    } else if exact_text_match(texts[i], target) {
        Some(i)
    } else {
        first_exact_from(texts, target, i + 1)
    }
}

/// The last option before `i` whose text matches partially.
pub open spec fn last_partial_before(texts: Seq<Seq<char>>, target: Seq<char>, i: int) -> Option<
    int,
>
    decreases i,
{
    if i <= 0 || i > texts.len() {
        None
    } else if partial_text_match(texts[i - 1], target) {
        Some(i - 1)
    } else {
        last_partial_before(texts, target, i - 1)
    }
}

/// The option the click-based DOM scan settles on: the first exact
/// case-insensitive text match, else the last partial match, else none —
/// exactly the scan order of the injected script.
pub open spec fn click_option_choice(texts: Seq<Seq<char>>, target: Seq<char>) -> Option<int> {
    match first_exact_from(texts, target, 0) {
        Some(i) => Some(i),
        None => last_partial_before(texts, target, texts.len() as int),
    }
}

/// The texts of a sequence of options.
pub open spec fn option_texts(opts: Seq<OptionEntry>) -> Seq<Seq<char>> {
    opts.map_values(|o: OptionEntry| o.text@)
}

fn exact_text_match_exec(t: &str, lowered_trimmed_target: &Vec<char>, ghost_target: Ghost<Seq<char>>)
    -> (r: bool)
    requires
        lowered_trimmed_target@ == trimmed(lower(ghost_target@)),
    ensures
        r == exact_text_match(t@, ghost_target@),
{
    let tv = chars_of(t);
    let lowered = to_lower_vec(&tv);
    let lt = trim_chars(&lowered);
    let n = lt.len();
    if n != lowered_trimmed_target.len() {
        return false;
    }
    let mut j: usize = 0;
    while j < n
        invariant
            j <= n,
            n == lt@.len(),
            n == lowered_trimmed_target@.len(),
            lt@ == trimmed(lower(t@)),
            lowered_trimmed_target@ == trimmed(lower(ghost_target@)),
            forall|k: int| 0 <= k < j ==> lt@[k] == lowered_trimmed_target@[k],
        decreases n - j,
    {
        if lt[j] != lowered_trimmed_target[j] {
            return false;
        }
        j = j + 1;
    }
    proof {
        assert(lt@ =~= lowered_trimmed_target@);
    }
    true
}

/// The option the click-based scan chooses for `target` among `options`,
/// by index: the first exact case-insensitive trimmed text match, else the
/// last partial match.
pub fn find_click_option(options: &Vec<OptionEntry>, target: &str) -> (r: Option<usize>)
    ensures
        match r {
            Some(i) => i < options@.len() && click_option_choice(option_texts(options@), target@)
                == Some(i as int),
            None => click_option_choice(option_texts(options@), target@) is None,
        },
{
    let tv = chars_of(target);
    let lowered = to_lower_vec(&tv);
    let lt = trim_chars(&lowered);
    let ghost texts = option_texts(options@);
    let mut best: Option<usize> = None;
    let mut i: usize = 0;
    while i < options.len()
        invariant
            i <= options@.len(),
            texts == option_texts(options@),
            tv@ == target@,
            lt@ == trimmed(lower(target@)),
            first_exact_from(texts, target@, 0) == first_exact_from(texts, target@, i as int),
            match best {
                Some(b) => b < i && last_partial_before(texts, target@, i as int) == Some(
                    b as int,
                ),
                None => last_partial_before(texts, target@, i as int) is None,
            },
        decreases options@.len() - i,
    {
        proof {
            assert(texts[i as int] == options@[i as int].text@);
        }
        if exact_text_match_exec(options[i].text.as_str(), &lt, Ghost(target@)) {
            proof {
                assert(first_exact_from(texts, target@, i as int) == Some(i as int));
            }
            return Some(i);
        }
        let txt = chars_of(options[i].text.as_str());
        let ltxt = to_lower_vec(&txt);
        let ltgt = to_lower_vec(&tv);
        let partial = crate::text::chars_contain(&ltxt, &ltgt);
        proof {
            assert(ltxt@ == lower(texts[i as int]));
            assert(ltgt@ == lower(target@));
            assert(partial == partial_text_match(texts[i as int], target@));
        }
        if partial {
            best = Some(i);
        }
        i = i + 1;
        proof {
            assert(first_exact_from(texts, target@, i - 1) == first_exact_from(
                texts,
                target@,
                i as int,
            ));
            if partial_text_match(texts[i - 1], target@) {
                assert(last_partial_before(texts, target@, i as int) == Some(i - 1));
            } else {
                assert(last_partial_before(texts, target@, i as int) == last_partial_before(
                    texts,
                    target@,
                    i - 1,
                ));
            }
        }
    }
    proof {
        assert(first_exact_from(texts, target@, i as int) is None);
    }
    best
}

/// One clickable element found under an open dropdown's options container.
pub struct ClickCandidate {
    pub text: String,
    pub value_attr: Option<String>,
}

/// Whether a candidate element matches: its trimmed text equals the
/// recommended option, or its value attribute does, or its trimmed lowered
/// text contains the lowered raw value.
pub open spec fn candidate_matches(
    text: Seq<char>,
    value_attr: Option<Seq<char>>,
    option: Seq<char>,
    value: Seq<char>,
) -> bool {
    ||| trimmed(text) == option
    ||| value_attr == Some(option)
    ||| has_substring(lower(trimmed(text)), lower(value))
}

/// The first matching candidate, scanning from `i`.
pub open spec fn first_candidate_from(
    cands: Seq<ClickCandidate>,
    option: Seq<char>,
    value: Seq<char>,
    i: int,
) -> Option<int>
    decreases cands.len() - i,
{
    if i < 0 || i >= cands.len() {
        None
    } else if candidate_matches(
        cands[i].text@,
        match cands[i].value_attr {
            Some(v) => Some(v@),
            None => None,
        },
        option,
        value,
    ) {
        Some(i)
    } else {
        first_candidate_from(cands, option, value, i + 1)
    }
}

/// The element the click-to-open strategy clicks: the first candidate
/// whose text or value matches the recommended option, or whose text
/// contains the raw value, in document order.
pub fn find_open_dropdown_option(cands: &Vec<ClickCandidate>, option: &str, value: &str) -> (r:
    Option<usize>)
    ensures
        match r {
            Some(i) => i < cands@.len() && first_candidate_from(cands@, option@, value@, 0)
                == Some(i as int),
            None => first_candidate_from(cands@, option@, value@, 0) is None,
        },
{
    let ov = chars_of(option);
    let vv = chars_of(value);
    let lv = to_lower_vec(&vv);
    let mut i: usize = 0;
    while i < cands.len()
        invariant
            i <= cands@.len(),
            ov@ == option@,
            lv@ == lower(value@),
            first_candidate_from(cands@, option@, value@, 0) == first_candidate_from(
                cands@,
                option@,
                value@,
                i as int,
            ),
        decreases cands@.len() - i,
    {
        let tv = chars_of(cands[i].text.as_str());
        let tt = trim_chars(&tv);
        let text_eq = crate::text::chars_eq(&tt, &ov);
        let hit = if text_eq {
            proof {
                assert(trimmed(cands@[i as int].text@) == option@);
            }
            true
        } else {
            let attr_eq = match &cands[i].value_attr {
                Some(va) => crate::text::str_eq(va.as_str(), option),
                None => false,
            };
            if attr_eq {
                true
            } else {
                let ltt = to_lower_vec(&tt);
                crate::text::chars_contain(&ltt, &lv)
            }
        };
        if hit {
            proof {
                assert(first_candidate_from(cands@, option@, value@, i as int) == Some(i as int));
            }
            return Some(i);
        }
        proof {
            if text_eq {
            } else {
                assert(!candidate_matches(
                    cands@[i as int].text@,
                    match cands@[i as int].value_attr {
                        Some(v) => Some(v@),
                        None => None,
                    },
                    option@,
                    value@,
                ));
            }
        }
        i = i + 1;
    }
    None
}

// ---------------------------------------------------------------------------
// The validation pipeline
// ---------------------------------------------------------------------------
/// The fixed context of one validated selection.
pub struct ValCtx {
    pub selector: String,
    pub value: String,
    pub field_name: String,
    pub max_retries: u32,
}

/// The ghost image of the context.
pub struct ValCtxView {
    pub selector: Seq<char>,
    pub value: Seq<char>,
    pub field_name: Seq<char>,
    pub max_retries: u32,
}

/// The ghost image of the context.
pub open spec fn val_ctx_view(c: ValCtx) -> ValCtxView {
    ValCtxView {
        selector: c.selector@,
        value: c.value@,
        field_name: c.field_name@,
        max_retries: c.max_retries,
    }
}

/// An operation the validation pipeline asks the embedding to perform.
pub enum ValOp {
    /// Select an option by value on the `<select>`-like element.
    SelectValue { selector: String, value: String },
    /// Click the element.
    Click { selector: String },
    /// Sleep for the fixed settle time.
    Pause { millis: u64 },
    /// Sleep for a randomized human-like time inside the inclusive window.
    PauseBetween { min_ms: u64, max_ms: u64 },
    /// Run the option scan script: find the option for `value` (see
    /// `find_click_option`), set it, and dispatch change and input events.
    RunOptionScript { selector: String, value: String },
    /// Re-read the currently selected option's value.
    ReadSelectedValue { selector: String },
}

/// The ghost image of an operation.
pub enum ValOpView {
    SelectValue { selector: Seq<char>, value: Seq<char> },
    Click { selector: Seq<char> },
    Pause { millis: u64 },
    PauseBetween { min_ms: u64, max_ms: u64 },
    RunOptionScript { selector: Seq<char>, value: Seq<char> },
    ReadSelectedValue { selector: Seq<char> },
}

/// The ghost image of an operation.
pub open spec fn val_op_view(op: ValOp) -> ValOpView {
    match op {
        ValOp::SelectValue { selector, value } => ValOpView::SelectValue {
            selector: selector@,
            value: value@,
        },
        ValOp::Click { selector } => ValOpView::Click { selector: selector@ },
        ValOp::Pause { millis } => ValOpView::Pause { millis },
        ValOp::PauseBetween { min_ms, max_ms } => ValOpView::PauseBetween { min_ms, max_ms },
        ValOp::RunOptionScript { selector, value } => ValOpView::RunOptionScript {
            selector: selector@,
            value: value@,
        },
        ValOp::ReadSelectedValue { selector } => ValOpView::ReadSelectedValue {
            selector: selector@,
        },
    }
}

/// What the embedding observed.
pub enum ValEvent {
    /// The operation succeeded.
    OpOk,
    /// The operation failed or timed out.
    OpFailed,
    /// The value the dropdown currently displays, if any is selected.
    Selected { value: Option<String> },
}

/// The ghost image of an event.
pub enum ValEventView {
    OpOk,
    OpFailed,
    Selected { value: Option<Seq<char>> },
}

/// The ghost image of an event.
pub open spec fn val_event_view(e: ValEvent) -> ValEventView {
    match e {
        ValEvent::OpOk => ValEventView::OpOk,
        ValEvent::OpFailed => ValEventView::OpFailed,
        ValEvent::Selected { value } => ValEventView::Selected {
            value: match value {
                Some(v) => Some(v@),
                None => None,
            },
        },
    }
}

/// Where the pipeline stands.  `Na` states walk the native strategy's
/// attempt, `Cb` the click-based one; the attempt number is one-based.
pub enum ValState {
    NaBackoff { attempt: u32 },
    NaTry1 { attempt: u32 },
    NaTry2 { attempt: u32 },
    NaTry3 { attempt: u32 },
    NaSettle { attempt: u32 },
    NaValidating { attempt: u32 },
    CbBackoff { attempt: u32 },
    CbClicked { attempt: u32 },
    CbOpenWait { attempt: u32 },
    CbOptionsWait { attempt: u32 },
    CbScript { attempt: u32 },
    CbFinalWait { attempt: u32 },
    CbValidating { attempt: u32 },
}

/// What one step of the pipeline asks for next.
pub enum ValStep {
    Act(ValOp, ValState),
    Success,
    Failed,
}

/// The ghost image of a step.
pub enum ValStepView {
    Act(ValOpView, ValState),
    Success,
    Failed,
}

/// The ghost image of a step.
pub open spec fn val_step_view(s: ValStep) -> ValStepView {
    match s {
        ValStep::Act(op, st) => ValStepView::Act(val_op_view(op), st),
        ValStep::Success => ValStepView::Success,
        ValStep::Failed => ValStepView::Failed,
    }
}

/// The backoff window before attempt `n`.
pub open spec fn backoff_window(n: u32) -> (u64, u64) {
    ((500 * n) as u64, (1500 * n) as u64)
}

/// After a failed native attempt `a`: the backoff into the next attempt,
/// or the hand-over to the click-based strategy once attempts are
/// exhausted.
pub open spec fn spec_advance_native(c: ValCtxView, a: u32) -> ValStepView {
    if a < c.max_retries {
        ValStepView::Act(
            ValOpView::PauseBetween {
                min_ms: backoff_window((a + 1) as u32).0,
                max_ms: backoff_window((a + 1) as u32).1,
            },
            ValState::NaBackoff { attempt: (a + 1) as u32 },
        )
    } else {
        if c.max_retries == 0 {
            ValStepView::Failed
        } else {
            ValStepView::Act(
                ValOpView::Click { selector: c.selector },
                ValState::CbClicked { attempt: 1 },
            )
        }
    }
}

/// After a failed click-based attempt `a`: the backoff into the next
/// attempt, or the pipeline's failure once both strategies are exhausted.
pub open spec fn spec_advance_cb(c: ValCtxView, a: u32) -> ValStepView {
    if a < c.max_retries {
        ValStepView::Act(
            ValOpView::PauseBetween {
                min_ms: backoff_window((a + 1) as u32).0,
                max_ms: backoff_window((a + 1) as u32).1,
            },
            ValState::CbBackoff { attempt: (a + 1) as u32 },
        )
    } else {
        ValStepView::Failed
    }
}

/// The pipeline's first move: the native strategy's first select call, or
/// immediate failure when no attempts are allowed.
pub open spec fn spec_val_start(c: ValCtxView) -> ValStepView {
    if c.max_retries == 0 {
        ValStepView::Failed
    } else {
        ValStepView::Act(
            ValOpView::SelectValue { selector: c.selector, value: c.value },
            ValState::NaTry1 { attempt: 1 },
        )
    }
}

/// The pipeline's transition relation.  A reported success leads to a
/// validation read; only a validation read that observes exactly the
/// expected value ends the pipeline successfully, and any other outcome
/// burns the attempt.
pub open spec fn spec_val_step(c: ValCtxView, state: ValState, ev: ValEventView) -> ValStepView {
    match state {
        ValState::NaBackoff { attempt } => match ev {
            ValEventView::OpOk => ValStepView::Act(
                ValOpView::SelectValue { selector: c.selector, value: c.value },
                ValState::NaTry1 { attempt },
            ),
            _ => spec_advance_native(c, attempt),
        },
        ValState::NaTry1 { attempt } => match ev {
            ValEventView::OpOk => ValStepView::Act(
                ValOpView::Pause { millis: 200 },
                ValState::NaSettle { attempt },
            ),
            ValEventView::OpFailed => ValStepView::Act(
                ValOpView::SelectValue { selector: c.selector, value: c.value },
                ValState::NaTry2 { attempt },
            ),
            _ => spec_advance_native(c, attempt),
        },
        ValState::NaTry2 { attempt } => match ev {
            ValEventView::OpOk => ValStepView::Act(
                ValOpView::Pause { millis: 200 },
                ValState::NaSettle { attempt },
            ),
            ValEventView::OpFailed => ValStepView::Act(
                ValOpView::SelectValue { selector: c.selector, value: c.value },
                ValState::NaTry3 { attempt },
            ),
            _ => spec_advance_native(c, attempt),
        },
        ValState::NaTry3 { attempt } => match ev {
            ValEventView::OpOk => ValStepView::Act(
                ValOpView::Pause { millis: 200 },
                ValState::NaSettle { attempt },
            ),
            _ => spec_advance_native(c, attempt),
        },
        ValState::NaSettle { attempt } => match ev {
            ValEventView::OpOk => ValStepView::Act(
                ValOpView::ReadSelectedValue { selector: c.selector },
                ValState::NaValidating { attempt },
            ),
            _ => spec_advance_native(c, attempt),
        },
        ValState::NaValidating { attempt } => if ev == (ValEventView::Selected {
            value: Some(c.value),
        }) {
            ValStepView::Success
        } else {
            spec_advance_native(c, attempt)
        },
        ValState::CbBackoff { attempt } => match ev {
            ValEventView::OpOk => ValStepView::Act(
                ValOpView::Click { selector: c.selector },
                ValState::CbClicked { attempt },
            ),
            _ => spec_advance_cb(c, attempt),
        },
        ValState::CbClicked { attempt } => match ev {
            ValEventView::OpOk => ValStepView::Act(
                ValOpView::PauseBetween { min_ms: 300, max_ms: 800 },
                ValState::CbOpenWait { attempt },
            ),
            _ => spec_advance_cb(c, attempt),
        },
        ValState::CbOpenWait { attempt } => match ev {
            ValEventView::OpOk => ValStepView::Act(
                ValOpView::PauseBetween { min_ms: 500, max_ms: 1000 },
                ValState::CbOptionsWait { attempt },
            ),
            _ => spec_advance_cb(c, attempt),
        },
        ValState::CbOptionsWait { attempt } => match ev {
            ValEventView::OpOk => ValStepView::Act(
                ValOpView::RunOptionScript { selector: c.selector, value: c.value },
                ValState::CbScript { attempt },
            ),
            _ => spec_advance_cb(c, attempt),
        },
        ValState::CbScript { attempt } => match ev {
            ValEventView::OpOk => ValStepView::Act(
                ValOpView::PauseBetween { min_ms: 400, max_ms: 900 },
                ValState::CbFinalWait { attempt },
            ),
            _ => spec_advance_cb(c, attempt),
        },
        ValState::CbFinalWait { attempt } => match ev {
            ValEventView::OpOk => ValStepView::Act(
                ValOpView::ReadSelectedValue { selector: c.selector },
                ValState::CbValidating { attempt },
            ),
            _ => spec_advance_cb(c, attempt),
        },
        ValState::CbValidating { attempt } => if ev == (ValEventView::Selected {
            value: Some(c.value),
        }) {
            ValStepView::Success
        } else {
            spec_advance_cb(c, attempt)
        },
    }
}

/// The terminal error once both strategies exhaust their attempts: the
/// field named, and every per-attempt error joined in order.
pub fn all_strategies_failed_message(field_name: &str, errors: &Vec<String>) -> (r: String)
    ensures
        r@ == "All dropdown selection strategies failed for '"@ + field_name@ + "'. Errors: "@
            + joined(errors@.map_values(|s: String| s@), " | "@),
{
    let mut out: Vec<char> = Vec::new();
    push_str_chars(&mut out, "All dropdown selection strategies failed for '");
    push_str_chars(&mut out, field_name);
    push_str_chars(&mut out, "'. Errors: ");
    let tail = join_strings(errors, " | ");
    push_str_chars(&mut out, tail.as_str());
    string_from_chars(&out)
}

/// A reported success that the post-action read does not confirm never
/// ends the pipeline: the only step that yields success is a validation
/// read observing exactly the expected value.
pub proof fn lemma_validated_success_required(c: ValCtxView, state: ValState, ev: ValEventView)
    ensures
        spec_val_step(c, state, ev) is Success ==> (state is NaValidating || state is CbValidating),
        spec_val_step(c, state, ev) is Success ==> ev == (ValEventView::Selected {
            value: Some(c.value),
        }),
{
}

fn select_value_op(c: &ValCtx) -> (r: ValOp)
    ensures
        val_op_view(r) == (ValOpView::SelectValue {
            selector: c.selector@,
            value: c.value@,
        }),
{
    ValOp::SelectValue { selector: c.selector.clone(), value: c.value.clone() }
}

fn advance_native(c: &ValCtx, a: u32) -> (r: ValStep)
    ensures
        val_step_view(r) == spec_advance_native(val_ctx_view(*c), a),
{
    if a < c.max_retries {
        ValStep::Act(
            ValOp::PauseBetween { min_ms: 500 * ((a + 1) as u64), max_ms: 1500 * ((a + 1) as u64) },
            ValState::NaBackoff { attempt: a + 1 },
        )
    } else if c.max_retries == 0 {
        ValStep::Failed
    } else {
        ValStep::Act(
            ValOp::Click { selector: c.selector.clone() },
            ValState::CbClicked { attempt: 1 },
        )
    }
}

fn advance_cb(c: &ValCtx, a: u32) -> (r: ValStep)
    ensures
        val_step_view(r) == spec_advance_cb(val_ctx_view(*c), a),
{
    if a < c.max_retries {
        ValStep::Act(
            ValOp::PauseBetween { min_ms: 500 * ((a + 1) as u64), max_ms: 1500 * ((a + 1) as u64) },
            ValState::CbBackoff { attempt: a + 1 },
        )
    } else {
        ValStep::Failed
    }
}

/// The pipeline's first move for `c`.
pub fn validator_start(c: &ValCtx) -> (r: ValStep)
    ensures
        val_step_view(r) == spec_val_start(val_ctx_view(*c)),
{
    if c.max_retries == 0 {
        ValStep::Failed
    } else {
        ValStep::Act(select_value_op(c), ValState::NaTry1 { attempt: 1 })
    }
}

fn validation_matches(c: &ValCtx, ev: &ValEvent) -> (r: bool)
    ensures
        r == (val_event_view(*ev) == (ValEventView::Selected { value: Some(c.value@) })),
{
    match ev {
        ValEvent::Selected { value: Some(v) } => crate::text::str_eq(v.as_str(), c.value.as_str()),
        _ => false,
    }
}

/// One step of the validation pipeline, as `spec_val_step` fixes it.
pub fn validator_step(c: &ValCtx, state: ValState, event: ValEvent) -> (r: ValStep)
    ensures
        val_step_view(r) == spec_val_step(val_ctx_view(*c), state, val_event_view(event)),
{
    match state {
        ValState::NaBackoff { attempt } => match event {
            ValEvent::OpOk => ValStep::Act(select_value_op(c), ValState::NaTry1 { attempt }),
            _ => advance_native(c, attempt),
        },
        ValState::NaTry1 { attempt } => match event {
            ValEvent::OpOk => ValStep::Act(
                ValOp::Pause { millis: 200 },
                ValState::NaSettle { attempt },
            ),
            ValEvent::OpFailed => ValStep::Act(
                select_value_op(c),
                ValState::NaTry2 { attempt },
            ),
            _ => advance_native(c, attempt),
        },
        ValState::NaTry2 { attempt } => match event {
            ValEvent::OpOk => ValStep::Act(
                ValOp::Pause { millis: 200 },
                ValState::NaSettle { attempt },
            ),
            ValEvent::OpFailed => ValStep::Act(
                select_value_op(c),
                ValState::NaTry3 { attempt },
            ),
            _ => advance_native(c, attempt),
        },
        ValState::NaTry3 { attempt } => match event {
            ValEvent::OpOk => ValStep::Act(
                ValOp::Pause { millis: 200 },
                ValState::NaSettle { attempt },
            ),
            _ => advance_native(c, attempt),
        },
        ValState::NaSettle { attempt } => match event {
            ValEvent::OpOk => ValStep::Act(
                ValOp::ReadSelectedValue { selector: c.selector.clone() },
                ValState::NaValidating { attempt },
            ),
            _ => advance_native(c, attempt),
        },
        ValState::NaValidating { attempt } => {
            if validation_matches(c, &event) {
                ValStep::Success
            } else {
                advance_native(c, attempt)
            }
        },
        ValState::CbBackoff { attempt } => match event {
            ValEvent::OpOk => ValStep::Act(
                ValOp::Click { selector: c.selector.clone() },
                ValState::CbClicked { attempt },
            ),
            _ => advance_cb(c, attempt),
        },
        ValState::CbClicked { attempt } => match event {
            ValEvent::OpOk => ValStep::Act(
                ValOp::PauseBetween { min_ms: 300, max_ms: 800 },
                ValState::CbOpenWait { attempt },
            ),
            _ => advance_cb(c, attempt),
        },
        ValState::CbOpenWait { attempt } => match event {
            ValEvent::OpOk => ValStep::Act(
                ValOp::PauseBetween { min_ms: 500, max_ms: 1000 },
                ValState::CbOptionsWait { attempt },
            ),
            _ => advance_cb(c, attempt),
        },
        ValState::CbOptionsWait { attempt } => match event {
            ValEvent::OpOk => ValStep::Act(
                ValOp::RunOptionScript { selector: c.selector.clone(), value: c.value.clone() },
                ValState::CbScript { attempt },
            ),
            _ => advance_cb(c, attempt),
        },
        ValState::CbScript { attempt } => match event {
            ValEvent::OpOk => ValStep::Act(
                ValOp::PauseBetween { min_ms: 400, max_ms: 900 },
                ValState::CbFinalWait { attempt },
            ),
            _ => advance_cb(c, attempt),
        },
        ValState::CbFinalWait { attempt } => match event {
            ValEvent::OpOk => ValStep::Act(
                ValOp::ReadSelectedValue { selector: c.selector.clone() },
                ValState::CbValidating { attempt },
            ),
            _ => advance_cb(c, attempt),
        },
        ValState::CbValidating { attempt } => {
            if validation_matches(c, &event) {
                ValStep::Success
            } else {
                advance_cb(c, attempt)
            }
        },
    }
}

} // verus!
