use formfill::validator::{
    ClickCandidate, OptionEntry, ValCtx, ValEvent, ValOp, ValState, ValStep,
    all_strategies_failed_message, backoff_delay, find_click_option, find_open_dropdown_option,
    human_delay_ms, validator_start, validator_step,
};

#[test]
fn backoff_delay_stays_inside_the_exponential_window() {
    for n in [1u32, 2, 3, 4, 5, 10, 100] {
        for _ in 0..20 {
            let d = backoff_delay(n);
            assert!(500 * (n as u64) <= d && d <= 1500 * (n as u64));
        }
    }
}

#[test]
fn human_delay_stays_inside_its_window() {
    for _ in 0..50 {
        let d = human_delay_ms(300, 800);
        assert!((300..=800).contains(&d));
    }
    assert_eq!(human_delay_ms(7, 7), 7);
}

fn options(texts: &[&str]) -> Vec<OptionEntry> {
    texts
        .iter()
        .map(|t| OptionEntry { value: t.to_string(), text: t.to_string() })
        .collect()
}

#[test]
fn option_scan_prefers_exact_case_insensitive_matches() {
    let opts = options(&["United States", "Canada"]);
    assert_eq!(find_click_option(&opts, "  canada "), Some(1));
    assert_eq!(find_click_option(&opts, "UNITED STATES"), Some(0));
}

#[test]
fn option_scan_falls_back_to_the_last_partial_match() {
    // "ted" occurs in "United States" only
    let opts = options(&["United States", "Canada"]);
    assert_eq!(find_click_option(&opts, "ted"), Some(0));
    // several partial matches: the scan keeps the last one
    let opts = options(&["North Dakota", "South Dakota"]);
    assert_eq!(find_click_option(&opts, "dakota"), Some(1));
    // an exact match later in the list still wins over earlier partials
    let opts = options(&["Dakota County", "dakota"]);
    assert_eq!(find_click_option(&opts, "Dakota"), Some(1));
    assert_eq!(find_click_option(&opts, "elsewhere"), None);
}

#[test]
fn open_dropdown_scan_matches_text_value_or_contained_raw_value() {
    let cands = vec![
        ClickCandidate { text: "  United States  ".to_string(), value_attr: None },
        ClickCandidate { text: "Canada".to_string(), value_attr: Some("CA".to_string()) },
        ClickCandidate { text: "Mexico".to_string(), value_attr: None },
    ];
    // trimmed text equality against the recommended option
    assert_eq!(find_open_dropdown_option(&cands, "United States", "US"), Some(0));
    // value attribute equality against the recommended option
    assert_eq!(find_open_dropdown_option(&cands, "CA", "Canada"), Some(1));
    // case-insensitive containment of the raw value in the text
    assert_eq!(find_open_dropdown_option(&cands, "nothing", "exic"), Some(2));
    assert_eq!(find_open_dropdown_option(&cands, "nothing", "zz"), None);
}

fn ctx(max_retries: u32) -> ValCtx {
    ValCtx {
        selector: "select[name='15_country']".to_string(),
        value: "US".to_string(),
        field_name: "country".to_string(),
        max_retries,
    }
}

fn act(step: ValStep) -> (ValOp, ValState) {
    match step {
        ValStep::Act(op, st) => (op, st),
        _ => panic!("expected another operation"),
    }
}

#[test]
fn no_attempts_allowed_means_immediate_failure() {
    assert!(matches!(validator_start(&ctx(0)), ValStep::Failed));
}

#[test]
fn unvalidated_success_does_not_end_the_pipeline() {
    let c = ctx(3);
    // native attempt 1: the select call reports success
    let (op, st) = act(validator_start(&c));
    assert!(matches!(op, ValOp::SelectValue { ref value, .. } if value == "US"));
    let (op, st) = act(validator_step(&c, st, ValEvent::OpOk));
    assert!(matches!(op, ValOp::Pause { millis: 200 }));
    let (op, st) = act(validator_step(&c, st, ValEvent::OpOk));
    assert!(matches!(op, ValOp::ReadSelectedValue { .. }));
    // the re-read does not show the expected value: the reported success is
    // treated as a failed attempt, and attempt 2 follows after a backoff in
    // [500 * 2, 1500 * 2]
    let (op, st) = act(validator_step(&c, st, ValEvent::Selected {
        value: Some("Uruguay".to_string()),
    }));
    assert!(matches!(op, ValOp::PauseBetween { min_ms: 1000, max_ms: 3000 }));
    // attempt 2 starts with the select call again
    let (op, st) = act(validator_step(&c, st, ValEvent::OpOk));
    assert!(matches!(op, ValOp::SelectValue { .. }));
    // this time validation confirms the value and the pipeline succeeds
    let (_, st) = act(validator_step(&c, st, ValEvent::OpOk));
    let (op, st) = act(validator_step(&c, st, ValEvent::OpOk));
    assert!(matches!(op, ValOp::ReadSelectedValue { .. }));
    assert!(matches!(
        validator_step(&c, st, ValEvent::Selected { value: Some("US".to_string()) }),
        ValStep::Success
    ));
}

#[test]
fn native_attempt_tries_the_select_call_three_times() {
    let c = ctx(1);
    let (_, st) = act(validator_start(&c));
    let (op, st) = act(validator_step(&c, st, ValEvent::OpFailed));
    assert!(matches!(op, ValOp::SelectValue { .. }));
    let (op, st) = act(validator_step(&c, st, ValEvent::OpFailed));
    assert!(matches!(op, ValOp::SelectValue { .. }));
    // the third failure exhausts the native attempt; with one attempt per
    // strategy the click-based strategy opens next
    let (op, _) = act(validator_step(&c, st, ValEvent::OpFailed));
    assert!(matches!(op, ValOp::Click { .. }));
}

#[test]
fn click_based_strategy_walks_click_waits_script_and_validation() {
    let c = ctx(1);
    // exhaust the native strategy's single attempt
    let (_, st) = act(validator_start(&c));
    let (_, st) = act(validator_step(&c, st, ValEvent::OpFailed));
    let (_, st) = act(validator_step(&c, st, ValEvent::OpFailed));
    let (op, st) = act(validator_step(&c, st, ValEvent::OpFailed));
    assert!(matches!(op, ValOp::Click { .. }));
    let (op, st) = act(validator_step(&c, st, ValEvent::OpOk));
    assert!(matches!(op, ValOp::PauseBetween { min_ms: 300, max_ms: 800 }));
    let (op, st) = act(validator_step(&c, st, ValEvent::OpOk));
    assert!(matches!(op, ValOp::PauseBetween { min_ms: 500, max_ms: 1000 }));
    let (op, st) = act(validator_step(&c, st, ValEvent::OpOk));
    assert!(matches!(op, ValOp::RunOptionScript { ref value, .. } if value == "US"));
    let (op, st) = act(validator_step(&c, st, ValEvent::OpOk));
    assert!(matches!(op, ValOp::PauseBetween { min_ms: 400, max_ms: 900 }));
    let (op, st) = act(validator_step(&c, st, ValEvent::OpOk));
    assert!(matches!(op, ValOp::ReadSelectedValue { .. }));
    // the page's option "United States" carries the value "US": the re-read
    // confirms it and the pipeline succeeds
    assert!(matches!(
        validator_step(&c, st, ValEvent::Selected { value: Some("US".to_string()) }),
        ValStep::Success
    ));
}

#[test]
fn both_strategies_exhausted_means_failure() {
    let c = ctx(1);
    let (_, st) = act(validator_start(&c));
    let (_, st) = act(validator_step(&c, st, ValEvent::OpFailed));
    let (_, st) = act(validator_step(&c, st, ValEvent::OpFailed));
    // native exhausted; the click-based strategy's click fails outright
    let (op, st) = act(validator_step(&c, st, ValEvent::OpFailed));
    assert!(matches!(op, ValOp::Click { .. }));
    assert!(matches!(validator_step(&c, st, ValEvent::OpFailed), ValStep::Failed));
}

#[test]
fn the_terminal_error_concatenates_every_attempt_error() {
    let errors = vec![
        "JavaScript DOM Manipulation: Attempt 1: Selection error".to_string(),
        "Click-based Selection: Attempt 1: Visual validation failed".to_string(),
    ];
    assert_eq!(
        all_strategies_failed_message("country", &errors),
        "All dropdown selection strategies failed for 'country'. Errors: \
         JavaScript DOM Manipulation: Attempt 1: Selection error | \
         Click-based Selection: Attempt 1: Visual validation failed"
    );
    assert_eq!(
        all_strategies_failed_message("country", &vec![]),
        "All dropdown selection strategies failed for 'country'. Errors: "
    );
}
