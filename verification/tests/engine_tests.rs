use formfill::engine::{
    EngineCtx, EngineEvent, EngineOp, EngineState, EngineStep, dynamic_loading_plan, engine_start,
    engine_step,
};
use formfill::oracle::{
    DropdownAnalysis, DropdownType, InteractionStrategy, LoadingStrategy,
};

fn analysis(strategy: InteractionStrategy) -> DropdownAnalysis {
    DropdownAnalysis {
        dropdown_type: DropdownType::CustomDiv,
        interaction_strategy: strategy,
        trigger_selector: None,
        options_container_selector: None,
        requires_scroll: false,
        is_dynamic: false,
        confidence: 90,
        reasoning: String::new(),
    }
}

fn ctx(strategy: InteractionStrategy, value: &str) -> EngineCtx {
    EngineCtx::from_analysis("#country", value, "country", &analysis(strategy))
}

fn act(step: EngineStep) -> (EngineOp, EngineState) {
    match step {
        EngineStep::Act(op, st) => (op, st),
        EngineStep::Finish(_) => panic!("expected another operation"),
    }
}

fn finish(step: EngineStep) -> bool {
    match step {
        EngineStep::Finish(b) => b,
        EngineStep::Act(..) => panic!("expected the strategy to finish"),
    }
}

#[test]
fn direct_select_asks_oracle_then_falls_back_to_raw_value() {
    let c = ctx(InteractionStrategy::DirectSelect, "US");
    let (op, st) = engine_start(InteractionStrategy::DirectSelect, &c);
    assert!(matches!(op, EngineOp::FetchHtml { ref selector } if selector == "#country"));

    let (op, st) = act(engine_step(&c, st, EngineEvent::Html { html: "<select/>".to_string() }));
    match &op {
        EngineOp::OracleMatch { html, value, field_name } => {
            assert_eq!(html, "<select/>");
            assert_eq!(value, "US");
            assert_eq!(field_name, "country");
        }
        _ => panic!("expected an oracle match"),
    }

    let (op, st) = act(engine_step(&c, st, EngineEvent::MatchReady {
        option: "United States".to_string(),
    }));
    assert!(matches!(op, EngineOp::SelectValue { ref value, .. } if value == "United States"));

    // the recommended option fails; the raw value is tried verbatim
    let (op, st) = act(engine_step(&c, st, EngineEvent::OpFailed));
    assert!(matches!(op, EngineOp::SelectValue { ref value, .. } if value == "US"));
    assert!(finish(engine_step(&c, st, EngineEvent::OpOk)));
}

#[test]
fn direct_select_fails_when_oracle_fails() {
    let c = ctx(InteractionStrategy::DirectSelect, "US");
    let (_, st) = engine_start(InteractionStrategy::DirectSelect, &c);
    let (_, st) = act(engine_step(&c, st, EngineEvent::Html { html: "<x/>".to_string() }));
    assert!(!finish(engine_step(&c, st, EngineEvent::MatchFailed)));
}

#[test]
fn click_to_open_uses_trigger_and_container_from_analysis() {
    let mut a = analysis(InteractionStrategy::ClickToOpen);
    a.trigger_selector = Some("#opener".to_string());
    a.options_container_selector = Some("#menu".to_string());
    let c = EngineCtx::from_analysis("#country", "US", "country", &a);

    let (op, st) = engine_start(InteractionStrategy::ClickToOpen, &c);
    assert!(matches!(op, EngineOp::Click { ref selector } if selector == "#opener"));
    let (op, st) = act(engine_step(&c, st, EngineEvent::OpOk));
    assert!(matches!(op, EngineOp::Pause { millis: 300 }));
    let (op, st) = act(engine_step(&c, st, EngineEvent::OpOk));
    assert!(matches!(op, EngineOp::FetchHtml { ref selector } if selector == "#menu"));
    let (op, st) = act(engine_step(&c, st, EngineEvent::Html { html: "<ul/>".to_string() }));
    assert!(matches!(op, EngineOp::OracleMatch { .. }));
    let (op, st) = act(engine_step(&c, st, EngineEvent::MatchReady {
        option: "United States".to_string(),
    }));
    match &op {
        EngineOp::ClickOption { container, option, value } => {
            assert_eq!(container, "#menu");
            assert_eq!(option, "United States");
            assert_eq!(value, "US");
        }
        _ => panic!("expected the option scan"),
    }
    assert!(finish(engine_step(&c, st, EngineEvent::OptionClicked { clicked: true })));
}

#[test]
fn keyboard_navigation_types_only_the_first_character() {
    let c = ctx(InteractionStrategy::KeyboardNavigation, "US");
    let (op, st) = engine_start(InteractionStrategy::KeyboardNavigation, &c);
    assert!(matches!(op, EngineOp::Focus { .. }));
    let (op, st) = act(engine_step(&c, st, EngineEvent::OpOk));
    assert!(matches!(op, EngineOp::PressKey { ref key } if key == "Space"));
    let (op, st) = act(engine_step(&c, st, EngineEvent::OpOk));
    assert!(matches!(op, EngineOp::Pause { millis: 200 }));
    let (op, st) = act(engine_step(&c, st, EngineEvent::OpOk));
    assert!(matches!(op, EngineOp::TypeChars { ref text } if text == "U"));
    let (op, st) = act(engine_step(&c, st, EngineEvent::OpOk));
    assert!(matches!(op, EngineOp::Pause { millis: 300 }));
    let (op, st) = act(engine_step(&c, st, EngineEvent::OpOk));
    assert!(matches!(op, EngineOp::PressKey { ref key } if key == "Enter"));
    assert!(finish(engine_step(&c, st, EngineEvent::OpOk)));
}

#[test]
fn keyboard_navigation_skips_typing_for_empty_value() {
    let c = ctx(InteractionStrategy::KeyboardNavigation, "");
    let (_, st) = engine_start(InteractionStrategy::KeyboardNavigation, &c);
    let (_, st) = act(engine_step(&c, st, EngineEvent::OpOk));
    let (_, st) = act(engine_step(&c, st, EngineEvent::OpOk));
    let (op, _) = act(engine_step(&c, st, EngineEvent::OpOk));
    assert!(matches!(op, EngineOp::PressKey { ref key } if key == "Enter"));
}

#[test]
fn type_to_search_fills_the_nested_input_when_one_exists() {
    let c = ctx(InteractionStrategy::TypeToSearch, "US");
    let (op, st) = engine_start(InteractionStrategy::TypeToSearch, &c);
    assert!(matches!(op, EngineOp::QuerySearchInput { .. }));
    let (op, st) = act(engine_step(&c, st, EngineEvent::SearchInput {
        selector: Some("input.search".to_string()),
    }));
    assert!(matches!(op, EngineOp::FillInput { ref selector, ref value }
        if selector == "input.search" && value == "US"));
    let (op, st) = act(engine_step(&c, st, EngineEvent::OpOk));
    assert!(matches!(op, EngineOp::Pause { millis: 500 }));
    let (op, st) = act(engine_step(&c, st, EngineEvent::OpOk));
    assert!(matches!(op, EngineOp::PressKey { ref key } if key == "Enter"));
    assert!(finish(engine_step(&c, st, EngineEvent::OpOk)));
}

#[test]
fn type_to_search_falls_back_to_typing_into_the_element() {
    let c = ctx(InteractionStrategy::TypeToSearch, "US");
    let (_, st) = engine_start(InteractionStrategy::TypeToSearch, &c);
    let (op, st) = act(engine_step(&c, st, EngineEvent::SearchInput { selector: None }));
    assert!(matches!(op, EngineOp::Click { .. }));
    let (op, st) = act(engine_step(&c, st, EngineEvent::OpOk));
    assert!(matches!(op, EngineOp::TypeChars { ref text } if text == "US"));
    let (op, st) = act(engine_step(&c, st, EngineEvent::OpOk));
    assert!(matches!(op, EngineOp::Pause { millis: 300 }));
    let (op, st) = act(engine_step(&c, st, EngineEvent::OpOk));
    assert!(matches!(op, EngineOp::PressKey { ref key } if key == "Enter"));
    assert!(finish(engine_step(&c, st, EngineEvent::OpOk)));
}

/// Fails whatever operation a strategy asks for until the strategy gives
/// up, recording the kind of its first operation; the first operations of
/// the four concrete strategies identify them.
fn fail_through(c: &EngineCtx, mut op: EngineOp, mut st: EngineState) -> (Vec<&'static str>, bool) {
    let mut opener_kinds: Vec<&'static str> = Vec::new();
    let mut fresh = true;
    for _ in 0..64 {
        if fresh {
            opener_kinds.push(match &op {
                EngineOp::Click { .. } => "click-to-open",
                EngineOp::QuerySearchInput { .. } => "type-to-search",
                EngineOp::Focus { .. } => "keyboard-navigation",
                EngineOp::FetchHtml { .. } => "direct-select",
                _ => "other",
            });
            fresh = false;
        }
        // report failure for real attempts; pauses always succeed
        let ev = match &op {
            EngineOp::Pause { .. } => EngineEvent::OpOk,
            EngineOp::FetchHtml { .. } => EngineEvent::OpFailed,
            EngineOp::QuerySearchInput { .. } => EngineEvent::SearchInput { selector: None },
            _ => EngineEvent::OpFailed,
        };
        let was_pause = matches!(op, EngineOp::Pause { .. });
        match engine_step(c, st, ev) {
            EngineStep::Act(next_op, next_st) => {
                if was_pause {
                    fresh = true;
                }
                op = next_op;
                st = next_st;
            }
            EngineStep::Finish(b) => return (opener_kinds, b),
        }
    }
    panic!("the chain did not settle");
}

#[test]
fn multi_step_tries_the_four_concrete_strategies_and_never_itself() {
    let c = ctx(InteractionStrategy::MultiStep, "US");
    let (op, st) = engine_start(InteractionStrategy::MultiStep, &c);
    let (kinds, ok) = fail_through(&c, op, st);
    assert!(!ok);
    // the strategies attempted are exactly the four concrete ones, in the
    // fixed order; the meta-strategy never re-enters itself
    assert_eq!(
        kinds,
        vec!["click-to-open", "type-to-search", "keyboard-navigation", "direct-select"]
    );
}

#[test]
fn multi_step_stops_at_the_first_success() {
    let c = ctx(InteractionStrategy::MultiStep, "US");
    // the chain opens with click-to-open's first click
    let (op, st) = engine_start(InteractionStrategy::MultiStep, &c);
    assert!(matches!(op, EngineOp::Click { .. }));
    let (op, st) = act(engine_step(&c, st, EngineEvent::OpOk));
    assert!(matches!(op, EngineOp::Pause { millis: 300 }));
    let (op, st) = act(engine_step(&c, st, EngineEvent::OpOk));
    assert!(matches!(op, EngineOp::FetchHtml { .. }));
    let (_, st) = act(engine_step(&c, st, EngineEvent::Html { html: "<ul/>".to_string() }));
    let (op, st) = act(engine_step(&c, st, EngineEvent::MatchReady {
        option: "United States".to_string(),
    }));
    assert!(matches!(op, EngineOp::ClickOption { .. }));
    assert!(finish(engine_step(&c, st, EngineEvent::OptionClicked { clicked: true })));
}

#[test]
fn loading_plan_is_empty_without_dynamic_loading() {
    let ls = LoadingStrategy {
        has_dynamic_loading: false,
        loading_indicators: vec![".spin".to_string()],
        estimated_wait_time: 750,
        trigger_conditions: vec!["click".to_string()],
    };
    assert!(dynamic_loading_plan(&ls, "#dd").is_empty());
}

#[test]
fn loading_plan_triggers_waits_and_watches_indicators() {
    let ls = LoadingStrategy {
        has_dynamic_loading: true,
        loading_indicators: vec![".spin".to_string(), ".busy".to_string()],
        estimated_wait_time: 750,
        trigger_conditions: vec![
            "click".to_string(),
            "focus".to_string(),
            "hover".to_string(),
            "scroll".to_string(),
        ],
    };
    let plan = dynamic_loading_plan(&ls, "#dd");
    assert_eq!(plan.len(), 6);
    assert!(matches!(plan[0], EngineOp::Click { ref selector } if selector == "#dd"));
    assert!(matches!(plan[1], EngineOp::Focus { ref selector } if selector == "#dd"));
    assert!(matches!(plan[2], EngineOp::Click { ref selector } if selector == "#dd"));
    assert!(matches!(plan[3], EngineOp::Pause { millis: 750 }));
    assert!(matches!(plan[4], EngineOp::WaitForSelector { ref selector, timeout_ms: 5000 }
        if selector == ".spin"));
    assert!(matches!(plan[5], EngineOp::WaitForSelector { ref selector, timeout_ms: 5000 }
        if selector == ".busy"));
}
