use formfill::oracle::{
    DropdownAnalysis, DropdownType, InteractionStrategy, OracleError, RawDropdownAnalysis,
    RawFailureAnalysis, SmartDropdownService, fallback_suggestion, parse_dropdown_analysis,
    parse_dropdown_type, parse_failure_analysis, parse_interaction_strategy,
    suggested_or_fallback,
};

#[test]
fn dropdown_type_names_are_the_eight_variants() {
    assert_eq!(parse_dropdown_type("StandardSelect"), Some(DropdownType::StandardSelect));
    assert_eq!(parse_dropdown_type("CustomDiv"), Some(DropdownType::CustomDiv));
    assert_eq!(parse_dropdown_type("ReactComponent"), Some(DropdownType::ReactComponent));
    assert_eq!(parse_dropdown_type("VueComponent"), Some(DropdownType::VueComponent));
    assert_eq!(parse_dropdown_type("AriaDropdown"), Some(DropdownType::AriaDropdown));
    assert_eq!(parse_dropdown_type("MultiSelect"), Some(DropdownType::MultiSelect));
    assert_eq!(parse_dropdown_type("SearchableDropdown"), Some(DropdownType::SearchableDropdown));
    assert_eq!(parse_dropdown_type("CascadingDropdown"), Some(DropdownType::CascadingDropdown));
    assert_eq!(parse_dropdown_type("standardselect"), None);
    assert_eq!(parse_dropdown_type(""), None);
}

#[test]
fn strategy_names_are_the_five_variants() {
    assert_eq!(parse_interaction_strategy("DirectSelect"), Some(InteractionStrategy::DirectSelect));
    assert_eq!(parse_interaction_strategy("ClickToOpen"), Some(InteractionStrategy::ClickToOpen));
    assert_eq!(
        parse_interaction_strategy("KeyboardNavigation"),
        Some(InteractionStrategy::KeyboardNavigation)
    );
    assert_eq!(parse_interaction_strategy("TypeToSearch"), Some(InteractionStrategy::TypeToSearch));
    assert_eq!(parse_interaction_strategy("MultiStep"), Some(InteractionStrategy::MultiStep));
    assert_eq!(parse_interaction_strategy("direct-select"), None);
}

fn raw_analysis() -> RawDropdownAnalysis {
    RawDropdownAnalysis {
        dropdown_type: "StandardSelect".to_string(),
        interaction_strategy: "DirectSelect".to_string(),
        trigger_selector: None,
        options_container_selector: Some(".options".to_string()),
        requires_scroll: false,
        is_dynamic: true,
        confidence: 85,
        reasoning: "plain select".to_string(),
    }
}

#[test]
fn analysis_validation_accepts_well_formed_responses() {
    let a = match parse_dropdown_analysis(raw_analysis()) {
        Ok(a) => a,
        Err(_) => panic!("well-formed response rejected"),
    };
    assert!(matches!(a.dropdown_type, DropdownType::StandardSelect));
    assert!(matches!(a.interaction_strategy, InteractionStrategy::DirectSelect));
    assert_eq!(a.confidence, 85);
    assert!(a.is_dynamic);
    assert_eq!(a.options_container_selector.as_deref(), Some(".options"));
}

#[test]
fn analysis_validation_rejects_each_violation() {
    let mut bad_type = raw_analysis();
    bad_type.dropdown_type = "Selectish".to_string();
    assert!(matches!(parse_dropdown_analysis(bad_type), Err(OracleError::UnknownDropdownType)));

    let mut bad_strategy = raw_analysis();
    bad_strategy.interaction_strategy = "Wiggle".to_string();
    assert!(matches!(parse_dropdown_analysis(bad_strategy), Err(OracleError::UnknownStrategy)));

    let mut too_confident = raw_analysis();
    too_confident.confidence = 101;
    assert!(matches!(
        parse_dropdown_analysis(too_confident),
        Err(OracleError::ConfidenceOutOfRange)
    ));

    let mut negative = raw_analysis();
    negative.confidence = -1;
    assert!(matches!(parse_dropdown_analysis(negative), Err(OracleError::ConfidenceOutOfRange)));
}

#[test]
fn failure_analysis_validation() {
    let raw = RawFailureAnalysis {
        likely_cause: "selector targets the wrong element".to_string(),
        suggested_fixes: vec!["open the dropdown first".to_string()],
        alternative_selectors: vec!["select#country-alt".to_string()],
        retry_strategy: "ClickToOpen".to_string(),
        confidence: 60,
    };
    let a = match parse_failure_analysis(raw) {
        Ok(a) => a,
        Err(_) => panic!("well-formed response rejected"),
    };
    assert!(matches!(a.retry_strategy, InteractionStrategy::ClickToOpen));
    assert_eq!(a.alternative_selectors, vec!["select#country-alt".to_string()]);

    let bad = RawFailureAnalysis {
        likely_cause: String::new(),
        suggested_fixes: vec![],
        alternative_selectors: vec![],
        retry_strategy: "Retry".to_string(),
        confidence: 60,
    };
    assert!(matches!(parse_failure_analysis(bad), Err(OracleError::UnknownStrategy)));
}

#[test]
fn free_text_fallback_suggestion_is_the_trimmed_response() {
    assert_eq!(fallback_suggestion("  United States \n"), Some("United States".to_string()));
    assert_eq!(fallback_suggestion("   \t\n"), None);
    assert_eq!(fallback_suggestion(""), None);
    assert_eq!(
        suggested_or_fallback(Some("Canada".to_string()), "ignored"),
        Some("Canada".to_string())
    );
    assert_eq!(suggested_or_fallback(None, " Mexico "), Some("Mexico".to_string()));
}

fn analysis_for_cache(reasoning: &str) -> DropdownAnalysis {
    DropdownAnalysis {
        dropdown_type: DropdownType::CustomDiv,
        interaction_strategy: InteractionStrategy::ClickToOpen,
        trigger_selector: Some("#open".to_string()),
        options_container_selector: None,
        requires_scroll: false,
        is_dynamic: false,
        confidence: 70,
        reasoning: reasoning.to_string(),
    }
}

#[test]
fn accepted_classifications_enter_the_cache_and_rejected_ones_do_not() {
    let mut service = SmartDropdownService::new();
    let selector = "#month";
    let len = 64;
    let accepted = match service.accept_classification(selector, len, raw_analysis()) {
        Ok(a) => a,
        Err(_) => panic!("well-formed response rejected"),
    };
    assert_eq!(accepted.confidence, 85);
    assert!(service.lookup_analysis(selector, len).is_some());

    let mut bad = raw_analysis();
    bad.interaction_strategy = "Wiggle".to_string();
    assert!(matches!(
        service.accept_classification(selector, 99, bad),
        Err(OracleError::UnknownStrategy)
    ));
    assert!(service.lookup_analysis(selector, 99).is_none());
}

#[test]
fn identical_fingerprints_cost_one_upstream_call() {
    let mut service = SmartDropdownService::new();
    let selector = "#country";
    let html = "<div class='dd'><span>United States</span></div>";
    let mut upstream_calls = 0;

    // first classification: cache miss, one upstream call, result recorded
    if service.lookup_analysis(selector, html.len()).is_none() {
        upstream_calls += 1;
        service.record_analysis(selector, html.len(), analysis_for_cache("first"));
    }
    // second classification of the identical (selector, html) pair: served
    // from the cache, no upstream call
    let cached = match service.lookup_analysis(selector, html.len()) {
        Some(a) => a,
        None => panic!("identical fingerprint missed the cache"),
    };
    assert_eq!(upstream_calls, 1);
    assert_eq!(cached.reasoning, "first");

    // a changed HTML length forces a new upstream call
    let longer = "<div class='dd'><span>United States of America</span></div>";
    if service.lookup_analysis(selector, longer.len()).is_none() {
        upstream_calls += 1;
        service.record_analysis(selector, longer.len(), analysis_for_cache("second"));
    }
    assert_eq!(upstream_calls, 2);

    // both fingerprints now answer from the cache
    assert_eq!(service.lookup_analysis(selector, html.len()).unwrap().reasoning, "first");
    assert_eq!(service.lookup_analysis(selector, longer.len()).unwrap().reasoning, "second");
    // a different selector with a known length still misses
    assert!(service.lookup_analysis("#state", html.len()).is_none());
}
