use formfill::models::{SavedUrl, UrlConfig, UrlGroup, UrlStatus};
use formfill::orchestrator::{
    FieldAction, FieldCtx, FieldStep, FillSession, RunState, UrlSelectError, candidate_selectors,
    field_start, field_step, get_roboform_selector, is_dropdown_selector,
    map_roboform_dropdown_value, select_urls, skip_field,
};

#[test]
fn site_selectors_cover_the_known_fields() {
    assert_eq!(
        get_roboform_selector("firstName"),
        Some("input[name='02frstname']".to_string())
    );
    assert_eq!(get_roboform_selector("lastName"), Some("input[name='04lastname']".to_string()));
    assert_eq!(get_roboform_selector("country"), Some("input[name='15_country']".to_string()));
    assert_eq!(
        get_roboform_selector("creditCardExpMonth"),
        Some("select[name='42ccexp_mm']".to_string())
    );
    assert_eq!(get_roboform_selector("jobTitle"), get_roboform_selector("position"));
    assert_eq!(get_roboform_selector("noSuchField"), None);
}

#[test]
fn dropdown_values_are_mapped_to_the_site_options() {
    assert_eq!(
        map_roboform_dropdown_value("creditCardType", "Visa"),
        "Visa (Preferred)".to_string()
    );
    assert_eq!(
        map_roboform_dropdown_value("creditCardType", "Amex"),
        "American Express".to_string()
    );
    assert_eq!(map_roboform_dropdown_value("birthMonth", "January"), "Jan".to_string());
    assert_eq!(map_roboform_dropdown_value("birthMonth", "December"), "Dec".to_string());
    assert_eq!(map_roboform_dropdown_value("creditCardExpMonth", "3"), "03".to_string());
    assert_eq!(map_roboform_dropdown_value("creditCardExpMonth", "11"), "11".to_string());
    // unknown pairs pass through unchanged
    assert_eq!(map_roboform_dropdown_value("birthMonth", "Frimaire"), "Frimaire".to_string());
    assert_eq!(map_roboform_dropdown_value("city", "Boston"), "Boston".to_string());
}

#[test]
fn dropdown_likeness_goes_by_the_selector_text() {
    assert!(is_dropdown_selector("select[name='country']"));
    assert!(is_dropdown_selector(".country-dropdown"));
    assert!(is_dropdown_selector("[role='combobox']"));
    assert!(is_dropdown_selector("div.listbox"));
    assert!(!is_dropdown_selector("input[name='firstName']"));
}

#[test]
fn candidates_put_the_site_selector_before_the_generic_patterns() {
    let sels = candidate_selectors("firstName");
    assert_eq!(
        sels,
        vec![
            "input[name='02frstname']".to_string(),
            "input[name='firstName']".to_string(),
            "input[id='firstName']".to_string(),
            "select[name='firstName']".to_string(),
            "textarea[name='firstName']".to_string(),
            "input[placeholder*='firstname']".to_string(),
        ]
    );
    let sels = candidate_selectors("petName");
    assert_eq!(sels.len(), 5);
    assert_eq!(sels[0], "input[name='petName']".to_string());
    assert_eq!(sels[4], "input[placeholder*='petname']".to_string());
}

#[test]
fn empty_and_blank_values_are_skipped() {
    assert!(skip_field(""));
    assert!(skip_field("   \t"));
    assert!(!skip_field("John"));
}

fn act(step: FieldStep) -> (FieldAction, formfill::orchestrator::FieldPhase) {
    match step {
        FieldStep::Act(a, p) => (a, p),
        FieldStep::Done { .. } => panic!("expected another action"),
    }
}

#[test]
fn profile_fill_tallies_two_of_three_fields() {
    // profile {firstName: "John", lastName: "Doe", country: ""} against a
    // page with the matching inputs: the two names fill via the first
    // candidate selector, the empty country is skipped and not attempted
    let fields = vec![
        ("firstName", "John"),
        ("lastName", "Doe"),
        ("country", ""),
    ];
    let mut session = FillSession::new(fields.len());
    for (name, value) in fields {
        if skip_field(value) {
            session.record_skip();
            continue;
        }
        let ctx = FieldCtx::new(name, value);
        let (action, _) = act(field_start(&ctx));
        // both names resolve to plain inputs; the page accepts the fill
        match action {
            FieldAction::TryPlainFill { selector, value: v } => {
                assert!(selector.starts_with("input[name='"));
                assert_eq!(v, value.to_string());
            }
            _ => panic!("expected a plain fill"),
        }
        let phase = match field_start(&ctx) {
            FieldStep::Act(_, p) => p,
            _ => unreachable!(),
        };
        match field_step(&ctx, phase, true) {
            FieldStep::Done { filled } => session.record_attempt(filled),
            _ => panic!("a successful fill ends the field"),
        }
    }
    assert_eq!(session.total, 3);
    assert_eq!(session.processed, 3);
    assert_eq!(session.attempted, 2);
    assert_eq!(session.filled, 2);
}

#[test]
fn dropdown_candidates_walk_ai_validator_recovery_then_next_selector() {
    let ctx = FieldCtx::new("creditCardExpMonth", "3");
    // the site selector is a <select>: the AI path runs first
    let (action, phase) = act(field_start(&ctx));
    assert!(matches!(action, FieldAction::TryDropdownAi { ref selector, ref value }
        if selector == "select[name='42ccexp_mm']" && value == "3"));
    // the AI path errors: the validator runs with the site-mapped value
    let (action, phase) = act(field_step(&ctx, phase, false));
    assert!(matches!(action, FieldAction::TryDropdownLegacy { ref selector, ref value }
        if selector == "select[name='42ccexp_mm']" && value == "03"));
    // the validator fails: recovery runs with the same mapped value
    let (action, phase) = act(field_step(&ctx, phase, false));
    assert!(matches!(action, FieldAction::TryRecovery { ref value, .. } if value == "03"));
    // recovery fails too: the next candidate selector is tried
    let (action, phase) = act(field_step(&ctx, phase, false));
    assert!(matches!(action, FieldAction::TryPlainFill { ref selector, .. }
        if selector == "input[name='creditCardExpMonth']"));
    // a successful candidate ends the field as filled
    match field_step(&ctx, phase, true) {
        FieldStep::Done { filled } => assert!(filled),
        _ => panic!("a successful fill ends the field"),
    }
}

#[test]
fn exhausting_every_candidate_reports_the_field_unfilled() {
    let ctx = FieldCtx::new("petName", "Rex");
    let mut step = field_start(&ctx);
    let mut hops = 0;
    loop {
        match step {
            FieldStep::Act(_, phase) => {
                step = field_step(&ctx, phase, false);
                hops += 1;
                assert!(hops < 32);
            }
            FieldStep::Done { filled } => {
                assert!(!filled);
                break;
            }
        }
    }
}

fn saved(url: &str, status: UrlStatus, group: Option<&str>) -> SavedUrl {
    SavedUrl {
        id: url.to_string(),
        url: url.to_string(),
        name: None,
        description: None,
        group: group.map(|g| g.to_string()),
        tags: vec![],
        status,
        test_count: 0,
    }
}

#[test]
fn url_selection_follows_the_configuration() {
    let urls = vec![
        saved("https://a.example/", UrlStatus::Active, Some("daily")),
        saved("https://b.example/", UrlStatus::Inactive, Some("daily")),
        saved("https://c.example/", UrlStatus::Active, None),
        saved("https://d.example/", UrlStatus::Active, Some("daily")),
    ];
    let groups = vec![UrlGroup {
        id: "g1".to_string(),
        name: "daily".to_string(),
        description: None,
        color: "#fff".to_string(),
    }];

    let all = select_urls(&UrlConfig::All, &urls, &groups).unwrap();
    assert_eq!(
        all,
        vec![
            "https://a.example/".to_string(),
            "https://c.example/".to_string(),
            "https://d.example/".to_string(),
        ]
    );

    let two = select_urls(&UrlConfig::Amount { amount: 2 }, &urls, &groups).unwrap();
    assert_eq!(two, vec!["https://a.example/".to_string(), "https://c.example/".to_string()]);

    let grouped = select_urls(
        &UrlConfig::Group { group_id: "g1".to_string() },
        &urls,
        &groups,
    )
    .unwrap();
    assert_eq!(grouped, vec!["https://a.example/".to_string(), "https://d.example/".to_string()]);

    let missing = select_urls(
        &UrlConfig::Group { group_id: "g9".to_string() },
        &urls,
        &groups,
    );
    assert!(matches!(missing, Err(UrlSelectError::GroupNotFound)));

    let single = select_urls(
        &UrlConfig::Single { url: "https://solo.example/".to_string() },
        &urls,
        &groups,
    )
    .unwrap();
    assert_eq!(single, vec!["https://solo.example/".to_string()]);
}

#[test]
fn run_state_checkpoints_observe_cooperative_cancellation() {
    let mut run = RunState::new(3);
    assert!(run.should_continue());
    run.begin_url("https://a.example/".to_string(), 0);
    assert_eq!(run.current_url.as_deref(), Some("https://a.example/"));
    assert_eq!(run.processed_count, 0);
    run.request_stop();
    assert!(!run.should_continue());
    // the stop keeps the run's position and carries no error
    assert_eq!(run.processed_count, 0);
    assert!(run.error.is_none());

    let mut run = RunState::new(2);
    run.begin_url("https://b.example/".to_string(), 1);
    run.complete();
    assert!(!run.should_continue());
    assert_eq!(run.processed_count, 2);
    assert!(run.current_url.is_none());

    let mut run = RunState::new(1);
    run.fail("browser launch failed".to_string());
    assert!(!run.should_continue());
    assert_eq!(run.error.as_deref(), Some("browser launch failed"));
}
