use formfill::resolver::{
    DiscoveredForm, DiscoveredFormField, EnhancedFieldMapping, FieldDefinition, FieldEntry,
    FieldMappingService, extract_domain, fallback_selectors, get_smart_selectors,
};

fn field(name: &str, selectors: Vec<&str>, profile_field: Option<&str>) -> FieldEntry {
    FieldEntry {
        name: name.to_string(),
        def: FieldDefinition {
            selectors: selectors.iter().map(|s| s.to_string()).collect(),
            field_type: "text".to_string(),
            required: false,
            profile_field: profile_field.map(|s| s.to_string()),
            sample_values: None,
            options: None,
        },
    }
}

fn mapping(url: &str, fields: Vec<FieldEntry>) -> EnhancedFieldMapping {
    EnhancedFieldMapping {
        id: "m1".to_string(),
        url: url.to_string(),
        site_name: "Test Site".to_string(),
        form_type: "test".to_string(),
        fields,
        success_rate: 100,
        last_tested: "2025-09-09".to_string(),
    }
}

#[test]
fn test_field_mapping_service() {
    let mut service = FieldMappingService::new();
    let m = mapping(
        "https://www.roboform.com/filling-test-all-fields",
        vec![field("firstName", vec!["input[name='02frstname']"], Some("firstName"))],
    );
    assert!(service.insert_mapping(m));
    let selectors = service.get_field_selectors(
        "https://www.roboform.com/filling-test-all-fields",
        "firstName",
    );
    assert!(!selectors.is_empty());
    assert_eq!(selectors, vec!["input[name='02frstname']".to_string()]);
}

#[test]
fn resolver_never_returns_empty() {
    let service = FieldMappingService::new();
    for url in ["https://a.example/", "", "nonsense", "https://b.example/x?y=1"] {
        for name in ["firstName", "", "nothing_known", "zip"] {
            let sels = service.get_field_selectors(url, name);
            assert!(!sels.is_empty());
        }
    }
}

#[test]
fn unmatched_field_gets_generic_fallbacks() {
    let service = FieldMappingService::new();
    let sels = service.get_field_selectors("https://no.mapping.example/", "petName");
    assert_eq!(
        sels,
        vec![
            "input[name='petName']".to_string(),
            "input[id='petName']".to_string(),
            "select[name='petName']".to_string(),
            "textarea[name='petName']".to_string(),
        ]
    );
    assert_eq!(sels, fallback_selectors("petName"));
}

#[test]
fn profile_field_match_returns_declared_selectors_in_order() {
    let mut service = FieldMappingService::new();
    let m = mapping(
        "https://signup.example/form",
        vec![
            field("primary_email", vec!["#email-main", "input.email"], Some("email")),
            field("email", vec!["#other"], None),
        ],
    );
    assert!(service.insert_mapping(m));
    let sels = service.get_field_selectors("https://signup.example/form", "email");
    assert_eq!(sels, vec!["#email-main".to_string(), "input.email".to_string()]);
}

#[test]
fn semantic_synonyms_beat_generic_fallbacks() {
    let mut service = FieldMappingService::new();
    let m = mapping(
        "https://signup.example/form",
        vec![field("first_name", vec!["#fn"], None)],
    );
    assert!(service.insert_mapping(m));
    let sels = service.get_field_selectors("https://signup.example/form", "firstName");
    assert_eq!(sels, vec!["#fn".to_string()]);
}

#[test]
fn key_match_beats_semantic_match() {
    let mut service = FieldMappingService::new();
    let m = mapping(
        "https://signup.example/form",
        vec![
            field("firstName", vec!["#exact"], None),
            field("first_name", vec!["#synonym"], None),
        ],
    );
    assert!(service.insert_mapping(m));
    let sels = service.get_field_selectors("https://signup.example/form", "firstName");
    assert_eq!(sels, vec!["#exact".to_string()]);
}

#[test]
fn domain_containment_matches_mapping() {
    let mut service = FieldMappingService::new();
    let m = mapping("https://signup.example/form", vec![field("zip", vec!["#z"], None)]);
    assert!(service.insert_mapping(m));
    let sels = service.get_field_selectors("https://signup.example/other-page", "zip");
    assert_eq!(sels, vec!["#z".to_string()]);
}

#[test]
fn malformed_mapping_is_skipped() {
    let mut service = FieldMappingService::new();
    let empty_selectors = mapping("https://bad.example/", vec![field("a", vec![], None)]);
    assert!(!service.insert_mapping(empty_selectors));
    let duplicate_names = mapping(
        "https://bad.example/",
        vec![field("a", vec!["#x"], None), field("a", vec!["#y"], None)],
    );
    assert!(!service.insert_mapping(duplicate_names));
    assert_eq!(service.get_all_mappings().len(), 0);
}

#[test]
fn insert_replaces_mapping_with_same_url() {
    let mut service = FieldMappingService::new();
    assert!(service.insert_mapping(mapping("https://a.example/", vec![field("x", vec!["#1"], None)])));
    assert!(service.insert_mapping(mapping("https://a.example/", vec![field("x", vec!["#2"], None)])));
    assert_eq!(service.get_all_mappings().len(), 1);
    let sels = service.get_field_selectors("https://a.example/", "x");
    assert_eq!(sels, vec!["#2".to_string()]);
}

#[test]
fn extract_domain_reads_host_or_falls_back() {
    assert_eq!(
        extract_domain("https://www.roboform.com/filling-test-all-fields"),
        "www.roboform.com".to_string()
    );
    // the fallback parse takes the third slash-separated segment, as the
    // host position of a scheme-qualified URL
    assert_eq!(extract_domain("example.com/path/x"), "x".to_string());
    assert_eq!(extract_domain("example.com/path"), "example.com/path".to_string());
    assert_eq!(extract_domain("no slashes at all"), "no slashes at all".to_string());
}

fn discovered_form(url: &str) -> DiscoveredForm {
    DiscoveredForm {
        url: url.to_string(),
        form_id: Some("f1".to_string()),
        form_action: None,
        form_method: "post".to_string(),
        fields: vec![
            DiscoveredFormField {
                name: "user_email".to_string(),
                label: "Your e-mail address".to_string(),
                field_type: "email".to_string(),
                selectors: vec!["#user-email".to_string()],
                required: true,
                semantic_type: Some("email".to_string()),
                placeholder: None,
                options: None,
            },
            DiscoveredFormField {
                name: "zipcode".to_string(),
                label: "Postal code".to_string(),
                field_type: "text".to_string(),
                selectors: vec!["#zip".to_string()],
                required: false,
                semantic_type: None,
                placeholder: None,
                options: None,
            },
        ],
        submit_button: Some("#go".to_string()),
    }
}

#[test]
fn smart_selectors_prefer_semantic_then_name_then_label() {
    let form = discovered_form("https://d.example/");
    assert_eq!(get_smart_selectors(&form, "Email"), vec!["#user-email".to_string()]);
    assert_eq!(get_smart_selectors(&form, "ZIPCODE"), vec!["#zip".to_string()]);
    assert_eq!(get_smart_selectors(&form, "postal"), vec!["#zip".to_string()]);
    assert!(get_smart_selectors(&form, "unrelated").is_empty());
}

#[test]
fn discovery_cache_feeds_resolution() {
    let mut service = FieldMappingService::new();
    service.enable_discovery(true);
    assert!(service.is_dynamic_discovery_enabled());
    let url = "https://d.example/";
    assert!(service.discover_and_cache_form(url, Some(discovered_form(url))));
    let names = service.get_discovered_field_names(url);
    assert_eq!(names, vec!["user_email".to_string(), "zipcode".to_string()]);
    let sels = service.get_field_selectors(url, "email");
    assert_eq!(sels, vec!["#user-email".to_string()]);
    // a second discovery for the same URL leaves the cache as it is
    assert!(service.discover_and_cache_form(url, None));
}

#[test]
fn discovery_disabled_caches_nothing() {
    let mut service = FieldMappingService::new();
    let url = "https://d.example/";
    assert!(!service.discover_and_cache_form(url, Some(discovered_form(url))));
    assert!(service.get_discovered_field_names(url).is_empty());
}
