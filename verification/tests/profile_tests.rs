use formfill::profile::{
    FieldMapping, FormTemplate, GenerationDraws, ProfileAdapter, TemplateField,
    get_form_values_with_adapter,
};

fn pairs(entries: &[(&str, &str)]) -> Vec<(String, String)> {
    entries.iter().map(|(k, v)| (k.to_string(), v.to_string())).collect()
}

fn plain_rule() -> FieldMapping {
    FieldMapping {
        selectors: vec![],
        field_type: "text".to_string(),
        priority: "high".to_string(),
        profile_mappings: None,
        fallback_values: None,
        fallback_generation: None,
        max_length: None,
        format: None,
        required: None,
    }
}

fn template(fields: Vec<TemplateField>) -> FormTemplate {
    FormTemplate {
        id: "test".to_string(),
        template_name: "Test Template".to_string(),
        url_pattern: "test.com".to_string(),
        fields,
    }
}

fn draws() -> GenerationDraws {
    GenerationDraws {
        this_year: 2025,
        month_index: 2,
        day: 5,
        adult_age: 30,
        future_month: 9,
        years_ahead: 3,
        three_digit: 123,
        income: 37999,
        ssn_area: 123,
        ssn_group: 45,
        ssn_serial: 6789,
        license_number: 123456789,
        pw_adjective: 0,
        pw_noun: 0,
        pw_number: 100,
        pw_symbol: 0,
    }
}

#[test]
fn test_profile_adapter_basic() {
    let profile_data = pairs(&[("firstName", "John"), ("lastName", "Doe")]);

    let field_mapping = FieldMapping {
        selectors: vec!["input[name='firstName']".to_string()],
        field_type: "text".to_string(),
        priority: "high".to_string(),
        profile_mappings: Some(vec!["firstName".to_string()]),
        fallback_values: Some(vec!["DefaultFirst".to_string()]),
        fallback_generation: None,
        max_length: Some(50),
        format: None,
        required: Some(true),
    };
    let fields = vec![TemplateField { name: "firstName".to_string(), rule: field_mapping }];

    let adapter = ProfileAdapter::new(profile_data, template(fields));
    assert_eq!(adapter.get_field_value("firstName"), Some("John".to_string()));
}

#[test]
fn test_fallback_generation() {
    let profile_data = pairs(&[("firstName", "John"), ("lastName", "Doe")]);

    let field_mapping = FieldMapping {
        selectors: vec!["input[name='fullName']".to_string()],
        field_type: "text".to_string(),
        priority: "high".to_string(),
        profile_mappings: Some(vec!["fullName".to_string()]),
        fallback_values: None,
        fallback_generation: Some("combine_first_last".to_string()),
        max_length: None,
        format: None,
        required: None,
    };
    let fields = vec![TemplateField { name: "fullName".to_string(), rule: field_mapping }];

    let adapter = ProfileAdapter::new(profile_data, template(fields));
    assert_eq!(adapter.get_field_value("fullName"), Some("John Doe".to_string()));
}

fn formatting_adapter() -> ProfileAdapter {
    ProfileAdapter::new(pairs(&[]), template(vec![]))
}

fn with_format(fmt: &str) -> FieldMapping {
    FieldMapping { format: Some(fmt.to_string()), ..plain_rule() }
}

#[test]
fn value_formats_match_their_rules() {
    let a = formatting_adapter();
    assert_eq!(a.format_value("Quest", &with_format("single_char_lowercase")), "q".to_string());
    assert_eq!(a.format_value("quest", &with_format("first_char_uppercase")), "Q".to_string());
    assert_eq!(
        a.format_value("Ab-9 X!", &with_format("alphanumeric_lowercase")),
        "ab9x".to_string()
    );
    assert_eq!(a.format_value("555-123-4567", &with_format("phone_us")), "(555) 123-4567");
    assert_eq!(a.format_value("1 555 123 4567", &with_format("phone_us")), "(555) 123-4567");
    assert_eq!(a.format_value("12345", &with_format("phone_us")), "12345");
    assert_eq!(a.format_value("bob", &with_format("email_format")), "bob@example.com");
    assert_eq!(a.format_value("bob@host.org", &with_format("email_format")), "bob@host.org");
    assert_eq!(a.format_value("site.org", &with_format("url")), "www.site.org");
    assert_eq!(a.format_value("https://x.org", &with_format("url")), "https://x.org");
    assert_eq!(a.format_value("www.x.org", &with_format("url")), "www.x.org");
    assert_eq!(a.format_value("7", &with_format("zero_padded")), "07");
    assert_eq!(a.format_value("123", &with_format("zero_padded")), "123");
    assert_eq!(a.format_value("seven", &with_format("zero_padded")), "seven");
    assert_eq!(a.format_value("99", &with_format("four_digit_year")), "2099");
    assert_eq!(a.format_value("1984", &with_format("four_digit_year")), "1984");
    assert_eq!(a.format_value("March", &with_format("month_abbrev")), "Mar");
    assert_eq!(a.format_value("05", &with_format("month_abbrev")), "May");
    assert_eq!(a.format_value("12", &with_format("month_abbrev")), "Dec");
    assert_eq!(a.format_value("Smarch", &with_format("month_abbrev")), "Smarch");
    assert_eq!(a.format_value("a1b2c3", &with_format("numeric")), "123");
    assert_eq!(a.format_value("42", &with_format("integer")), "42");
    assert_eq!(a.format_value("-17", &with_format("integer")), "-17");
    assert_eq!(a.format_value("+8", &with_format("integer")), "8");
    assert_eq!(a.format_value("forty", &with_format("integer")), "0");
    assert_eq!(a.format_value("anything", &with_format("unknown_format")), "anything");

    let mut cut = plain_rule();
    cut.max_length = Some(3);
    assert_eq!(a.format_value("abcdef", &cut), "abc");
}

#[test]
fn generation_rules_are_deterministic_given_the_draws() {
    let data = pairs(&[
        ("firstName", "John"),
        ("lastName", "Doe"),
        ("birthYear", "1990"),
        ("city", ""),
    ]);
    let a = ProfileAdapter::new(data, template(vec![]));
    let d = draws();

    assert_eq!(
        a.generate_value_with("combine_first_last", "fullName", &d),
        Some("John Doe".to_string())
    );
    assert_eq!(
        a.generate_value_with("generate_from_name", "email", &d),
        Some("john.doe@example.com".to_string())
    );
    assert_eq!(
        a.generate_value_with("generate_from_name", "username", &d),
        Some("johndoe".to_string())
    );
    assert_eq!(
        a.generate_value_with("generate_from_name", "website", &d),
        Some("www.johndoe.dev".to_string())
    );
    assert_eq!(
        a.generate_value_with("generate_from_name", "age", &d),
        None
    );
    assert_eq!(
        a.generate_value_with("use_full_name", "fullName", &d),
        Some("John Doe".to_string())
    );
    // the empty city value falls back to the default city
    assert_eq!(
        a.generate_value_with("use_city_state", "location", &d),
        Some("New York, NY".to_string())
    );
    assert_eq!(
        a.generate_value_with("calculate_from_birth_year", "age", &d),
        Some("35".to_string())
    );
    assert_eq!(a.generate_value_with("random_month", "m", &d), Some("Mar".to_string()));
    assert_eq!(a.generate_value_with("random_day", "d", &d), Some("05".to_string()));
    assert_eq!(a.generate_value_with("adult_birth_year", "y", &d), Some("1995".to_string()));
    assert_eq!(a.generate_value_with("future_month", "m", &d), Some("09".to_string()));
    assert_eq!(a.generate_value_with("future_year", "y", &d), Some("2028".to_string()));
    assert_eq!(a.generate_value_with("random_3_digit", "n", &d), Some("123".to_string()));
    assert_eq!(
        a.generate_value_with("generate_realistic_income", "income", &d),
        Some("37000".to_string())
    );
    assert_eq!(
        a.generate_value_with("generate_fake_ssn", "ssn", &d),
        Some("123-45-6789".to_string())
    );
    assert_eq!(
        a.generate_value_with("generate_license", "lic", &d),
        Some("D123456789".to_string())
    );
    assert_eq!(
        a.generate_value_with("generate_secure", "password", &d),
        Some("QuickLion100!".to_string())
    );
    assert_eq!(a.generate_value_with("no_such_rule", "x", &d), None);
}

#[test]
fn missing_names_fall_back_to_placeholders() {
    let a = ProfileAdapter::new(pairs(&[]), template(vec![]));
    let d = draws();
    assert_eq!(a.generate_value_with("combine_first_last", "fullName", &d), None);
    assert_eq!(
        a.generate_value_with("generate_from_name", "email", &d),
        Some("user.example@example.com".to_string())
    );
    assert_eq!(
        a.generate_value_with("use_full_name", "fullName", &d),
        Some("John Smith".to_string())
    );
    assert_eq!(
        a.generate_value_with("calculate_from_birth_year", "age", &d),
        Some("25".to_string())
    );
}

#[test]
fn generated_passwords_keep_their_shape() {
    let a = formatting_adapter();
    for _ in 0..10 {
        let p = a.generate_secure_password();
        assert!(p.len() >= 9);
        let last = p.chars().last().unwrap();
        assert!("!@#$%".contains(last));
    }
}

#[test]
fn fallback_values_are_used_last() {
    let rule = FieldMapping {
        profile_mappings: Some(vec!["nick".to_string()]),
        fallback_values: Some(vec!["Fallback".to_string()]),
        ..plain_rule()
    };
    let fields = vec![TemplateField { name: "nick".to_string(), rule }];
    let a = ProfileAdapter::new(pairs(&[("nick", "")]), template(fields));
    assert_eq!(a.get_field_value_with("nick", &draws()), Some("Fallback".to_string()));
    assert_eq!(a.get_field_value_with("unknown", &draws()), None);
}

#[test]
fn form_values_cover_every_declared_field() {
    let name_rule = FieldMapping {
        profile_mappings: Some(vec!["firstName".to_string()]),
        ..plain_rule()
    };
    let full_rule = FieldMapping {
        fallback_generation: Some("combine_first_last".to_string()),
        ..plain_rule()
    };
    let missing_rule = plain_rule();
    let fields = vec![
        TemplateField { name: "firstName".to_string(), rule: name_rule },
        TemplateField { name: "fullName".to_string(), rule: full_rule },
        TemplateField { name: "nothing".to_string(), rule: missing_rule },
    ];
    let data = pairs(&[("firstName", "John"), ("lastName", "Doe")]);
    let a = ProfileAdapter::new(data.clone(), template(fields));
    let values = a.get_form_values_with(&draws());
    assert_eq!(
        values,
        vec![
            ("firstName".to_string(), "John".to_string()),
            ("fullName".to_string(), "John Doe".to_string()),
        ]
    );
    let again = FieldMapping {
        profile_mappings: Some(vec!["firstName".to_string()]),
        ..plain_rule()
    };
    let fields = vec![TemplateField { name: "firstName".to_string(), rule: again }];
    let via_adapter = get_form_values_with_adapter(data, template(fields));
    assert_eq!(via_adapter, vec![("firstName".to_string(), "John".to_string())]);
}
