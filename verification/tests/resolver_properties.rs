use env_extract::{
    default_index, enum_from_env, enum_value_or_default, resolve_raw, CaseRule, ConfigError,
    EnumResolver, EnvMap, FallbackPolicy, VariantSpec,
};

fn variant(name: &str) -> VariantSpec {
    VariantSpec { display_name: name.to_string(), case_rule: None, ignored: false }
}

fn cased_variant(name: &str, rule: CaseRule) -> VariantSpec {
    VariantSpec { display_name: name.to_string(), case_rule: Some(rule), ignored: false }
}

fn env_with(pairs: &[(&str, &str)]) -> EnvMap {
    let mut env = EnvMap::new();
    for (name, value) in pairs {
        env.set(name.to_string(), value.to_string());
    }
    env
}

#[test]
fn color_unset_resolves_to_declared_default() {
    let r = EnumResolver {
        var_name: "COLOR".to_string(),
        variants: vec![variant("Red"), variant("Green")],
        default_rule: None,
        fallback: FallbackPolicy::ReturnDefault(1),
    };
    assert_eq!(enum_from_env(&r, &EnvMap::new()), Ok(1));
    assert_eq!(enum_value_or_default(&r, &EnvMap::new()), 1);
}

#[test]
fn uppercase_rule_normalizes_the_variant_name() {
    let r = EnumResolver {
        var_name: "MODE".to_string(),
        variants: vec![cased_variant("Prod", CaseRule::Uppercase)],
        default_rule: None,
        fallback: FallbackPolicy::Fail,
    };
    assert_eq!(enum_from_env(&r, &env_with(&[("MODE", "PROD")])), Ok(0));
    // The raw value is never normalized: the variant name in its
    // declared casing no longer matches.
    assert!(enum_from_env(&r, &env_with(&[("MODE", "Prod")])).is_err());
}

#[test]
fn lowercase_rule_normalizes_the_variant_name() {
    let r = EnumResolver {
        var_name: "MODE".to_string(),
        variants: vec![cased_variant("Prod", CaseRule::Lowercase)],
        default_rule: None,
        fallback: FallbackPolicy::Fail,
    };
    assert_eq!(enum_from_env(&r, &env_with(&[("MODE", "prod")])), Ok(0));
    assert!(enum_from_env(&r, &env_with(&[("MODE", "PROD")])).is_err());
}

#[test]
fn exact_rule_rejects_other_casings() {
    let r = EnumResolver {
        var_name: "LEVEL".to_string(),
        variants: vec![variant("Warn")],
        default_rule: None,
        fallback: FallbackPolicy::Fail,
    };
    assert_eq!(enum_from_env(&r, &env_with(&[("LEVEL", "Warn")])), Ok(0));
    assert!(enum_from_env(&r, &env_with(&[("LEVEL", "warn")])).is_err());
    assert!(enum_from_env(&r, &env_with(&[("LEVEL", "WARN")])).is_err());
}

#[test]
fn fail_policy_error_names_variable_and_raw_value() {
    let r = EnumResolver {
        var_name: "MODE".to_string(),
        variants: vec![variant("Prod")],
        default_rule: None,
        fallback: FallbackPolicy::Fail,
    };
    let res = enum_from_env(&r, &env_with(&[("MODE", "staging")]));
    match res {
        Err(ConfigError::NoMatchingVariant { var_name, raw }) => {
            assert_eq!(var_name, "MODE");
            assert_eq!(raw, "staging");
        }
        other => panic!("expected a no-matching-variant error, got {:?}", other),
    }
}

#[test]
fn panic_policy_result_path_returns_an_error_value() {
    let r = EnumResolver {
        var_name: "MODE".to_string(),
        variants: vec![variant("Prod")],
        default_rule: None,
        fallback: FallbackPolicy::Panic,
    };
    let res = enum_from_env(&r, &env_with(&[("MODE", "staging")]));
    assert!(matches!(res, Err(ConfigError::NoMatchingVariant { .. })));
    assert_eq!(default_index(&r), None);
}

#[test]
fn variant_rule_overrides_enumeration_default_rule() {
    let r = EnumResolver {
        var_name: "MODE".to_string(),
        variants: vec![cased_variant("Prod", CaseRule::Exact)],
        default_rule: Some(CaseRule::Uppercase),
        fallback: FallbackPolicy::Fail,
    };
    assert_eq!(enum_from_env(&r, &env_with(&[("MODE", "Prod")])), Ok(0));
    assert!(enum_from_env(&r, &env_with(&[("MODE", "PROD")])).is_err());
}

#[test]
fn first_declared_fold_match_wins_on_duplicates() {
    let r = EnumResolver {
        var_name: "NAME".to_string(),
        variants: vec![
            cased_variant("Alpha", CaseRule::Fold),
            cased_variant("ALPHA", CaseRule::Fold),
        ],
        default_rule: None,
        fallback: FallbackPolicy::Fail,
    };
    assert_eq!(enum_from_env(&r, &env_with(&[("NAME", "aLpHa")])), Ok(0));
}

#[test]
fn ignored_variant_is_never_matched() {
    let r = EnumResolver {
        var_name: "KIND".to_string(),
        variants: vec![
            VariantSpec {
                display_name: "Hidden".to_string(),
                case_rule: None,
                ignored: true,
            },
            variant("Hidden"),
        ],
        default_rule: None,
        fallback: FallbackPolicy::Fail,
    };
    // The ignored first variant is skipped; the matchable duplicate wins.
    assert_eq!(enum_from_env(&r, &env_with(&[("KIND", "Hidden")])), Ok(1));
}

#[test]
fn marker_variant_is_excluded_from_matching() {
    let r = EnumResolver {
        var_name: "KIND".to_string(),
        variants: vec![variant("Real"), variant("Invalid")],
        default_rule: None,
        fallback: FallbackPolicy::ReturnMarker(1),
    };
    // A stored value equal to the marker's own name does not match it;
    // the marker comes back only as the fallback.
    assert_eq!(enum_from_env(&r, &env_with(&[("KIND", "Invalid")])), Ok(1));
    assert_eq!(enum_from_env(&r, &env_with(&[("KIND", "Real")])), Ok(0));
    assert_eq!(default_index(&r), Some(1));
}

#[test]
fn variant_literally_named_invalid_is_not_special() {
    let r = EnumResolver {
        var_name: "KIND".to_string(),
        variants: vec![variant("Real"), variant("Invalid")],
        default_rule: None,
        fallback: FallbackPolicy::Fail,
    };
    // Without a designated marker, the name "Invalid" is a variant like
    // any other and matches normally.
    assert_eq!(enum_from_env(&r, &env_with(&[("KIND", "Invalid")])), Ok(1));
}

#[test]
fn empty_variant_list_falls_back() {
    let r = EnumResolver {
        var_name: "EMPTY".to_string(),
        variants: vec![],
        default_rule: None,
        fallback: FallbackPolicy::Fail,
    };
    assert!(enum_from_env(&r, &env_with(&[("EMPTY", "anything")])).is_err());
}

#[test]
fn no_substring_or_prefix_matching() {
    let r = EnumResolver {
        var_name: "KIND".to_string(),
        variants: vec![variant("Prod")],
        default_rule: None,
        fallback: FallbackPolicy::Fail,
    };
    assert!(enum_from_env(&r, &env_with(&[("KIND", "Pro")])).is_err());
    assert!(enum_from_env(&r, &env_with(&[("KIND", "Production")])).is_err());
}

#[test]
fn resolve_raw_reports_missing_value() {
    let r = EnumResolver {
        var_name: "KIND".to_string(),
        variants: vec![variant("Prod")],
        default_rule: None,
        fallback: FallbackPolicy::Fail,
    };
    let res = resolve_raw(&r, None);
    assert!(matches!(res, Err(ConfigError::MissingVariable { ref name }) if name == "KIND"));
}

#[test]
fn resolver_for_ident_uppercases_the_identifier() {
    let r = EnumResolver::for_ident(
        "log_level",
        None,
        vec![variant("Error")],
        None,
        FallbackPolicy::Fail,
    );
    assert_eq!(r.var_name, "LOG_LEVEL");
    let r = EnumResolver::for_ident(
        "log_level",
        Some("CUSTOM_VAR".to_string()),
        vec![variant("Error")],
        None,
        FallbackPolicy::Fail,
    );
    assert_eq!(r.var_name, "CUSTOM_VAR");
}

#[test]
fn error_message_names_variable_and_value() {
    let r = EnumResolver {
        var_name: "MODE".to_string(),
        variants: vec![variant("Prod")],
        default_rule: None,
        fallback: FallbackPolicy::Fail,
    };
    let e = enum_from_env(&r, &env_with(&[("MODE", "staging")])).unwrap_err();
    assert_eq!(e.message(), "no variant of 'MODE' matches 'staging'");
    let e = enum_from_env(&r, &EnvMap::new()).unwrap_err();
    assert_eq!(e.message(), "no environment variable or default value found for 'MODE'");
}

#[test]
fn later_set_shadows_earlier_entry() {
    let mut env = EnvMap::new();
    env.set("NAME".to_string(), "first".to_string());
    env.set("NAME".to_string(), "second".to_string());
    assert_eq!(env.get(&"NAME".to_string()), Some("second".to_string()));
    assert_eq!(env.get(&"OTHER".to_string()), None);
}
