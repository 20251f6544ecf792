use gobai::settings::{
    choose_config_path, config_override, discover_with, Discovery, settings_from_extracted, validate,
    validate_with, ConfirmLevel, MinorPolicy, Settings, SettingsError, ValidationError,
    FloatTexts, WorktreeCleanup, CONFIG_FILENAME, DEFAULT_WARN_AT_RATIO_BITS, RATIO_MAX_BITS, RATIO_MIN_BITS,
};

/// Finds the settings file as the application does: the library decides,
/// and the candidate's existence is read from the disk.
fn find(env_value: Option<String>, config_dir: Option<&str>) -> Option<String> {
    let discovery = discover_with(env_value, config_dir);
    let exists = match &discovery {
        Discovery::CheckExists(candidate) => std::path::Path::new(candidate).exists(),
        Discovery::Found(_) => false,
    };
    discovery.resolve(exists)
}

#[test]
fn env_var_overrides_everything_even_if_path_does_not_exist() {
    let result = find(Some("/tmp/nonexistent.toml".to_string()), None);
    assert_eq!(result, Some("/tmp/nonexistent.toml".to_string()));
}

#[test]
fn empty_env_var_treated_as_unset() {
    let result = find(None, None);
    assert_eq!(result, None);
}

#[test]
fn returns_none_when_app_config_file_missing() {
    // An existing directory without a config.toml in it.
    let result = find(None, Some("/"));
    assert_eq!(result, None);
}

#[test]
fn env_var_wins_over_existing_config_dir() {
    let result = find(Some("/etc/custom.toml".to_string()), Some("/"));
    assert_eq!(result, Some("/etc/custom.toml".to_string()));
}

#[test]
fn discovery_asks_about_config_file_in_dir() {
    assert_eq!(
        discover_with(None, Some("/home/u/.config/gobai")),
        Discovery::CheckExists("/home/u/.config/gobai/config.toml".to_string())
    );
    assert_eq!(
        discover_with(None, Some("/home/u/.config/gobai/")),
        Discovery::CheckExists("/home/u/.config/gobai/config.toml".to_string())
    );
    assert_eq!(
        discover_with(Some("x.toml".to_string()), Some("/d")),
        Discovery::Found(Some("x.toml".to_string()))
    );
    assert_eq!(discover_with(None, None), Discovery::Found(None));
}

#[test]
fn discovery_resolves_by_existence() {
    let c = Discovery::CheckExists("/d/config.toml".to_string());
    assert_eq!(c.clone().resolve(true), Some("/d/config.toml".to_string()));
    assert_eq!(c.resolve(false), None);
    assert_eq!(Discovery::Found(None).resolve(true), None);
    assert_eq!(
        Discovery::Found(Some("a".to_string())).resolve(false),
        Some("a".to_string())
    );
}

#[test]
fn choose_config_path_prefers_env_then_existing_candidate() {
    assert_eq!(
        choose_config_path(Some("a.toml".to_string()), Some("b.toml".to_string()), true),
        Some("a.toml".to_string())
    );
    assert_eq!(
        choose_config_path(None, Some("b.toml".to_string()), true),
        Some("b.toml".to_string())
    );
    assert_eq!(choose_config_path(None, Some("b.toml".to_string()), false), None);
    assert_eq!(choose_config_path(None, None, true), None);
}

#[test]
fn config_override_drops_empty_value() {
    assert_eq!(config_override(Some(String::new())), None);
    assert_eq!(config_override(None), None);
    assert_eq!(
        config_override(Some("/x/config.toml".to_string())),
        Some("/x/config.toml".to_string())
    );
    assert_eq!(CONFIG_FILENAME, "config.toml");
}

#[test]
fn default_root_enums_match_spec() {
    let s = Settings::default();
    assert_eq!(s.confirm_level, ConfirmLevel::Normal);
    assert_eq!(s.minor_policy, MinorPolicy::RecordAndContinue);
}

#[test]
fn default_loop_caps_match_adr_003() {
    let l = Settings::default().loop_;
    assert_eq!(l.design_max, 3);
    assert_eq!(l.impl_max, 3);
    assert_eq!(l.cli_failure_max, 2);
    assert_eq!(l.extension_step, 2);
}

#[test]
fn default_cost_caps_match_adr_003() {
    let c = Settings::default().cost;
    assert_eq!(c.max_api_calls_per_task, 60);
    assert_eq!(c.max_tokens_per_task, 1_500_000);
    assert!((f32::from_bits(c.warn_at_ratio_bits) - 0.8_f32).abs() < f32::EPSILON);
}

#[test]
fn default_warn_ratio_bits_are_those_of_point_eight() {
    assert_eq!(DEFAULT_WARN_AT_RATIO_BITS, 0.8_f32.to_bits());
    assert_eq!(RATIO_MIN_BITS, 0.0_f64.to_bits());
    assert_eq!(RATIO_MAX_BITS, 1.0_f64.to_bits());
}

#[test]
fn default_worktree_matches_adr_002() {
    let w = Settings::default().worktree;
    assert_eq!(w.cleanup_on_done, WorktreeCleanup::Keep);
    assert_eq!(w.cleanup_on_abort, WorktreeCleanup::Keep);
    assert_eq!(w.base_ref, "main");
    assert!(w.prune_orphans_on_startup);
}

#[test]
fn default_agent_is_all_none_except_paths() {
    let a = Settings::default().agent;
    assert_eq!(a.codex_model, None);
    assert_eq!(a.claude_model, None);
    assert_eq!(a.timeout_secs, None);
    assert_eq!(a.retries, None);
    assert!(a.include_extra_summary_paths.is_empty());
}

#[test]
fn default_log_redaction_includes_aws_gcp_github_bearer() {
    let patterns = Settings::default().log.redaction_patterns;
    assert!(patterns.iter().any(|p| p == "AWS_*"));
    assert!(patterns.iter().any(|p| p == "GCP_*"));
    assert!(patterns.iter().any(|p| p == "GITHUB_TOKEN"));
    assert!(patterns.iter().any(|p| p == "Bearer .*"));
}

#[test]
fn default_log_size_limits_match_nfr_8() {
    let l = Settings::default().log;
    assert_eq!(l.task_size_limit_mb, 100);
    assert_eq!(l.global_soft_limit_gb, 5);
}

#[test]
fn default_ui_is_all_none() {
    let u = Settings::default().ui;
    assert_eq!(u.theme, None);
    assert_eq!(u.language, None);
    assert_eq!(u.notifications, None);
}

#[test]
fn validate_accepts_defaults() {
    assert!(validate(&Settings::default()).is_ok());
}

#[test]
fn validate_rejects_zero_design_max() {
    let mut s = Settings::default();
    s.loop_.design_max = 0;
    let errs = validate(&s).unwrap_err();
    assert!(errs.iter().any(|e| matches!(
        e,
        ValidationError::NonPositive { field, .. } if *field == "loop.design_max"
    )));
}

#[test]
fn validate_rejects_warn_at_ratio_above_one() {
    let mut s = Settings::default();
    s.cost.warn_at_ratio_bits = 1.5_f32.to_bits();
    let errs = validate(&s).unwrap_err();
    assert!(errs.iter().any(|e| matches!(
        e,
        ValidationError::OutOfRange { field, .. } if *field == "cost.warn_at_ratio"
    )));
}

#[test]
fn validate_rejects_warn_at_ratio_negative() {
    let mut s = Settings::default();
    s.cost.warn_at_ratio_bits = (-0.1_f32).to_bits();
    let errs = validate(&s).unwrap_err();
    assert!(errs.iter().any(|e| matches!(
        e,
        ValidationError::OutOfRange { field, .. } if *field == "cost.warn_at_ratio"
    )));
}

#[test]
fn validate_rejects_invalid_regex() {
    let mut s = Settings::default();
    s.log.redaction_patterns = vec!["[invalid".to_string()];
    let errs = validate(&s).unwrap_err();
    assert!(matches!(
        errs.first(),
        Some(ValidationError::InvalidRegex { field, index: 0, .. })
            if *field == "log.redaction_patterns"
    ));
}

#[test]
fn validate_collects_multiple_errors() {
    let mut s = Settings::default();
    s.loop_.design_max = 0;
    s.cost.warn_at_ratio_bits = 2.0_f32.to_bits();
    let errs = validate(&s).unwrap_err();
    assert_eq!(errs.len(), 2);
}

#[test]
fn validate_skips_unset_optional_timeout() {
    let mut s = Settings::default();
    s.agent.timeout_secs = None;
    assert!(validate(&s).is_ok());
    s.agent.timeout_secs = Some(0);
    assert!(validate(&s).is_err());
}

#[test]
fn warn_ratio_range_matches_float_comparison() {
    let samples: Vec<f32> = vec![
        0.0, -0.0, 0.5, 1.0, 0.8, 1.0000001, -0.1, 2.0, -1.0e-45, 1.0e-45,
        f32::INFINITY, f32::NEG_INFINITY, f32::NAN, -f32::NAN, f32::MAX, f32::MIN,
    ];
    for ratio in samples {
        let mut s = Settings::default();
        s.cost.warn_at_ratio_bits = ratio.to_bits();
        let expected_ok = (0.0..=1.0).contains(&ratio) && !ratio.is_nan();
        assert_eq!(validate(&s).is_ok(), expected_ok, "ratio {ratio}");
    }
}

#[test]
fn validate_reports_every_zero_limit_in_order() {
    let mut s = Settings::default();
    s.loop_.design_max = 0;
    s.loop_.impl_max = 0;
    s.loop_.cli_failure_max = 0;
    s.loop_.extension_step = 0;
    s.cost.max_api_calls_per_task = 0;
    s.log.task_size_limit_mb = 0;
    s.log.global_soft_limit_gb = 0;
    s.cost.max_tokens_per_task = 0;
    s.agent.timeout_secs = Some(0);
    let errs = validate(&s).unwrap_err();
    let fields: Vec<&str> = errs
        .iter()
        .map(|e| match e {
            ValidationError::NonPositive { field, value } => {
                assert_eq!(value, "0");
                *field
            }
            other => panic!("unexpected {other:?}"),
        })
        .collect();
    assert_eq!(
        fields,
        vec![
            "loop.design_max",
            "loop.impl_max",
            "loop.cli_failure_max",
            "loop.extension_step",
            "cost.max_api_calls_per_task",
            "log.task_size_limit_mb",
            "log.global_soft_limit_gb",
            "cost.max_tokens_per_task",
            "agent.timeout_secs",
        ]
    );
}

#[test]
fn out_of_range_error_carries_value_and_bounds() {
    let mut s = Settings::default();
    s.cost.warn_at_ratio_bits = 1.5_f32.to_bits();
    let errs = validate(&s).unwrap_err();
    assert_eq!(
        errs,
        vec![ValidationError::OutOfRange {
            field: "cost.warn_at_ratio",
            value_bits: 1.5_f32.to_bits(),
            min_bits: 0.0_f64.to_bits(),
            max_bits: 1.0_f64.to_bits(),
        }]
    );
}

#[test]
fn invalid_regex_error_names_pattern_and_reason() {
    let mut s = Settings::default();
    s.log.redaction_patterns = vec!["ok".to_string(), "(".to_string(), "[x".to_string()];
    let errs = validate(&s).unwrap_err();
    assert_eq!(errs.len(), 2);
    match (&errs[0], &errs[1]) {
        (
            ValidationError::InvalidRegex { index: 1, pattern: p1, reason: r1, .. },
            ValidationError::InvalidRegex { index: 2, pattern: p2, reason: r2, .. },
        ) => {
            assert_eq!(p1, "(");
            assert_eq!(p2, "[x");
            assert_eq!(r1, &regex::Regex::new("(").unwrap_err().to_string());
            assert_eq!(r2, &regex::Regex::new("[x").unwrap_err().to_string());
        }
        other => panic!("unexpected {other:?}"),
    }
}

#[test]
fn validate_with_uses_given_compile_results() {
    let s = Settings::default();
    let results = vec![None, Some("bad".to_string()), None, None];
    let errs = validate_with(&s, &results).unwrap_err();
    assert_eq!(
        errs,
        vec![ValidationError::InvalidRegex {
            field: "log.redaction_patterns",
            index: 1,
            pattern: "GCP_*".to_string(),
            reason: "bad".to_string(),
        }]
    );
    assert!(validate_with(&s, &vec![None, None, None, None]).is_ok());
}

#[test]
fn load_settings_returns_validation_error_for_bad_values() {
    let mut s = Settings::default();
    s.loop_.design_max = 0;
    match settings_from_extracted(Ok(s)) {
        Err(SettingsError::Validation(errs)) => {
            assert!(errs.iter().any(|e| matches!(
                e,
                ValidationError::NonPositive { field, .. } if *field == "loop.design_max"
            )));
        }
        other => panic!("expected Validation error, got {other:?}"),
    }
}

#[test]
fn settings_from_extracted_passes_valid_settings_and_load_errors() {
    let s = settings_from_extracted(Ok(Settings::default())).unwrap();
    assert_eq!(s.confirm_level, ConfirmLevel::Normal);
    let err = figment::Error::from("missing field".to_string());
    match settings_from_extracted(Err(err)) {
        Err(SettingsError::Load(e)) => assert!(e.to_string().contains("missing field")),
        other => panic!("expected Load error, got {other:?}"),
    }
}

#[test]
fn from_figment_error_is_load_error() {
    let e: SettingsError = figment::Error::from("x".to_string()).into();
    assert!(matches!(e, SettingsError::Load(_)));
}

#[test]
fn validation_error_messages() {
    let e = ValidationError::NonPositive { field: "loop.design_max", value: "0".to_string() };
    assert_eq!(e.message("", "", ""), "loop.design_max は正の値である必要があります (現在: 0)");
    let e = ValidationError::OutOfRange {
        field: "cost.warn_at_ratio",
        value_bits: 1.5_f32.to_bits(),
        min_bits: 0.0_f64.to_bits(),
        max_bits: 1.0_f64.to_bits(),
    };
    let (v, lo, hi) = (1.5_f32.to_string(), 0.0_f64.to_string(), 1.0_f64.to_string());
    assert_eq!(
        e.message(&v, &lo, &hi),
        "cost.warn_at_ratio は 0 以上 1 以下である必要があります (現在: 1.5)"
    );
    let e = ValidationError::InvalidRegex {
        field: "log.redaction_patterns",
        index: 12,
        pattern: "[x".to_string(),
        reason: "bad".to_string(),
    };
    assert_eq!(
        e.message("", "", ""),
        "log.redaction_patterns[12] の正規表現がコンパイルできません (\"[x\"): bad"
    );
}

#[test]
fn settings_error_load_message() {
    let e = SettingsError::Load(figment::Error::from("bad toml".to_string()));
    let expected = format!(
        "設定ファイルの読み込みに失敗しました: {}",
        figment::Error::from("bad toml".to_string())
    );
    assert_eq!(e.message(&Vec::new()), expected);
}

#[test]
fn settings_error_validation_message_lists_every_problem() {
    let errs = vec![
        ValidationError::NonPositive { field: "loop.design_max", value: "0".to_string() },
        ValidationError::OutOfRange {
            field: "cost.warn_at_ratio",
            value_bits: 2.0_f32.to_bits(),
            min_bits: 0.0_f64.to_bits(),
            max_bits: 1.0_f64.to_bits(),
        },
    ];
    let texts = vec![
        FloatTexts { value: String::new(), min: String::new(), max: String::new() },
        FloatTexts { value: "2".to_string(), min: "0".to_string(), max: "1".to_string() },
    ];
    assert_eq!(
        SettingsError::Validation(errs).message(&texts),
        "設定値が不正です:\n  - loop.design_max は正の値である必要があります (現在: 0)\n  - cost.warn_at_ratio は 0 以上 1 以下である必要があります (現在: 2)\n"
    );
}
