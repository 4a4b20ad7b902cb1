use anybuild::base::{env_bool, env_int, env_str, is_blank, parse_environment_bool, BaseConfig};

fn env(pairs: &[(&str, &str)]) -> Vec<(String, String)> {
    pairs.iter().map(|(k, v)| (k.to_string(), v.to_string())).collect()
}

#[test]
fn boolean_spellings_are_recognised() {
    for (raw, expected) in [
        ("1", Some(true)),
        ("0", Some(false)),
        (" TRUE ", Some(true)),
        ("false", Some(false)),
        ("yes", Some(true)),
        ("off", Some(false)),
        ("enabled", None),
        ("", None),
    ] {
        assert_eq!(parse_environment_bool(raw), expected, "{raw:?}");
    }
}

#[test]
fn anybuild_variables_take_precedence_over_legacy_ones() {
    let e = env(&[("SHIPIT_NAME", "legacy"), ("ANYBUILD_NAME", "current")]);
    assert_eq!(env_str(&e, "name"), Some("current".to_owned()));
    let legacy = env(&[("SHIPIT_NAME", "legacy")]);
    assert_eq!(env_str(&legacy, "name"), Some("legacy".to_owned()));
    let empty = env(&[("ANYBUILD_NAME", "")]);
    assert_eq!(env_str(&empty, "name"), Some(String::new()));
    assert!(is_blank(&env_str(&empty, "name")));
    assert!(is_blank(&None));
}

#[test]
fn typed_overrides_report_malformed_values() {
    let e = env(&[("ANYBUILD_EDGEJS_ENABLE", "enabled"), ("ANYBUILD_PORT", "many")]);
    assert_eq!(
        env_bool(&e, "edgejs_enable"),
        Err("Invalid value for ANYBUILD_EDGEJS_ENABLE: \"enabled\"; expected a boolean (true/false, yes/no, on/off, or 1/0)".to_owned())
    );
    assert_eq!(
        env_int(&e, "port"),
        Err("Invalid value for ANYBUILD_PORT: \"many\"; expected an integer".to_owned())
    );
    assert_eq!(
        BaseConfig::from_env(&e),
        Err("Invalid value for ANYBUILD_PORT: \"many\"; expected an integer".to_owned())
    );
    let ok = env(&[("SHIPIT_PORT", " 3000 "), ("ANYBUILD_FLAG", "Y")]);
    assert_eq!(env_int(&ok, "port"), Ok(Some(3000)));
    assert_eq!(env_bool(&ok, "flag"), Ok(Some(true)));
    assert_eq!(env_bool(&ok, "other"), Ok(None));
}

#[test]
fn base_settings_default_and_overlay() {
    let base = BaseConfig::from_env(&env(&[])).unwrap();
    assert_eq!(base, BaseConfig::default());
    assert_eq!(base.port, Some(8080));
    let overlaid =
        BaseConfig::from_env(&env(&[("ANYBUILD_NAME", "api"), ("ANYBUILD_PORT", "9000")])).unwrap();
    assert_eq!(overlaid.name.as_deref(), Some("api"));
    assert_eq!(overlaid.port, Some(9000));
}

#[test]
fn variable_names_use_unicode_uppercase() {
    let e = env(&[("ANYBUILD_É", "yes"), ("SHIPIT_Ü", "legacy")]);
    assert_eq!(env_str(&e, "é"), Some("yes".to_owned()));
    assert_eq!(env_bool(&e, "é"), Ok(Some(true)));
    assert_eq!(env_str(&e, "ü"), Some("legacy".to_owned()));
}
