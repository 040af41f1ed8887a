use azure_verify::config::{AzureVerifyConfig, PeriodicAzureVerifySettings};
use azure_verify::environment::{
    env_switch, env_u32_at_least, env_u64_at_least, required_env, AtLeast, EnvValue, EnvVar,
    Environment, SettingProblem,
};

fn environment(vars: &[(&str, &str)]) -> Environment {
    Environment {
        vars: vars
            .iter()
            .map(|(name, value)| EnvVar {
                name: (*name).to_owned(),
                value: EnvValue::Text((*value).to_owned()),
            })
            .collect(),
    }
}

fn unreadable(name: &str) -> Environment {
    Environment {
        vars: vec![EnvVar {
            name: name.to_owned(),
            value: EnvValue::NotUnicode("environment variable was not valid unicode: \"\\xFF\"".to_owned()),
        }],
    }
}

const COMPLETE: [(&str, &str); 6] = [
    ("AZURE_OPENAI_ENDPOINT", "https://acct.openai.azure.com/"),
    ("AZURE_TENANT_ID", "tenant"),
    ("AZURE_SUBSCRIPTION_ID", "sub"),
    ("AZURE_RESOURCE_GROUP", "rg"),
    ("AZURE_CLIENT_ID", "client"),
    ("AZURE_CLIENT_SECRET", " secret "),
];

#[test]
fn complete_configuration_is_read() {
    let config = AzureVerifyConfig::from_env(&environment(&COMPLETE)).unwrap();
    assert_eq!(
        config,
        AzureVerifyConfig {
            endpoint: "https://acct.openai.azure.com/".to_owned(),
            tenant_id: "tenant".to_owned(),
            subscription_id: "sub".to_owned(),
            resource_group: "rg".to_owned(),
            client_id: "client".to_owned(),
            client_secret: " secret ".to_owned(),
            require_async_filter: true,
        }
    );
}

#[test]
fn every_required_setting_is_required() {
    for missing in 0..COMPLETE.len() {
        let mut vars = COMPLETE.to_vec();
        let (name, _) = vars.remove(missing);
        let err = AzureVerifyConfig::from_env(&environment(&vars)).unwrap_err();
        assert_eq!(err.problem, SettingProblem::NotSet);
        assert_eq!(err.message(), format!("{name} must be set"));
        assert_eq!(
            err.detail(),
            format!("{name} must be set: environment variable not found")
        );

        let mut vars = COMPLETE.to_vec();
        vars[missing].1 = " \u{2003}\t";
        let err = AzureVerifyConfig::from_env(&environment(&vars)).unwrap_err();
        assert_eq!(err.problem, SettingProblem::Empty);
        assert_eq!(err.detail(), format!("{name} must not be empty"));
    }
}

#[test]
fn first_refused_setting_is_reported() {
    let err = AzureVerifyConfig::from_env(&environment(&[])).unwrap_err();
    assert_eq!(err.name, "AZURE_OPENAI_ENDPOINT");
}

#[test]
fn unreadable_required_setting_is_not_set() {
    let err = required_env(&unreadable("NAME"), "NAME").unwrap_err();
    assert_eq!(
        err.detail(),
        "NAME must be set: environment variable was not valid unicode: \"\\xFF\""
    );
}

#[test]
fn first_variable_of_a_name_counts() {
    let env = environment(&[("A", "1"), ("B", "2"), ("A", "3")]);
    assert_eq!(required_env(&env, "A").unwrap(), "1");
    assert_eq!(required_env(&env, "B").unwrap(), "2");
    assert!(env.var("C").is_none());
}

#[test]
fn asynchronous_filtering_is_waived_by_false_alone() {
    for (value, expected) in [("true", Ok(true)), ("false", Ok(false)), ("no", Err(()))] {
        let mut vars = COMPLETE.to_vec();
        vars.push(("GM_AZURE_REQUIRE_ASYNC_FILTER", value));
        let read = AzureVerifyConfig::from_env(&environment(&vars))
            .map(|config| config.require_async_filter)
            .map_err(|err| {
                assert_eq!(
                    err.detail(),
                    "GM_AZURE_REQUIRE_ASYNC_FILTER must be true or false"
                );
            });
        assert_eq!(read, expected);
    }
    assert_eq!(env_switch(&environment(&[]), "S", false), Ok(false));
    assert_eq!(
        env_switch(&unreadable("S"), "S", true).unwrap_err().problem,
        SettingProblem::Unreadable
    );
}

#[test]
fn periodic_settings_default() {
    let settings = PeriodicAzureVerifySettings::from_env(&environment(&[])).unwrap();
    assert_eq!(
        settings.interval_secs,
        AtLeast { value: 900, raised_from: None }
    );
    assert_eq!(
        settings.transient_failure_limit,
        AtLeast { value: 3, raised_from: None }
    );
}

#[test]
fn periodic_settings_are_held_to_their_minimum() {
    let settings = PeriodicAzureVerifySettings::from_env(&environment(&[
        ("GM_AZURE_VERIFY_INTERVAL_SECS", "59"),
        ("GM_AZURE_VERIFY_TRANSIENT_FAILURE_LIMIT", "0"),
    ]))
    .unwrap();
    assert_eq!(
        settings.interval_secs,
        AtLeast { value: 60, raised_from: Some(59) }
    );
    assert_eq!(
        settings.transient_failure_limit,
        AtLeast { value: 1, raised_from: Some(0) }
    );

    let settings = PeriodicAzureVerifySettings::from_env(&environment(&[
        ("GM_AZURE_VERIFY_INTERVAL_SECS", "+0060"),
        ("GM_AZURE_VERIFY_TRANSIENT_FAILURE_LIMIT", "4294967295"),
    ]))
    .unwrap();
    assert_eq!(
        settings.interval_secs,
        AtLeast { value: 60, raised_from: None }
    );
    assert_eq!(
        settings.transient_failure_limit,
        AtLeast { value: 4294967295, raised_from: None }
    );
}

#[test]
fn periodic_settings_report_the_interval_first() {
    let env = environment(&[
        ("GM_AZURE_VERIFY_TRANSIENT_FAILURE_LIMIT", "x"),
        ("GM_AZURE_VERIFY_INTERVAL_SECS", "y"),
    ]);
    let err = PeriodicAzureVerifySettings::from_env(&env).unwrap_err();
    assert_eq!(
        err.detail(),
        "GM_AZURE_VERIFY_INTERVAL_SECS must be an integer number of seconds: invalid digit found in string"
    );
}

#[test]
fn numbers_that_are_accepted() {
    for (text, expected) in [
        ("7", 7),
        ("+7", 7),
        ("007", 7),
        ("18446744073709551615", u64::MAX),
    ] {
        let env = environment(&[("N", text)]);
        assert_eq!(
            env_u64_at_least(&env, "N", 1, 0),
            Ok(AtLeast { value: expected, raised_from: None })
        );
    }
}

#[test]
fn numbers_that_are_refused() {
    for text in ["", "+", "-1", " 7", "7 ", "1_0", "0x7", "++7", "7.0", "\u{663}"] {
        let env = environment(&[("N", text)]);
        let err = env_u64_at_least(&env, "N", 1, 0).unwrap_err();
        assert_eq!(err.problem, SettingProblem::NotSeconds);
        let err = env_u32_at_least(&env, "N", 1, 0).unwrap_err();
        assert_eq!(err.problem, SettingProblem::NotPositiveInteger);
    }
    let env = environment(&[("N", "18446744073709551616")]);
    assert_eq!(
        env_u64_at_least(&env, "N", 1, 0).unwrap_err().detail(),
        "N must be an integer number of seconds: number too large to fit in target type"
    );
    let env = environment(&[("N", "4294967296")]);
    assert_eq!(
        env_u32_at_least(&env, "N", 1, 0).unwrap_err().detail(),
        "N must be a positive integer: number too large to fit in target type"
    );
    assert!(env_u64_at_least(&env, "N", 1, 0).is_ok());
}

#[test]
fn unreadable_numbers_are_refused() {
    let err = env_u64_at_least(&unreadable("N"), "N", 1, 0).unwrap_err();
    assert_eq!(
        err.detail(),
        "read N: environment variable was not valid unicode: \"\\xFF\""
    );
    assert_eq!(
        env_u32_at_least(&unreadable("N"), "N", 1, 0).unwrap_err().problem,
        SettingProblem::Unreadable
    );
}

#[test]
fn default_is_not_held_to_the_minimum() {
    assert_eq!(
        env_u64_at_least(&environment(&[]), "N", 5, 10),
        Ok(AtLeast { value: 5, raised_from: None })
    );
}
