use azure_verify::arm::{
    DiagnosticLog, DiagnosticProperties, DiagnosticSetting, DiagnosticSettingsList,
};
use azure_verify::diagnostics::{
    diagnostic_log_is_allowed, warn_on_unexpected_diagnostic_logs, DiagnosticWarning,
};

fn known_logs() -> Vec<DiagnosticLog> {
    vec![
        DiagnosticLog {
            category: Some("Audit".to_owned()),
            category_group: None,
            enabled: true,
        },
        DiagnosticLog {
            category: Some("RequestResponse".to_owned()),
            category_group: None,
            enabled: true,
        },
        DiagnosticLog {
            category: None,
            category_group: Some("allLogs".to_owned()),
            enabled: true,
        },
        DiagnosticLog {
            category: None,
            category_group: Some("audit".to_owned()),
            enabled: true,
        },
    ]
}

#[test]
fn azure_verify_diagnostic_category_allowlist_accepts_known_metadata_logs() {
    for log in [
        DiagnosticLog {
            category: Some("Audit".to_owned()),
            category_group: None,
            enabled: true,
        },
        DiagnosticLog {
            category: Some("RequestResponse".to_owned()),
            category_group: None,
            enabled: true,
        },
        DiagnosticLog {
            category: None,
            category_group: Some("allLogs".to_owned()),
            enabled: true,
        },
        DiagnosticLog {
            category: None,
            category_group: Some("audit".to_owned()),
            enabled: true,
        },
    ] {
        assert!(diagnostic_log_is_allowed(&log));
    }
}

#[test]
fn azure_verify_diagnostic_category_allowlist_flags_unknown_enabled_logs() {
    let log = DiagnosticLog {
        category: Some("FutureContentLog".to_owned()),
        category_group: None,
        enabled: true,
    };
    assert!(!diagnostic_log_is_allowed(&log));
}

#[test]
fn checks_diagnostic_category_allowlist_accepts_known_metadata_logs() {
    for log in [
        DiagnosticLog {
            category: Some("Audit".to_owned()),
            category_group: None,
            enabled: true,
        },
        DiagnosticLog {
            category: Some("RequestResponse".to_owned()),
            category_group: None,
            enabled: true,
        },
        DiagnosticLog {
            category: None,
            category_group: Some("allLogs".to_owned()),
            enabled: true,
        },
        DiagnosticLog {
            category: None,
            category_group: Some("audit".to_owned()),
            enabled: true,
        },
    ] {
        assert!(diagnostic_log_is_allowed(&log));
    }
}

#[test]
fn checks_diagnostic_category_allowlist_flags_unknown_enabled_logs() {
    let log = DiagnosticLog {
        category: Some("FutureContentLog".to_owned()),
        category_group: None,
        enabled: true,
    };
    assert!(!diagnostic_log_is_allowed(&log));
}

fn log(category: Option<&str>, group: Option<&str>, enabled: bool) -> DiagnosticLog {
    DiagnosticLog {
        category: category.map(|c| c.to_owned()),
        category_group: group.map(|g| g.to_owned()),
        enabled,
    }
}

fn setting(logs: Vec<DiagnosticLog>, workspace: bool, hub: bool) -> DiagnosticSetting {
    DiagnosticSetting {
        properties: DiagnosticProperties {
            logs,
            workspace_id: workspace.then_some("w".to_owned()),
            storage_account_id: None,
            event_hub_authorization_rule_id: hub.then_some("h".to_owned()),
            marketplace_partner_id: None,
        },
    }
}

#[test]
fn category_or_group_suffices() {
    for category in ["Trace", "AzureOpenAIRequestUsage"] {
        assert!(diagnostic_log_is_allowed(&log(Some(category), None, true)));
    }
    assert!(diagnostic_log_is_allowed(&log(Some("New"), Some("audit"), true)));
    assert!(!diagnostic_log_is_allowed(&log(Some("audit"), Some("Audit"), true)));
    assert!(!diagnostic_log_is_allowed(&log(None, None, true)));
}

#[test]
fn destinations_are_counted() {
    assert_eq!(setting(vec![], false, false).properties.destination_count(), 0);
    assert_eq!(setting(vec![], true, false).properties.destination_count(), 1);
    let all = DiagnosticProperties {
        logs: vec![],
        workspace_id: Some(String::new()),
        storage_account_id: Some("s".to_owned()),
        event_hub_authorization_rule_id: Some("h".to_owned()),
        marketplace_partner_id: Some("m".to_owned()),
    };
    assert_eq!(all.destination_count(), 4);
}

#[test]
fn warnings_list_unknown_enabled_logs_in_order() {
    let settings = DiagnosticSettingsList {
        value: vec![
            setting(
                vec![
                    log(Some("Audit"), None, true),
                    log(Some("One"), None, true),
                    log(Some("Off"), None, false),
                    log(None, Some("two"), true),
                ],
                true,
                true,
            ),
            setting(vec![log(None, None, true)], false, false),
        ],
    };
    let warning = |category: &str, group: &str, destinations: usize| DiagnosticWarning {
        category: category.to_owned(),
        category_group: group.to_owned(),
        destinations,
    };
    assert_eq!(
        warn_on_unexpected_diagnostic_logs(&settings),
        vec![
            warning("One", "<none>", 2),
            warning("<none>", "two", 2),
            warning("<none>", "<none>", 0),
        ]
    );
}

#[test]
fn no_warning_where_every_enabled_log_is_known() {
    let settings = DiagnosticSettingsList {
        value: vec![
            setting(known_logs(), true, false),
            setting(vec![log(Some("Off"), None, false)], true, false),
        ],
    };
    assert!(warn_on_unexpected_diagnostic_logs(&settings).is_empty());
}
