use azure_verify::arm::{
    ArmAccount, ArmAccountProperties, Deployment, DeploymentList, DiagnosticLog,
    DiagnosticProperties, DiagnosticSetting, DiagnosticSettingsList, RaiPolicy, TokenResponse,
};
use azure_verify::config::AzureVerifyConfig;
use azure_verify::error::{AzureHttpStatusError, TransportFailure, VerifyError};
use azure_verify::requests::{
    arm_account_url, arm_deployments_url, arm_policy_url, diagnostic_settings_url,
    entra_token_request,
};
use azure_verify::verification::{
    begin_verification, continue_verification, read_attempt, send_attempt, Action, Document,
    Progress, Reply, Step,
};

const ID: &str =
    "/subscriptions/sub/resourceGroups/rg/providers/Microsoft.CognitiveServices/accounts/acct";

fn config() -> AzureVerifyConfig {
    AzureVerifyConfig {
        endpoint: "https://acct.openai.azure.com/".to_owned(),
        tenant_id: "ten/ant".to_owned(),
        subscription_id: "s u b".to_owned(),
        resource_group: "rg".to_owned(),
        client_id: "client".to_owned(),
        client_secret: "secret".to_owned(),
        require_async_filter: true,
    }
}

fn token() -> Reply {
    Reply::Token(TokenResponse {
        access_token: "bearer".to_owned(),
    })
}

fn account(id: &str) -> Reply {
    Reply::Account(ArmAccount {
        id: id.to_owned(),
        kind: "OpenAI".to_owned(),
        properties: ArmAccountProperties {
            custom_sub_domain_name: Some("acct".to_owned()),
            endpoint: Some("https://acct.openai.azure.com/".to_owned()),
            rai_monitor_config: None,
            user_owned_storage: None,
        },
    })
}

fn diagnostics(category: &str) -> Reply {
    Reply::DiagnosticSettings(DiagnosticSettingsList {
        value: vec![DiagnosticSetting {
            properties: DiagnosticProperties {
                logs: vec![DiagnosticLog {
                    category: Some(category.to_owned()),
                    category_group: None,
                    enabled: true,
                }],
                workspace_id: None,
                storage_account_id: None,
                event_hub_authorization_rule_id: None,
                marketplace_partner_id: None,
            },
        }],
    })
}

fn deployments(policies: &[Option<&str>]) -> Reply {
    Reply::Deployments(DeploymentList {
        value: policies
            .iter()
            .map(|policy| Deployment {
                name: Some("d".to_owned()),
                rai_policy_name: policy.map(|policy| policy.to_owned()),
            })
            .collect(),
    })
}

fn policy(mode: &str) -> Reply {
    Reply::Policy(RaiPolicy {
        mode: Some(mode.to_owned()),
    })
}

fn run(config: &AzureVerifyConfig, replies: Vec<Reply>) -> Step {
    let mut step = begin_verification(config);
    for reply in replies {
        step = continue_verification(config, step.progress, reply);
    }
    step
}

fn error(step: Step) -> VerifyError {
    assert_eq!(step.progress, Progress::Finished);
    match step.action {
        Action::Fail(error) => error,
        other => panic!("{other:?}"),
    }
}

#[test]
fn requests_are_built_from_encoded_segments() {
    let config = config();
    let request = entra_token_request(&config);
    assert_eq!(
        request.url,
        "https://login.microsoftonline.com/ten%2Fant/oauth2/v2.0/token"
    );
    let form: Vec<(&str, &str)> = request
        .form
        .iter()
        .map(|(name, value)| (name.as_str(), value.as_str()))
        .collect();
    assert_eq!(
        form,
        vec![
            ("grant_type", "client_credentials"),
            ("client_id", "client"),
            ("client_secret", "secret"),
            ("scope", "https://management.azure.com/.default"),
        ]
    );
    assert_eq!(
        arm_account_url(&config, "acct"),
        "https://management.azure.com/subscriptions/s%20u%20b/resourceGroups/rg/providers/Microsoft.CognitiveServices/accounts/acct?api-version=2024-10-01"
    );
    assert_eq!(
        arm_deployments_url(&config, "acct"),
        "https://management.azure.com/subscriptions/s%20u%20b/resourceGroups/rg/providers/Microsoft.CognitiveServices/accounts/acct/deployments?api-version=2024-10-01"
    );
    assert_eq!(
        arm_policy_url(&config, "acct", "Microsoft.Default/V2"),
        "https://management.azure.com/subscriptions/s%20u%20b/resourceGroups/rg/providers/Microsoft.CognitiveServices/accounts/acct/raiPolicies/Microsoft.Default%2FV2?api-version=2024-10-01"
    );
    assert_eq!(
        diagnostic_settings_url("/a/b").unwrap(),
        "https://management.azure.com/a/b/providers/Microsoft.Insights/diagnosticSettings?api-version=2021-05-01-preview"
    );
    assert_eq!(diagnostic_settings_url("a/b"), None);
    assert_eq!(diagnostic_settings_url(""), None);
}

#[test]
fn verification_passes_when_every_check_passes() {
    let config = config();
    let step = begin_verification(&config);
    assert_eq!(step.action, Action::PostToken(entra_token_request(&config)));

    let get = |url: String, label: &'static str, document: Document| Action::Get {
        url,
        token: "bearer".to_owned(),
        label,
        document,
    };
    let step = continue_verification(&config, step.progress, token());
    assert_eq!(
        step.action,
        get(
            arm_account_url(&config, "acct"),
            "Azure Cognitive Services account",
            Document::Account
        )
    );
    let step = continue_verification(&config, step.progress, account(ID));
    assert_eq!(
        step.action,
        get(
            diagnostic_settings_url(ID).unwrap(),
            "Azure diagnostic settings",
            Document::DiagnosticSettings
        )
    );
    let step = continue_verification(&config, step.progress, diagnostics("New"));
    assert_eq!(step.warnings.len(), 1);
    assert_eq!(step.warnings[0].category, "New");
    assert_eq!(
        step.action,
        get(
            arm_deployments_url(&config, "acct"),
            "Azure deployments",
            Document::Deployments
        )
    );
    let step = continue_verification(
        &config,
        step.progress,
        deployments(&[Some("p"), Some("q"), Some("p")]),
    );
    assert!(step.warnings.is_empty());
    assert_eq!(
        step.action,
        get(
            arm_policy_url(&config, "acct", "p"),
            "Azure RAI policy",
            Document::Policy
        )
    );
    let step = continue_verification(&config, step.progress, policy("Deferred"));
    assert_eq!(
        step.action,
        get(
            arm_policy_url(&config, "acct", "q"),
            "Azure RAI policy",
            Document::Policy
        )
    );
    let step = continue_verification(&config, step.progress, policy("Asynchronous_filter"));
    assert_eq!(step.progress, Progress::Finished);
    match step.action {
        Action::Pass(report) => {
            assert_eq!(report.host, "acct.openai.azure.com");
            assert_eq!(report.resource_id, ID);
            assert_eq!(report.streaming.deployment_count, 3);
            assert!(report.streaming.synchronous.is_empty());
        }
        other => panic!("{other:?}"),
    }
}

#[test]
fn verification_passes_without_deployments() {
    let step = run(
        &config(),
        vec![token(), account(ID), diagnostics("Audit"), deployments(&[])],
    );
    assert!(matches!(step.action, Action::Pass(_)));
}

#[test]
fn refused_endpoint_asks_for_nothing() {
    let mut config = config();
    config.endpoint = "http://acct.openai.azure.com/".to_owned();
    assert_eq!(
        error(begin_verification(&config)).message(),
        "AZURE_OPENAI_ENDPOINT must use https"
    );
}

#[test]
fn blank_token_fails() {
    let blank = Reply::Token(TokenResponse {
        access_token: " ".to_owned(),
    });
    assert_eq!(
        error(run(&config(), vec![blank])),
        VerifyError::EmptyAccessToken
    );
}

#[test]
fn unbound_account_fails() {
    let mut config = config();
    config.endpoint = "https://other.openai.azure.com/".to_owned();
    assert!(matches!(
        error(run(&config, vec![token(), account(ID)])),
        VerifyError::Binding(_)
    ));
}

#[test]
fn relative_resource_id_fails() {
    assert_eq!(
        error(run(&config(), vec![token(), account("accounts/acct")])),
        VerifyError::RelativeResourceId {
            resource_id: "accounts/acct".to_owned()
        }
    );
}

#[test]
fn synchronous_deployment_fails_unless_waived() {
    let replies = || {
        vec![
            token(),
            account(ID),
            diagnostics("Audit"),
            deployments(&[Some("p"), None]),
            policy("Blocking"),
        ]
    };
    let mut config = config();
    assert_eq!(
        error(run(&config, replies())).message(),
        "Azure deployments must use asynchronous content filtering: d (policy p, mode Blocking) d (policy <none>, mode <none>)"
    );
    config.require_async_filter = false;
    match run(&config, replies()).action {
        Action::Pass(report) => assert_eq!(report.streaming.synchronous.len(), 2),
        other => panic!("{other:?}"),
    }
}

#[test]
fn failed_requests_fail_the_verification() {
    let good = || {
        vec![
            token(),
            account(ID),
            diagnostics("Audit"),
            deployments(&[Some("p")]),
        ]
    };
    let labels = [
        "Entra token",
        "Azure Cognitive Services account",
        "Azure diagnostic settings",
        "Azure deployments",
        "Azure RAI policy",
    ];
    for (n, label) in labels.iter().enumerate() {
        let mut replies: Vec<Reply> = good().into_iter().take(n).collect();
        replies.push(Reply::Refused {
            status: 503,
            body: "busy".to_owned(),
        });
        assert_eq!(
            error(run(&config(), replies)),
            VerifyError::HttpStatus(AzureHttpStatusError {
                label,
                status: 503,
                body: "busy".to_owned(),
            })
        );

        let failure = || TransportFailure {
            attempt: "GET x".to_owned(),
            causes: vec![],
        };
        let mut replies: Vec<Reply> = good().into_iter().take(n).collect();
        replies.push(Reply::Transport(failure()));
        assert_eq!(
            error(run(&config(), replies)),
            VerifyError::Transport(failure())
        );
    }
}

#[test]
fn replies_out_of_turn_fail() {
    assert_eq!(
        error(run(&config(), vec![account(ID)])),
        VerifyError::UnexpectedReply
    );
    assert_eq!(
        error(run(&config(), vec![token(), token()])),
        VerifyError::UnexpectedReply
    );
    let success = Reply::Refused {
        status: 204,
        body: String::new(),
    };
    assert_eq!(
        error(run(&config(), vec![success])),
        VerifyError::UnexpectedReply
    );
}

#[test]
fn failure_is_final() {
    let refused = Reply::Refused {
        status: 404,
        body: String::new(),
    };
    assert_eq!(
        error(run(&config(), vec![refused, token(), account(ID)])),
        VerifyError::UnexpectedReply
    );
}

#[test]
fn attempts_are_put_in_words() {
    let config = config();
    assert_eq!(
        send_attempt(&begin_verification(&config).action),
        Some("POST https://login.microsoftonline.com/ten%2Fant/oauth2/v2.0/token".to_owned())
    );
    assert_eq!(
        send_attempt(&run(&config, vec![token(), account("/a/b")]).action),
        Some("GET https://management.azure.com/a/b/providers/Microsoft.Insights/diagnosticSettings?api-version=2021-05-01-preview".to_owned())
    );
    assert_eq!(send_attempt(&Action::Fail(VerifyError::EmptyAccessToken)), None);
    assert_eq!(read_attempt("Entra token"), "parse Entra token response");
}
