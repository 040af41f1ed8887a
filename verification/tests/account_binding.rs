use azure_verify::arm::{ArmAccount, ArmAccountProperties, JsonValue};
use azure_verify::checks::{
    assert_account_binding, binding_from_url, non_empty_json_value, BindingError,
};
use azure_verify::endpoint::{parse_azure_openai_endpoint, AzureEndpoint};
use azure_verify::web_url::UrlParts;
use serde_json::Value;

fn valid_endpoint() -> AzureEndpoint {
    parse_azure_openai_endpoint("https://acct.openai.azure.com/").expect("valid endpoint must parse")
}

fn json_value(value: &Value) -> JsonValue {
    match value {
        Value::Null => JsonValue::Null,
        Value::Bool(b) => JsonValue::Bool(*b),
        Value::Number(n) => JsonValue::Number(n.to_string()),
        Value::String(s) => JsonValue::Text(s.clone()),
        Value::Array(values) => JsonValue::Array(values.iter().map(json_value).collect()),
        Value::Object(fields) => JsonValue::Object(
            fields
                .iter()
                .map(|(name, value)| (name.clone(), json_value(value)))
                .collect(),
        ),
    }
}

fn optional_text(value: &Value) -> Option<String> {
    value.as_str().map(|text| text.to_owned())
}

fn optional_json(value: &Value) -> Option<JsonValue> {
    if value.is_null() {
        None
    } else {
        Some(json_value(value))
    }
}

fn account_from_json(json: &str) -> ArmAccount {
    let value: Value = serde_json::from_str(json).expect("fixture must parse");
    let properties = &value["properties"];
    ArmAccount {
        id: value["id"].as_str().expect("id").to_owned(),
        kind: value["kind"].as_str().expect("kind").to_owned(),
        properties: ArmAccountProperties {
            custom_sub_domain_name: optional_text(&properties["customSubDomainName"]),
            endpoint: optional_text(&properties["endpoint"]),
            rai_monitor_config: optional_json(&properties["raiMonitorConfig"]),
            user_owned_storage: optional_json(&properties["userOwnedStorage"]),
        },
    }
}

fn valid_account_json() -> &'static str {
    r#"{
        "id": "/subscriptions/sub/resourceGroups/rg/providers/Microsoft.CognitiveServices/accounts/acct",
        "kind": "OpenAI",
        "properties": {
            "customSubDomainName": "acct",
            "endpoint": "https://acct.openai.azure.com/",
            "raiMonitorConfig": null,
            "userOwnedStorage": []
        }
    }"#
}

fn content_storage_paths_are_rejected() {
    for properties in [
        r#""raiMonitorConfig": {"enabled": true}, "userOwnedStorage": []"#,
        r#""raiMonitorConfig": null, "userOwnedStorage": [{"id": "storage"}]"#,
        r#""raiMonitorConfig": null, "userOwnedStorage": {"id": "storage"}"#,
    ] {
        let json = format!(
            r#"{{
                "id": "/subscriptions/sub/resourceGroups/rg/providers/Microsoft.CognitiveServices/accounts/acct",
                "kind": "OpenAI",
                "properties": {{
                    "customSubDomainName": "acct",
                    "endpoint": "https://acct.openai.azure.com/",
                    {properties}
                }}
            }}"#
        );
        let endpoint = valid_endpoint();
        let account = account_from_json(&json);
        assert!(
            assert_account_binding(&endpoint, &account).is_err(),
            "{properties} must fail"
        );
    }
}

fn unallowed_kind_is_rejected() {
    let account = account_from_json(
        r#"{
            "id": "/subscriptions/sub/resourceGroups/rg/providers/Microsoft.CognitiveServices/accounts/acct",
            "kind": "CognitiveServices",
            "properties": {
                "customSubDomainName": "acct",
                "endpoint": "https://acct.openai.azure.com/"
            }
        }"#,
    );
    let err = assert_account_binding(&valid_endpoint(), &account)
        .expect_err("kind must fail")
        .message();
    assert!(
        err.contains("kind 'CognitiveServices' is not allowed"),
        "{err}"
    );
}

fn endpoint_host_mismatch_is_rejected() {
    let endpoint = parse_azure_openai_endpoint("https://other.openai.azure.com/")
        .expect("valid endpoint must parse");
    let account = account_from_json(valid_account_json());
    let err = assert_account_binding(&endpoint, &account)
        .expect_err("host mismatch must fail")
        .message();
    assert!(err.contains("does not match configured"), "{err}");
}

#[test]
fn azure_verify_account_binding_accepts_allowed_kind_matching_endpoint_and_no_storage() {
    let endpoint = valid_endpoint();
    let account = account_from_json(valid_account_json());
    assert!(assert_account_binding(&endpoint, &account).is_ok());
}

#[test]
fn azure_verify_account_binding_rejects_endpoint_host_mismatch() {
    let endpoint = parse_azure_openai_endpoint("https://other.openai.azure.com/")
        .expect("valid endpoint must parse");
    let account = account_from_json(valid_account_json());
    let err = assert_account_binding(&endpoint, &account)
        .expect_err("host mismatch must fail")
        .message();
    assert!(err.contains("does not match configured"), "{err}");
}

#[test]
fn azure_verify_account_binding_rejects_content_storage_paths() {
    for properties in [
        r#""raiMonitorConfig": {"enabled": true}, "userOwnedStorage": []"#,
        r#""raiMonitorConfig": null, "userOwnedStorage": [{"id": "storage"}]"#,
        r#""raiMonitorConfig": null, "userOwnedStorage": {"id": "storage"}"#,
    ] {
        let json = format!(
            r#"{{
                "id": "/subscriptions/sub/resourceGroups/rg/providers/Microsoft.CognitiveServices/accounts/acct",
                "kind": "OpenAI",
                "properties": {{
                    "customSubDomainName": "acct",
                    "endpoint": "https://acct.openai.azure.com/",
                    {properties}
                }}
            }}"#
        );
        let endpoint = valid_endpoint();
        let account = account_from_json(&json);
        assert!(
            assert_account_binding(&endpoint, &account).is_err(),
            "{properties} must fail"
        );
    }
}

#[test]
fn azure_verify_account_binding_rejects_unallowed_kind() {
    let account = account_from_json(
        r#"{
            "id": "/subscriptions/sub/resourceGroups/rg/providers/Microsoft.CognitiveServices/accounts/acct",
            "kind": "CognitiveServices",
            "properties": {
                "customSubDomainName": "acct",
                "endpoint": "https://acct.openai.azure.com/"
            }
        }"#,
    );
    let err = assert_account_binding(&valid_endpoint(), &account)
        .expect_err("kind must fail")
        .message();
    assert!(
        err.contains("kind 'CognitiveServices' is not allowed"),
        "{err}"
    );
}

#[test]
fn checks_account_binding_accepts_allowed_kind_matching_endpoint_and_no_storage() {
    let endpoint = valid_endpoint();
    let account = account_from_json(valid_account_json());
    assert_eq!(
        assert_account_binding(&endpoint, &account),
        Ok("/subscriptions/sub/resourceGroups/rg/providers/Microsoft.CognitiveServices/accounts/acct")
    );
}

#[test]
fn account_binding_accepts_services_ai_suffix_matching_endpoint() {
    let endpoint = parse_azure_openai_endpoint("https://acct.services.ai.azure.com/")
        .expect("valid endpoint must parse");
    let account = account_from_json(
        r#"{
            "id": "/subscriptions/sub/resourceGroups/rg/providers/Microsoft.CognitiveServices/accounts/acct",
            "kind": "AIServices",
            "properties": {
                "customSubDomainName": "acct",
                "endpoint": "https://acct.services.ai.azure.com/",
                "raiMonitorConfig": null,
                "userOwnedStorage": []
            }
        }"#,
    );
    assert!(assert_account_binding(&endpoint, &account).is_ok());
}

#[test]
fn account_binding_rejects_custom_subdomain_mismatch() {
    let endpoint = valid_endpoint();
    let account = account_from_json(
        r#"{
            "id": "/subscriptions/sub/resourceGroups/rg/providers/Microsoft.CognitiveServices/accounts/acct",
            "kind": "OpenAI",
            "properties": {
                "customSubDomainName": "other",
                "endpoint": "https://acct.openai.azure.com/"
            }
        }"#,
    );
    let err = assert_account_binding(&endpoint, &account)
        .expect_err("custom subdomain mismatch must fail")
        .message();
    assert!(err.contains("customSubDomainName"), "{err}");
}

#[test]
fn checks_account_binding_rejects_endpoint_host_mismatch() {
    endpoint_host_mismatch_is_rejected();
}

#[test]
fn checks_account_binding_rejects_content_storage_paths() {
    content_storage_paths_are_rejected();
}

#[test]
fn checks_account_binding_rejects_unallowed_kind() {
    unallowed_kind_is_rejected();
}

fn account(change: impl FnOnce(&mut ArmAccount)) -> ArmAccount {
    let mut account = account_from_json(valid_account_json());
    change(&mut account);
    account
}

#[test]
fn each_binding_error_has_its_input_and_words() {
    let endpoint = valid_endpoint();
    let cases: Vec<(ArmAccount, &str)> = vec![
        (
            account(|a| a.kind = "openai".to_owned()),
            "Azure account kind 'openai' is not allowed; expected one of OpenAI, AIServices",
        ),
        (
            account(|a| a.properties.custom_sub_domain_name = None),
            "Azure account properties.customSubDomainName is missing",
        ),
        (
            account(|a| a.properties.custom_sub_domain_name = Some(" \u{3000}".to_owned())),
            "Azure account properties.customSubDomainName is empty",
        ),
        (
            account(|a| a.properties.custom_sub_domain_name = Some("Other".to_owned())),
            "Azure account properties.customSubDomainName 'other' does not match configured endpoint account label 'acct'",
        ),
        (
            account(|a| a.properties.endpoint = None),
            "Azure account properties.endpoint is missing",
        ),
        (
            account(|a| a.properties.endpoint = Some("acct".to_owned())),
            "parse Azure account endpoint \"acct\": relative URL without a base",
        ),
        (
            account(|a| a.properties.endpoint = Some("http://acct.openai.azure.com/".to_owned())),
            "Azure account properties.endpoint must use https",
        ),
        (
            account(|a| {
                a.properties.endpoint = Some("https://:pw@acct.openai.azure.com/".to_owned())
            }),
            "Azure account properties.endpoint must not contain userinfo",
        ),
        (
            account(|a| {
                a.properties.endpoint = Some("https://acct.services.ai.azure.com/".to_owned())
            }),
            "Azure account properties.endpoint host 'acct.services.ai.azure.com' did not match expected 'acct.openai.azure.com'",
        ),
        (
            account(|a| a.properties.rai_monitor_config = Some(JsonValue::Bool(false))),
            "Azure account properties.raiMonitorConfig must be null or absent",
        ),
        (
            account(|a| {
                a.properties.user_owned_storage = Some(JsonValue::Text("store".to_owned()))
            }),
            "Azure account properties.userOwnedStorage must be null, absent, or empty",
        ),
        (account(|a| a.id = "\t".to_owned()), "Azure account id is empty"),
    ];
    for (account, words) in cases {
        let err = assert_account_binding(&endpoint, &account).expect_err(words);
        assert_eq!(err.detail(), words);
    }
}

#[test]
fn subdomain_is_compared_trimmed_and_in_lower_case() {
    let account = account(|a| a.properties.custom_sub_domain_name = Some(" ACCT\n".to_owned()));
    assert!(assert_account_binding(&valid_endpoint(), &account).is_ok());
}

#[test]
fn kept_nulls_and_blank_storage_are_no_content_capture() {
    let account = account(|a| {
        a.properties.rai_monitor_config = Some(JsonValue::Null);
        a.properties.user_owned_storage = Some(JsonValue::Text("  ".to_owned()));
    });
    assert!(assert_account_binding(&valid_endpoint(), &account).is_ok());
}

#[test]
fn nested_host_is_not_the_account() {
    let endpoint = parse_azure_openai_endpoint("https://acct.sub.openai.azure.com/")
        .expect("valid endpoint must parse");
    let account = account(|_| ());
    assert_eq!(
        assert_account_binding(&endpoint, &account),
        Err(BindingError::HostMismatch {
            host: "acct.openai.azure.com".to_owned(),
            configured: "acct.sub.openai.azure.com".to_owned(),
        })
    );
    let err = assert_account_binding(&endpoint, &account).expect_err("must fail");
    assert_eq!(
        err.message(),
        "Azure account endpoint host 'acct.openai.azure.com' does not match configured AZURE_OPENAI_ENDPOINT host 'acct.sub.openai.azure.com'"
    );
}

#[test]
fn binding_reads_the_parsed_url() {
    let endpoint = valid_endpoint();
    let account = account(|_| ());
    let parts = |scheme: &str, host: Option<&str>| {
        Ok(UrlParts {
            scheme: scheme.to_owned(),
            username: String::new(),
            password: None,
            host: host.map(|host| host.to_owned()),
        })
    };
    assert_eq!(
        binding_from_url(&endpoint, &account, &parts("https", None)),
        Err(BindingError::EndpointNoHost)
    );
    assert!(
        binding_from_url(&endpoint, &account, &parts("https", Some("ACCT.OPENAI.AZURE.COM")))
            .is_ok()
    );
    assert_eq!(
        binding_from_url(&endpoint, &account, &Err("no".to_owned()))
            .expect_err("must fail")
            .detail(),
        "parse Azure account endpoint \"https://acct.openai.azure.com/\": no"
    );
}

#[test]
fn json_values_that_hold_something() {
    assert!(!non_empty_json_value(&JsonValue::Null));
    assert!(!non_empty_json_value(&JsonValue::Array(vec![])));
    assert!(non_empty_json_value(&JsonValue::Array(vec![JsonValue::Null])));
    assert!(!non_empty_json_value(&JsonValue::Object(vec![])));
    assert!(non_empty_json_value(&JsonValue::Object(vec![(
        "id".to_owned(),
        JsonValue::Null
    )])));
    assert!(!non_empty_json_value(&JsonValue::Text(" \t".to_owned())));
    assert!(non_empty_json_value(&JsonValue::Text("x".to_owned())));
    assert!(non_empty_json_value(&JsonValue::Bool(false)));
    assert!(non_empty_json_value(&JsonValue::Number("0".to_owned())));
}

#[test]
fn lower_case_is_ascii_only() {
    let account = account(|a| a.properties.custom_sub_domain_name = Some("\u{c4}CCT".to_owned()));
    assert_eq!(
        assert_account_binding(&valid_endpoint(), &account),
        Err(BindingError::SubdomainMismatch {
            subdomain: "\u{c4}cct".to_owned(),
            account_label: "acct".to_owned(),
        })
    );
}
