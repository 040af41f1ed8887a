use azure_verify::endpoint::{
    endpoint_from_url, host_allowed_by_suffix, parse_azure_openai_endpoint, validate_dns_host,
    EndpointError, InvalidHost,
};
use azure_verify::web_url::UrlParts;

#[test]
fn azure_verify_base_url_allowlist_accepts_azure_openai_suffixes() {
    for endpoint in [
        "https://acct.openai.azure.com/",
        "https://acct.services.ai.azure.com",
        "https://acct.cognitiveservices.azure.com/openai",
    ] {
        assert!(
            parse_azure_openai_endpoint(endpoint).is_ok(),
            "{endpoint} should be accepted"
        );
    }
}

#[test]
fn azure_verify_base_url_allowlist_rejects_non_https_userinfo_and_bad_suffix() {
    for endpoint in [
        "http://acct.openai.azure.com",
        "acct.openai.azure.com",
        "https://user@acct.openai.azure.com",
        "https://acct.openai.azure.com.evil.example",
        "https://api.evil.example",
    ] {
        assert!(
            parse_azure_openai_endpoint(endpoint).is_err(),
            "{endpoint} should be rejected"
        );
    }
}

#[test]
fn endpoint_base_url_allowlist_accepts_azure_openai_suffixes() {
    for (endpoint, suffix) in [
        ("https://acct.openai.azure.com/", ".openai.azure.com"),
        ("https://acct.services.ai.azure.com", ".services.ai.azure.com"),
        (
            "https://acct.cognitiveservices.azure.com/openai",
            ".cognitiveservices.azure.com",
        ),
    ] {
        let parsed = parse_azure_openai_endpoint(endpoint);
        assert!(parsed.is_ok(), "{endpoint} should be accepted");
        let parsed = parsed.unwrap();
        assert_eq!(parsed.account_name, "acct");
        assert_eq!(parsed.suffix, suffix);
        assert_eq!(parsed.host, format!("acct{suffix}"));
    }
}

#[test]
fn endpoint_base_url_allowlist_rejects_non_https_userinfo_and_bad_suffix() {
    for endpoint in [
        "http://acct.openai.azure.com",
        "acct.openai.azure.com",
        "https://user@acct.openai.azure.com",
        "https://acct.openai.azure.com.evil.example",
        "https://api.evil.example",
    ] {
        assert!(
            parse_azure_openai_endpoint(endpoint).is_err(),
            "{endpoint} should be rejected"
        );
    }
}

#[test]
fn each_endpoint_error_has_its_input_and_words() {
    for (endpoint, words) in [
        (
            "acct.openai.azure.com",
            "parse AZURE_OPENAI_ENDPOINT \"acct.openai.azure.com\": relative URL without a base",
        ),
        (
            "http://acct.openai.azure.com",
            "AZURE_OPENAI_ENDPOINT must use https",
        ),
        (
            "https://user@acct.openai.azure.com",
            "AZURE_OPENAI_ENDPOINT must not contain userinfo",
        ),
        (
            "https://acct_x.openai.azure.com",
            "AZURE_OPENAI_ENDPOINT host must be a DNS host (got 'acct_x.openai.azure.com')",
        ),
        (
            "https://api.evil.example",
            "AZURE_OPENAI_ENDPOINT host 'api.evil.example' is not in the allowed suffix set: openai.azure.com, services.ai.azure.com, cognitiveservices.azure.com",
        ),
    ] {
        let err = parse_azure_openai_endpoint(endpoint).expect_err(words);
        assert_eq!(err.detail(), words);
    }
    let err = parse_azure_openai_endpoint("a\"b").expect_err("must fail");
    assert_eq!(err.message(), "parse AZURE_OPENAI_ENDPOINT \"a\\\"b\"");
}

#[test]
fn password_alone_is_userinfo() {
    assert_eq!(
        parse_azure_openai_endpoint("https://:secret@acct.openai.azure.com"),
        Err(EndpointError::Userinfo)
    );
}

#[test]
fn host_is_kept_in_lower_case() {
    let endpoint = parse_azure_openai_endpoint("https://ACCT.OpenAI.azure.com").unwrap();
    assert_eq!(endpoint.host, "acct.openai.azure.com");
    assert_eq!(endpoint.clone(), endpoint);
}

#[test]
fn suffix_alone_is_no_account() {
    let parts = |host: Option<&str>| {
        Ok(UrlParts {
            scheme: "https".to_owned(),
            username: String::new(),
            password: None,
            host: host.map(|host| host.to_owned()),
        })
    };
    assert_eq!(endpoint_from_url("x", &parts(None)), Err(EndpointError::NoHost));
    assert!(endpoint_from_url("x", &parts(Some(".openai.azure.com"))).is_err());
    let split = endpoint_from_url("x", &parts(Some("a.B.services.ai.azure.com"))).unwrap();
    assert_eq!(split.host, "a.b.services.ai.azure.com");
    assert_eq!(split.account_name, "a");
    assert_eq!(split.suffix, ".services.ai.azure.com");
    assert_eq!(
        endpoint_from_url("y", &Err("why".to_owned())),
        Err(EndpointError::Unparsable {
            endpoint: "y".to_owned(),
            reason: "why".to_owned(),
        })
    );
}

#[test]
fn dns_hosts() {
    for host in ["a", "a.b", "A-1.b-2.c", "-"] {
        assert_eq!(validate_dns_host("host", host), Ok(()));
    }
    for host in ["", ".", ".a", "a.", "a..b", "a_b", "a b", "[::1]", "\u{e4}.de"] {
        let err = validate_dns_host("the host", host).expect_err(host);
        assert_eq!(
            err,
            InvalidHost {
                label: "the host".to_owned(),
                host: host.to_owned()
            }
        );
        assert_eq!(
            err.message(),
            format!("the host must be a DNS host (got '{host}')")
        );
    }
}

#[test]
fn suffixes_need_something_before_them() {
    assert!(host_allowed_by_suffix("a.x", ".x"));
    assert!(!host_allowed_by_suffix(".x", ".x"));
    assert!(!host_allowed_by_suffix("x", ".x"));
    assert!(!host_allowed_by_suffix("a.xy", ".x"));
    assert!(host_allowed_by_suffix("\u{e4}.x", ".x"));
}

#[test]
fn case_of_scheme_and_host_is_without_effect() {
    let lower = parse_azure_openai_endpoint("https://acct.openai.azure.com/").unwrap();
    assert_eq!(lower.host, "acct.openai.azure.com");
    assert_eq!(
        parse_azure_openai_endpoint("HTTPS://Acct.OpenAI.Azure.com/"),
        Ok(lower)
    );
}

#[test]
fn case_of_a_parsed_host_is_without_effect() {
    let outcome = |host: &str| {
        endpoint_from_url(
            "",
            &Ok(UrlParts {
                scheme: "https".to_owned(),
                username: String::new(),
                password: None,
                host: Some(host.to_owned()),
            }),
        )
    };
    assert_eq!(outcome("ACCT.OpenAI.azure.com"), outcome("acct.openai.azure.com"));
    assert!(outcome("ACCT.OpenAI.azure.com").is_ok());
    assert_eq!(outcome("Api.Example"), outcome("api.example"));
    assert!(outcome("Api.Example").is_err());
}

#[test]
fn accepted_host_is_accepted_again() {
    for setting in [
        "https://Acct.openai.azure.com:8443/openai?x=1#y",
        "https://a.b.services.ai.azure.com",
        "https://acct.cognitiveservices.azure.com/",
    ] {
        let endpoint = parse_azure_openai_endpoint(setting).unwrap();
        for rest in ["/", "/path", "/?query", "/#fragment"] {
            let again = format!("https://{}{rest}", endpoint.host);
            assert_eq!(
                parse_azure_openai_endpoint(&again),
                Ok(endpoint.clone())
            );
        }
    }
}
