use azure_verify::checks::BindingError;
use azure_verify::error::{
    classify_verification_error, is_success_status, AzureHttpStatusError, Cause, ClientFailure,
    TransportFailure, VerificationFailureKind, VerifyError,
};

fn http(status: u16, body: &str) -> VerifyError {
    VerifyError::HttpStatus(AzureHttpStatusError {
        label: "Azure Cognitive Services account",
        status,
        body: body.to_owned(),
    })
}

#[test]
fn verification_error_classification_separates_transient_from_definitive() {
    let transient = VerifyError::HttpStatus(AzureHttpStatusError {
        label: "Azure Cognitive Services account",
        status: 503,
        body: "temporary outage".to_owned(),
    });
    assert_eq!(
        classify_verification_error(&transient),
        VerificationFailureKind::Transient
    );

    let definitive_status = VerifyError::HttpStatus(AzureHttpStatusError {
        label: "Azure Cognitive Services account",
        status: 403,
        body: "access denied".to_owned(),
    });
    assert_eq!(
        classify_verification_error(&definitive_status),
        VerificationFailureKind::Definitive
    );

    let definitive_policy = VerifyError::Binding(BindingError::RaiMonitorConfigured);
    assert_eq!(
        definitive_policy.message(),
        "Azure account properties.raiMonitorConfig must be null or absent"
    );
    assert_eq!(
        classify_verification_error(&definitive_policy),
        VerificationFailureKind::Definitive
    );
}

#[test]
fn statuses_that_may_pass() {
    for status in [408, 429, 500, 599] {
        assert_eq!(
            classify_verification_error(&http(status, "")),
            VerificationFailureKind::Transient
        );
    }
    for status in [300, 400, 401, 404, 407, 409, 428, 430, 499, 600] {
        assert_eq!(
            classify_verification_error(&http(status, "")),
            VerificationFailureKind::Definitive
        );
    }
}

#[test]
fn statuses_that_report_success() {
    assert!(is_success_status(200));
    assert!(is_success_status(299));
    assert!(!is_success_status(199));
    assert!(!is_success_status(300));
}

#[test]
fn status_is_written_with_its_reason() {
    assert_eq!(
        http(503, "temporary outage").message(),
        "Azure Cognitive Services account request failed (503 Service Unavailable): temporary outage"
    );
    assert_eq!(
        http(799, "?").detail(),
        "Azure Cognitive Services account request failed (799 <unknown status code>): ?"
    );
    assert_eq!(
        http(7, "?").detail(),
        "Azure Cognitive Services account request failed (invalid status code): ?"
    );
}

fn transport(clients: Vec<Option<ClientFailure>>) -> VerifyError {
    VerifyError::Transport(TransportFailure {
        attempt: "GET https://example".to_owned(),
        causes: clients
            .into_iter()
            .map(|client| Cause {
                text: "cause".to_owned(),
                client,
            })
            .collect(),
    })
}

const NOTHING: ClientFailure = ClientFailure {
    timeout: false,
    connect: false,
    request: false,
    decode: false,
    status: None,
};

#[test]
fn network_failures_may_pass() {
    for client in [
        ClientFailure { timeout: true, ..NOTHING },
        ClientFailure { connect: true, ..NOTHING },
        ClientFailure { request: true, ..NOTHING },
        ClientFailure { decode: true, ..NOTHING },
        ClientFailure { status: Some(502), ..NOTHING },
        ClientFailure { status: Some(429), ..NOTHING },
    ] {
        for error in [
            transport(vec![Some(client)]),
            transport(vec![None, Some(NOTHING), Some(client), None]),
        ] {
            assert_eq!(
                classify_verification_error(&error),
                VerificationFailureKind::Transient
            );
        }
    }
}

#[test]
fn other_transport_failures_are_definitive() {
    for error in [
        transport(vec![]),
        transport(vec![None]),
        transport(vec![Some(NOTHING)]),
        transport(vec![Some(ClientFailure { status: Some(404), ..NOTHING })]),
    ] {
        assert_eq!(
            classify_verification_error(&error),
            VerificationFailureKind::Definitive
        );
    }
}

#[test]
fn detail_lists_the_causes() {
    let error = transport(vec![None, None]);
    assert_eq!(error.message(), "GET https://example");
    assert_eq!(error.detail(), "GET https://example: cause: cause");
}

#[test]
fn remaining_errors_have_words_and_are_definitive() {
    for (error, words) in [
        (
            VerifyError::EmptyAccessToken,
            "Entra token response had an empty access_token",
        ),
        (
            VerifyError::RelativeResourceId {
                resource_id: "x/y".to_owned(),
            },
            "ARM resource id must start with '/': x/y",
        ),
        (
            VerifyError::UnexpectedReply,
            "reply does not answer the request",
        ),
    ] {
        assert_eq!(error.message(), words);
        assert_eq!(error.detail(), words);
        assert_eq!(
            classify_verification_error(&error),
            VerificationFailureKind::Definitive
        );
    }
}

#[test]
fn further_causes_without_client_failure_leave_the_kind() {
    let timeout = Some(ClientFailure { timeout: true, ..NOTHING });
    for client in [timeout, Some(NOTHING), None] {
        let kind = classify_verification_error(&transport(vec![client]));
        for error in [
            transport(vec![None, client]),
            transport(vec![client, None]),
            transport(vec![None, client, None]),
        ] {
            assert_eq!(classify_verification_error(&error), kind);
        }
    }
}
