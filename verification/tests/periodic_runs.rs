use azure_verify::checks::BindingError;
use azure_verify::error::{AzureHttpStatusError, VerifyError};
use azure_verify::periodic::{after_verification, Outcome, PeriodicAction};

fn transient() -> Outcome {
    Err(VerifyError::HttpStatus(AzureHttpStatusError {
        label: "Entra token",
        status: 503,
        body: "busy".to_owned(),
    }))
}

fn definitive() -> Outcome {
    Err(VerifyError::Binding(BindingError::IdEmpty))
}

fn stopped_at(limit: u32, outcomes: Vec<Outcome>) -> Option<usize> {
    let mut failures: u32 = 0;
    for (n, outcome) in outcomes.iter().enumerate() {
        let (next, action) = after_verification(failures, limit, outcome);
        failures = next;
        match action {
            PeriodicAction::StopOnDefinitive { .. } | PeriodicAction::StopOnTransient { .. } => {
                return Some(n);
            }
            _ => {}
        }
    }
    None
}

#[test]
fn success_is_healthy_or_a_recovery() {
    assert_eq!(after_verification(0, 3, &Ok(())), (0, PeriodicAction::Healthy));
    assert_eq!(
        after_verification(2, 3, &Ok(())),
        (0, PeriodicAction::Recovered { after: 2 })
    );
}

#[test]
fn transient_failures_are_tolerated_up_to_the_limit() {
    for count in 0..3 {
        assert_eq!(
            after_verification(count, 3, &transient()),
            (
                count + 1,
                PeriodicAction::Tolerate {
                    failures: count + 1
                }
            )
        );
    }
    assert_eq!(
        after_verification(3, 3, &transient()),
        (
            4,
            PeriodicAction::StopOnTransient {
                failures: 4,
                reason: "Azure OpenAI owner-capture verification had 4 consecutive transient failures (limit 3): Entra token request failed (503 Service Unavailable): busy".to_owned(),
            }
        )
    );
}

#[test]
fn limit_of_zero_tolerates_nothing() {
    let (failures, action) = after_verification(0, 0, &transient());
    assert_eq!(failures, 1);
    assert!(matches!(action, PeriodicAction::StopOnTransient { .. }));
}

#[test]
fn counter_saturates() {
    assert_eq!(
        after_verification(u32::MAX - 1, u32::MAX, &transient()),
        (u32::MAX, PeriodicAction::Tolerate { failures: u32::MAX })
    );
    let (failures, action) = after_verification(u32::MAX, u32::MAX, &transient());
    assert_eq!(failures, u32::MAX);
    assert!(matches!(action, PeriodicAction::StopOnTransient { .. }));
}

#[test]
fn definitive_failure_stops_at_once() {
    assert_eq!(
        after_verification(0, 3, &definitive()),
        (
            0,
            PeriodicAction::StopOnDefinitive {
                reason: "definitive Azure OpenAI owner-capture verification failure: Azure account id is empty".to_owned(),
            }
        )
    );
}

#[test]
fn runs_stop_above_the_limit_or_on_a_definitive_failure() {
    assert_eq!(
        stopped_at(3, vec![transient(), transient(), transient()]),
        None
    );
    assert_eq!(
        stopped_at(3, vec![transient(), transient(), transient(), transient()]),
        Some(3)
    );
    assert_eq!(
        stopped_at(
            3,
            vec![
                transient(),
                transient(),
                transient(),
                Ok(()),
                transient(),
                transient(),
                transient()
            ]
        ),
        None
    );
    assert_eq!(stopped_at(3, vec![Ok(()), transient(), definitive()]), Some(2));
    assert_eq!(stopped_at(1, vec![Ok(()), transient()]), None);
    assert_eq!(stopped_at(1, vec![Ok(()), transient(), transient()]), Some(2));
}

#[test]
fn successes_never_stop() {
    assert_eq!(stopped_at(1, vec![Ok(()), Ok(()), Ok(()), Ok(())]), None);
}
