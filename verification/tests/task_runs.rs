use azure_verify::checks::BindingError;
use azure_verify::config::PeriodicAzureVerifySettings;
use azure_verify::environment::AtLeast;
use azure_verify::error::{AzureHttpStatusError, VerifyError};
use azure_verify::periodic::{Outcome, PeriodicAction};
use azure_verify::schedule::{begin_task, continue_task, TaskAction, TaskEvent, TaskProgress};

fn settings(interval_secs: u64, limit: u32) -> PeriodicAzureVerifySettings {
    PeriodicAzureVerifySettings {
        interval_secs: AtLeast {
            value: interval_secs,
            raised_from: None,
        },
        transient_failure_limit: AtLeast {
            value: limit,
            raised_from: None,
        },
    }
}

fn transient() -> Outcome {
    Err(VerifyError::HttpStatus(AzureHttpStatusError {
        label: "Entra token",
        status: 503,
        body: "busy".to_owned(),
    }))
}

fn definitive() -> Outcome {
    Err(VerifyError::Binding(BindingError::IdEmpty))
}

/// What the task does while its verifications have the given outcomes, until there are no more of
/// them or it returns.
fn actions(
    settings: &PeriodicAzureVerifySettings,
    outcomes: Vec<Outcome>,
    received: bool,
) -> Vec<TaskAction> {
    let mut done = Vec::new();
    let mut outcomes = outcomes.into_iter();
    let mut step = begin_task(settings);
    loop {
        let event = match &step.action {
            TaskAction::Sleep { .. } => TaskEvent::Slept,
            TaskAction::Verify => match outcomes.next() {
                Some(outcome) => TaskEvent::Verified(outcome),
                None => return done,
            },
            TaskAction::Send { .. } => TaskEvent::Sent { received },
            TaskAction::Return => {
                done.push(step.action);
                return done;
            }
        };
        done.push(step.action);
        step = continue_task(settings, step.progress, &event);
    }
}

const SLEEP: TaskAction = TaskAction::Sleep { secs: 900 };

#[test]
fn first_check_follows_a_sleep() {
    let settings = settings(900, 3);
    let step = begin_task(&settings);
    assert_eq!(step.action, SLEEP);
    assert_eq!(step.notice, None);
    let step = continue_task(&settings, step.progress, &TaskEvent::Slept);
    assert_eq!(step.action, TaskAction::Verify);
    assert_eq!(
        step.progress,
        TaskProgress::Verifying {
            transient_failures: 0
        }
    );
}

#[test]
fn task_sleeps_and_verifies_while_checks_pass() {
    assert_eq!(
        actions(&settings(900, 3), vec![Ok(()), Ok(())], true),
        vec![SLEEP, TaskAction::Verify, SLEEP, TaskAction::Verify, SLEEP]
    );
}

#[test]
fn definitive_failure_is_sent_once_and_the_task_returns() {
    for received in [true, false] {
        assert_eq!(
            actions(&settings(900, 3), vec![Ok(()), definitive(), Ok(())], received),
            vec![
                SLEEP,
                TaskAction::Verify,
                SLEEP,
                TaskAction::Verify,
                TaskAction::Send {
                    reason: "definitive Azure OpenAI owner-capture verification failure: Azure account id is empty".to_owned(),
                },
                TaskAction::Return,
            ]
        );
    }
}

#[test]
fn default_limit_tolerates_three_transient_failures() {
    let three = actions(
        &settings(900, 3),
        vec![transient(), transient(), transient()],
        true,
    );
    assert_eq!(three.last(), Some(&SLEEP));
    let four = actions(
        &settings(900, 3),
        vec![transient(), transient(), transient(), transient()],
        true,
    );
    assert_eq!(four.len(), 10);
    assert_eq!(
        four[8],
        TaskAction::Send {
            reason: "Azure OpenAI owner-capture verification had 4 consecutive transient failures (limit 3): Entra token request failed (503 Service Unavailable): busy".to_owned(),
        }
    );
    assert_eq!(four[9], TaskAction::Return);
}

#[test]
fn notices_say_what_an_outcome_means() {
    let settings = settings(60, 1);
    let step = continue_task(
        &settings,
        TaskProgress::Verifying {
            transient_failures: 0,
        },
        &TaskEvent::Verified(transient()),
    );
    assert_eq!(step.notice, Some(PeriodicAction::Tolerate { failures: 1 }));
    assert_eq!(
        step.progress,
        TaskProgress::Sleeping {
            transient_failures: 1
        }
    );
    assert_eq!(step.action, TaskAction::Sleep { secs: 60 });
    let step = continue_task(
        &settings,
        TaskProgress::Verifying {
            transient_failures: 1,
        },
        &TaskEvent::Verified(Ok(())),
    );
    assert_eq!(step.notice, Some(PeriodicAction::Recovered { after: 1 }));
}

#[test]
fn events_out_of_turn_lead_to_a_sleep() {
    let settings = settings(900, 3);
    for (progress, event) in [
        (
            TaskProgress::Sleeping {
                transient_failures: 2,
            },
            TaskEvent::Verified(definitive()),
        ),
        (
            TaskProgress::Verifying {
                transient_failures: 2,
            },
            TaskEvent::Slept,
        ),
        (
            TaskProgress::Verifying {
                transient_failures: 2,
            },
            TaskEvent::Sent { received: true },
        ),
    ] {
        let step = continue_task(&settings, progress, &event);
        assert_eq!(step.action, SLEEP);
        assert_eq!(
            step.progress,
            TaskProgress::Sleeping {
                transient_failures: 2
            }
        );
    }
}

#[test]
fn returned_task_stays_returned() {
    let settings = settings(900, 3);
    for event in [TaskEvent::Slept, TaskEvent::Verified(Ok(()))] {
        let step = continue_task(&settings, TaskProgress::Returned, &event);
        assert_eq!(step.action, TaskAction::Return);
        assert_eq!(step.progress, TaskProgress::Returned);
    }
}
