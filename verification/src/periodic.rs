//! What the outcome of a repeated verification means for the service.
use vstd::prelude::*;

use crate::error::{
    classify_verification_error, error_detail, failure_kind, is_transient,
    VerificationFailureKind, VerifyError, VerifyErrorModel,
};
use crate::text::{joined, decimal, decimal_text};

verus! {

/// What is to be done after a verification.
#[derive(Debug, PartialEq, Eq)]
pub enum PeriodicAction {
    /// Nothing: the verification passed, as the one before it did.
    Healthy,
    /// Note that the verification passed after so many transient failures.
    Recovered { after: u32 },
    /// Warn of a transient failure, the latest of so many in a row.
    Tolerate { failures: u32 },
    /// Stop the service at once: the failure is definitive.
    StopOnDefinitive { reason: String },
    /// Stop the service: there were too many transient failures in a row.
    StopOnTransient { failures: u32, reason: String },
}

/// The mathematical model of [`PeriodicAction`].
pub enum PeriodicActionModel {
    Healthy,
    Recovered { after: int },
    Tolerate { failures: int },
    StopOnDefinitive { reason: Seq<char> },
    StopOnTransient { failures: int, reason: Seq<char> },
}

impl DeepView for PeriodicAction {
    type V = PeriodicActionModel;

    open spec fn deep_view(&self) -> PeriodicActionModel {
        match self {
            PeriodicAction::Healthy => PeriodicActionModel::Healthy,
            PeriodicAction::Recovered { after } => PeriodicActionModel::Recovered {
                after: *after as int,
            },
            PeriodicAction::Tolerate { failures } => PeriodicActionModel::Tolerate {
                failures: *failures as int,
            },
            PeriodicAction::StopOnDefinitive { reason } => PeriodicActionModel::StopOnDefinitive {
                reason: reason@,
            },
            PeriodicAction::StopOnTransient {
                failures,
                reason,
            } => PeriodicActionModel::StopOnTransient {
                failures: *failures as int,
                reason: reason@,
            },
        }
    }
}

impl PeriodicActionModel {
    /// Whether the service is stopped.
    pub open spec fn stops(self) -> bool {
        self is StopOnDefinitive || self is StopOnTransient
    }
}

/// The outcome of a verification.
pub type Outcome = Result<(), VerifyError>;

/// The mathematical model of an [`Outcome`].
pub type OutcomeModel = Result<(), VerifyErrorModel>;

/// The model of an outcome.
pub open spec fn outcome_model(outcome: Outcome) -> OutcomeModel {
    match outcome {
        Ok(()) => Ok(()),
        Err(error) => Err(error.deep_view()),
    }
}

/// The reason for a stop on a definitive failure.
pub open spec fn definitive_reason(error: VerifyErrorModel) -> Seq<char> {
    "definitive Azure OpenAI owner-capture verification failure: "@ + error_detail(error)
}

/// The reason for a stop on too many transient failures.
pub open spec fn transient_reason(failures: nat, limit: nat, error: VerifyErrorModel) -> Seq<char> {
    "Azure OpenAI owner-capture verification had "@ + decimal(failures)
        + " consecutive transient failures (limit "@ + decimal(limit) + "): "@ + error_detail(error)
}

/// One more transient failure, as far as the counter goes.
pub open spec fn one_more(failures: u32) -> u32 {
    if failures == u32::MAX {
        failures
    } else {
        (failures + 1) as u32
    }
}

/// What the outcome of a verification means, after so many transient failures in a row: the count
/// from now on, and what is to be done. As many transient failures in a row as the limit says are
/// tolerated; the one after them stops the service.
pub open spec fn periodic_outcome(
    transient_failures: u32,
    transient_failure_limit: u32,
    outcome: OutcomeModel,
) -> (u32, PeriodicActionModel) {
    match outcome {
        Ok(()) => if transient_failures > 0 {
            (0, PeriodicActionModel::Recovered { after: transient_failures as int })
        } else {
            (0, PeriodicActionModel::Healthy)
        },
        Err(error) => if !is_transient(error) {
            (
                transient_failures,
                PeriodicActionModel::StopOnDefinitive { reason: definitive_reason(error) },
            )
        } else {
            let failures = one_more(transient_failures);
            if transient_failures >= transient_failure_limit {
                (
                    failures,
                    PeriodicActionModel::StopOnTransient {
                        failures: failures as int,
                        reason: transient_reason(
                            failures as nat,
                            transient_failure_limit as nat,
                            error,
                        ),
                    },
                )
            } else {
                (failures, PeriodicActionModel::Tolerate { failures: failures as int })
            }
        },
    }
}

/// Decides what the outcome of a verification means for the service.
pub fn after_verification(
    transient_failures: u32,
    transient_failure_limit: u32,
    outcome: &Outcome,
) -> (res: (u32, PeriodicAction))
    ensures
        (res.0, res.1.deep_view()) == periodic_outcome(
            transient_failures,
            transient_failure_limit,
            outcome_model(*outcome),
        ),
{
    match outcome {
        Ok(()) => if transient_failures > 0 {
            (0, PeriodicAction::Recovered { after: transient_failures })
        } else {
            (0, PeriodicAction::Healthy)
        },
        Err(error) => match classify_verification_error(error) {
            VerificationFailureKind::Definitive => {
                let reason = joined(
                    "definitive Azure OpenAI owner-capture verification failure: ",
                    error.detail().as_str(),
                );
                (transient_failures, PeriodicAction::StopOnDefinitive { reason })
            },
            VerificationFailureKind::Transient => {
                let failures: u32 = transient_failures.saturating_add(1);
                if transient_failures >= transient_failure_limit {
                    let mut reason = joined(
                        "Azure OpenAI owner-capture verification had ",
                        decimal_text(failures as u64).as_str(),
                    );
                    reason.append(" consecutive transient failures (limit ");
                    reason.append(decimal_text(transient_failure_limit as u64).as_str());
                    reason.append("): ");
                    reason.append(error.detail().as_str());
                    (failures, PeriodicAction::StopOnTransient { failures, reason })
                } else {
                    (failures, PeriodicAction::Tolerate { failures })
                }
            },
        },
    }
}

/// The count of transient failures after the given outcomes, from a start without failures, or
/// `None` where the service was stopped.
pub open spec fn count_after(limit: u32, outcomes: Seq<OutcomeModel>) -> Option<u32>
    decreases outcomes.len(),
{
    if outcomes.len() == 0 {
        Some(0)
    } else {
        match count_after(limit, outcomes.drop_last()) {
            None => None,
            Some(count) => {
                let (next, action) = periodic_outcome(count, limit, outcomes.last());
                if action.stops() {
                    None
                } else {
                    Some(next)
                }
            },
        }
    }
}

/// Whether an outcome is a definitive failure.
pub open spec fn is_definitive_failure(outcome: OutcomeModel) -> bool {
    outcome matches Err(error) && !is_transient(error)
}

/// Whether an outcome is a transient failure.
pub open spec fn is_transient_failure(outcome: OutcomeModel) -> bool {
    outcome matches Err(error) && is_transient(error)
}

/// Whether the `n` outcomes before position `end` are all transient failures.
pub open spec fn transient_run(outcomes: Seq<OutcomeModel>, end: int, n: int) -> bool {
    0 <= end - n && forall|j: int|
        end - n <= j < end ==> is_transient_failure(#[trigger] outcomes[j])
}

/// While the service runs, the count is the length of the run of transient failures at the end.
proof fn lemma_count_is_run(limit: u32, outcomes: Seq<OutcomeModel>)
    ensures
        count_after(limit, outcomes) matches Some(count) ==> {
            &&& count <= limit
            &&& transient_run(outcomes, outcomes.len() as int, count as int)
            &&& !transient_run(outcomes, outcomes.len() as int, count + 1)
        },
    decreases outcomes.len(),
{
    if outcomes.len() > 0 {
        let front = outcomes.drop_last();
        lemma_count_is_run(limit, front);
        if let Some(before) = count_after(limit, front) {
            let last = outcomes.last();
            let n = outcomes.len() as int;
            assert(outcomes[n - 1] == last);
            assert forall|j: int| 0 <= j < front.len() implies #[trigger] outcomes[j] == front[j] by {}
            if is_transient_failure(last) && count_after(limit, outcomes) is Some {
                assert(transient_run(outcomes, n, before + 1));
                if transient_run(outcomes, n, before + 2) {
                    assert(transient_run(front, n - 1, before + 1)) by {
                        assert forall|j: int| n - 1 - (before + 1) <= j < n - 1 implies
                            is_transient_failure(#[trigger] front[j]) by {
                            assert(is_transient_failure(outcomes[j]));
                        }
                    }
                }
            }
        }
    }
}

/// The service is stopped exactly when there was a definitive failure, or more transient failures
/// in a row than the limit says.
pub proof fn stopped_iff_definitive_or_limit_exceeded(limit: u32, outcomes: Seq<OutcomeModel>)
    ensures
        count_after(limit, outcomes) is None <==> {
            ||| exists|i: int|
                0 <= i < outcomes.len() && is_definitive_failure(#[trigger] outcomes[i])
            ||| exists|end: int|
                0 <= end <= outcomes.len() && #[trigger] transient_run(outcomes, end, limit + 1)
        },
    decreases outcomes.len(),
{
    if outcomes.len() == 0 {
        assert(!transient_run(outcomes, 0, limit + 1));
    } else {
        let front = outcomes.drop_last();
        let last = outcomes.last();
        let n = outcomes.len() as int;
        stopped_iff_definitive_or_limit_exceeded(limit, front);
        lemma_count_is_run(limit, front);
        assert(outcomes[n - 1] == last);
        assert forall|j: int| 0 <= j < front.len() implies #[trigger] outcomes[j] == front[j] by {}
        assert forall|end: int| 0 <= end < n implies transient_run(front, end, limit + 1)
            == #[trigger] transient_run(outcomes, end, limit + 1) by {
            if transient_run(outcomes, end, limit + 1) {
                assert forall|j: int| end - (limit + 1) <= j < end implies is_transient_failure(
                    #[trigger] front[j],
                ) by {
                    assert(is_transient_failure(outcomes[j]));
                }
            }
        }
        match count_after(limit, front) {
            None => {
                if exists|i: int|
                    0 <= i < front.len() && is_definitive_failure(#[trigger] front[i]) {
                    let i = choose|i: int|
                        0 <= i < front.len() && is_definitive_failure(#[trigger] front[i]);
                    assert(is_definitive_failure(outcomes[i]));
                } else {
                    let end = choose|end: int|
                        0 <= end <= front.len() && #[trigger] transient_run(front, end, limit + 1);
                    assert(transient_run(outcomes, end, limit + 1));
                }
            },
            Some(count) => {
                if count_after(limit, outcomes) is None {
                    if is_transient_failure(last) {
                        assert(count == limit);
                        assert(transient_run(outcomes, n, limit + 1));
                    }
                } else {
                    assert forall|i: int| 0 <= i < n implies !is_definitive_failure(
                        #[trigger] outcomes[i],
                    ) by {
                        if i < n - 1 {
                            assert(!is_definitive_failure(front[i]));
                        }
                    }
                    lemma_count_is_run(limit, outcomes);
                    assert forall|end: int| 0 <= end <= n implies !(#[trigger] transient_run(
                        outcomes,
                        end,
                        limit + 1,
                    )) by {
                        if end < n {
                            assert(!transient_run(front, end, limit + 1));
                        } else if transient_run(outcomes, n, limit + 1) {
                            let now = count_after(limit, outcomes)->Some_0;
                            assert(transient_run(outcomes, n, now + 1));
                        }
                    }
                }
            },
        }
    }
}

/// What is done after each of the given outcomes, from a start without failures, until the service
/// is stopped.
pub open spec fn actions_after(limit: u32, outcomes: Seq<OutcomeModel>) -> Seq<PeriodicActionModel>
    decreases outcomes.len(),
{
    if outcomes.len() == 0 {
        seq![]
    } else {
        let earlier = actions_after(limit, outcomes.drop_last());
        match count_after(limit, outcomes.drop_last()) {
            None => earlier,
            Some(count) => earlier.push(periodic_outcome(count, limit, outcomes.last()).1),
        }
    }
}

/// A stop is final: whatever the outcomes after it would have been, the service stays stopped.
pub proof fn stop_is_final(limit: u32, outcomes: Seq<OutcomeModel>, later: Seq<OutcomeModel>)
    requires
        count_after(limit, outcomes) is None,
    ensures
        count_after(limit, outcomes + later) is None,
        actions_after(limit, outcomes + later) == actions_after(limit, outcomes),
    decreases later.len(),
{
    if later.len() == 0 {
        assert(outcomes + later =~= outcomes);
    } else {
        assert((outcomes + later).drop_last() =~= outcomes + later.drop_last());
        stop_is_final(limit, outcomes, later.drop_last());
    }
}

/// The service is stopped at most once, with one reason, and nothing is done after that; while it
/// runs, every outcome has been acted on.
pub proof fn stopped_at_most_once(limit: u32, outcomes: Seq<OutcomeModel>)
    ensures
        ({
            let actions = actions_after(limit, outcomes);
            &&& forall|i: int| 0 <= i < actions.len() - 1 ==> !(#[trigger] actions[i]).stops()
            &&& count_after(limit, outcomes) is None <==> actions.len() > 0 && actions.last().stops()
            &&& count_after(limit, outcomes) is Some ==> actions.len() == outcomes.len()
        }),
    decreases outcomes.len(),
{
    if outcomes.len() > 0 {
        let front = outcomes.drop_last();
        stopped_at_most_once(limit, front);
        if count_after(limit, front) is Some {
            let earlier = actions_after(limit, front);
            let actions = actions_after(limit, outcomes);
            assert forall|i: int| 0 <= i < actions.len() - 1 implies !(
            #[trigger] actions[i]).stops() by {
                assert(actions[i] == earlier[i]);
            }
        }
    }
}

/// Verifications that all pass never stop the service.
pub proof fn successes_never_stop(limit: u32, outcomes: Seq<OutcomeModel>)
    requires
        forall|i: int| 0 <= i < outcomes.len() ==> #[trigger] outcomes[i] is Ok,
    ensures
        count_after(limit, outcomes) == Some(0u32),
        forall|i: int|
            0 <= i < actions_after(limit, outcomes).len() ==> #[trigger] actions_after(
                limit,
                outcomes,
            )[i] is Healthy,
    decreases outcomes.len(),
{
    if outcomes.len() > 0 {
        successes_never_stop(limit, outcomes.drop_last());
        assert(outcomes[outcomes.len() - 1] is Ok);
    }
}

/// A verification that passes starts the count anew.
pub proof fn success_resets_the_count(transient_failures: u32, limit: u32)
    ensures
        periodic_outcome(transient_failures, limit, Ok(())).0 == 0,
        !periodic_outcome(transient_failures, limit, Ok(())).1.stops(),
{
}

/// A definitive failure stops the service at once, whatever the count.
pub proof fn definitive_failure_stops_at_once(
    transient_failures: u32,
    limit: u32,
    error: VerifyErrorModel,
)
    requires
        failure_kind(error) == VerificationFailureKind::Definitive,
    ensures
        periodic_outcome(transient_failures, limit, Err(error)).1 is StopOnDefinitive,
{
}

/// A check that fails on a repeated verification stops the service at once: a refused endpoint, an
/// account that is no longer bound, and a deployment that no longer streams among them.
pub proof fn failed_check_stops_at_once(
    transient_failures: u32,
    limit: u32,
    error: VerifyErrorModel,
)
    requires
        !(error is Transport) && !(error is HttpStatus),
    ensures
        periodic_outcome(transient_failures, limit, Err(error)).1 == (
        PeriodicActionModel::StopOnDefinitive { reason: definitive_reason(error) }),
{
}

/// After fewer transient failures in a row than the limit, or none, another one is tolerated and
/// counted; after as many as the limit or more, another one stops the service, and the reason tells
/// the number of failures, as far as it can be counted, the limit and the error in full.
pub proof fn transient_failures_up_to_the_limit_are_tolerated(
    count: u32,
    limit: u32,
    error: VerifyErrorModel,
)
    requires
        failure_kind(error) == VerificationFailureKind::Transient,
    ensures
        count < limit ==> periodic_outcome(count, limit, Err(error)) == (
            (count + 1) as u32,
            PeriodicActionModel::Tolerate { failures: count + 1 },
        ),
        count >= limit ==> ({
            let failures = if count < u32::MAX {
                count + 1
            } else {
                u32::MAX as int
            };
            periodic_outcome(count, limit, Err(error)) == (
                failures as u32,
                PeriodicActionModel::StopOnTransient {
                    failures,
                    reason: "Azure OpenAI owner-capture verification had "@ + decimal(
                        failures as nat,
                    ) + " consecutive transient failures (limit "@ + decimal(limit as nat) + "): "@
                        + error_detail(error),
                },
            )
        }),
{
}

/// A definitive failure leaves the count and gives the error in full as the reason for the stop.
pub proof fn definitive_failure_is_told_in_full(count: u32, limit: u32, error: VerifyErrorModel)
    requires
        failure_kind(error) == VerificationFailureKind::Definitive,
    ensures
        periodic_outcome(count, limit, Err(error)) == (
            count,
            PeriodicActionModel::StopOnDefinitive {
                reason: "definitive Azure OpenAI owner-capture verification failure: "@
                    + error_detail(error),
            },
        ),
{
}

/// A verification that passes is a recovery from the transient failures before it, where there were
/// any, and tells how many.
pub proof fn success_is_healthy_or_a_recovery(count: u32, limit: u32)
    ensures
        periodic_outcome(0, limit, Ok(())) == (0u32, PeriodicActionModel::Healthy),
        count > 0 ==> periodic_outcome(count, limit, Ok(())) == (
            0u32,
            PeriodicActionModel::Recovered { after: count as int },
        ),
{
}

} // verus!
