//! The periodic task, as a conversation: an action for every event.
//!
//! Whoever runs the task performs the action, and hands back the event that came of it, until the
//! task returns.
use vstd::prelude::*;

use crate::config::PeriodicAzureVerifySettings;
use crate::periodic::{
    actions_after, after_verification, count_after, outcome_model, periodic_outcome, Outcome,
    OutcomeModel, PeriodicAction, PeriodicActionModel,
};

verus! {

/// How far the task has come: what it waits for, and the transient failures in a row by then.
#[derive(Debug, Clone, Copy, PartialEq, Eq)]
pub enum TaskProgress {
    /// It sleeps before a verification.
    Sleeping { transient_failures: u32 },
    /// It verifies.
    Verifying { transient_failures: u32 },
    /// It sends the reason for a stop.
    Sending,
    /// It has returned.
    Returned,
}

/// What came of an action.
#[derive(Debug, PartialEq, Eq)]
pub enum TaskEvent {
    /// The sleep is over.
    Slept,
    /// The verification has this outcome.
    Verified(Outcome),
    /// The reason was sent; `received` says whether there was still a receiver.
    Sent { received: bool },
}

/// The mathematical model of [`TaskEvent`].
pub enum TaskEventModel {
    Slept,
    Verified(OutcomeModel),
    Sent { received: bool },
}

impl DeepView for TaskEvent {
    type V = TaskEventModel;

    open spec fn deep_view(&self) -> TaskEventModel {
        match self {
            TaskEvent::Slept => TaskEventModel::Slept,
            TaskEvent::Verified(outcome) => TaskEventModel::Verified(outcome_model(*outcome)),
            TaskEvent::Sent { received } => TaskEventModel::Sent { received: *received },
        }
    }
}

/// What is to be done next.
#[derive(Debug, PartialEq, Eq)]
pub enum TaskAction {
    /// Sleep for so many seconds.
    Sleep { secs: u64 },
    /// Verify once.
    Verify,
    /// Send the reason for a stop of the service.
    Send { reason: String },
    /// Return: there is nothing more to be done.
    Return,
}

/// The mathematical model of [`TaskAction`].
pub enum TaskActionModel {
    Sleep { secs: u64 },
    Verify,
    Send { reason: Seq<char> },
    Return,
}

impl DeepView for TaskAction {
    type V = TaskActionModel;

    open spec fn deep_view(&self) -> TaskActionModel {
        match self {
            TaskAction::Sleep { secs } => TaskActionModel::Sleep { secs: *secs },
            TaskAction::Verify => TaskActionModel::Verify,
            TaskAction::Send { reason } => TaskActionModel::Send { reason: reason@ },
            TaskAction::Return => TaskActionModel::Return,
        }
    }
}

/// Where an event leads: the progress, what the outcome of a verification means, where the event
/// was one, and the next action.
#[derive(Debug, PartialEq, Eq)]
pub struct TaskStep {
    pub progress: TaskProgress,
    pub notice: Option<PeriodicAction>,
    pub action: TaskAction,
}

/// The mathematical model of [`TaskStep`].
pub struct TaskStepModel {
    pub progress: TaskProgress,
    pub notice: Option<PeriodicActionModel>,
    pub action: TaskActionModel,
}

impl DeepView for TaskStep {
    type V = TaskStepModel;

    open spec fn deep_view(&self) -> TaskStepModel {
        TaskStepModel {
            progress: self.progress,
            notice: self.notice.deep_view(),
            action: self.action.deep_view(),
        }
    }
}

/// The reason for a stop, where an action is one.
pub open spec fn stop_reason(action: PeriodicActionModel) -> Option<Seq<char>> {
    match action {
        PeriodicActionModel::StopOnDefinitive { reason } => Some(reason),
        PeriodicActionModel::StopOnTransient { reason, .. } => Some(reason),
        _ => None,
    }
}

/// The reason for a stop, where an action is one.
fn reason_of(action: &PeriodicAction) -> (res: Option<String>)
    ensures
        res.deep_view() == stop_reason(action.deep_view()),
{
    match action {
        PeriodicAction::StopOnDefinitive { reason } => Some(reason.clone()),
        PeriodicAction::StopOnTransient { reason, .. } => Some(reason.clone()),
        _ => None,
    }
}

/// The step that sleeps before a verification.
pub open spec fn sleeping(
    interval_secs: u64,
    transient_failures: u32,
    notice: Option<PeriodicActionModel>,
) -> TaskStepModel {
    TaskStepModel {
        progress: TaskProgress::Sleeping { transient_failures },
        notice,
        action: TaskActionModel::Sleep { secs: interval_secs },
    }
}

/// The first step: the task sleeps before it verifies for the first time.
pub open spec fn first_task_step(interval_secs: u64) -> TaskStepModel {
    sleeping(interval_secs, 0, None)
}

/// The step after an event. A sleep that is over leads to a verification. The outcome of a
/// verification leads to the next sleep, or to the reason for a stop. Once that was sent, received
/// or not, the task returns. An event that is no answer to a sleep or a verification leads to a
/// sleep, so that no verification comes without one.
pub open spec fn next_task_step(
    interval_secs: u64,
    limit: u32,
    progress: TaskProgress,
    event: TaskEventModel,
) -> TaskStepModel {
    match (progress, event) {
        (TaskProgress::Sleeping { transient_failures }, TaskEventModel::Slept) => TaskStepModel {
            progress: TaskProgress::Verifying { transient_failures },
            notice: None,
            action: TaskActionModel::Verify,
        },
        (TaskProgress::Verifying { transient_failures }, TaskEventModel::Verified(outcome)) => {
            let (failures, notice) = periodic_outcome(transient_failures, limit, outcome);
            match stop_reason(notice) {
                Some(reason) => TaskStepModel {
                    progress: TaskProgress::Sending,
                    notice: Some(notice),
                    action: TaskActionModel::Send { reason },
                },
                None => sleeping(interval_secs, failures, Some(notice)),
            }
        },
        (TaskProgress::Sleeping { transient_failures }, _) => sleeping(
            interval_secs,
            transient_failures,
            None,
        ),
        (TaskProgress::Verifying { transient_failures }, _) => sleeping(
            interval_secs,
            transient_failures,
            None,
        ),
        (_, _) => TaskStepModel {
            progress: TaskProgress::Returned,
            notice: None,
            action: TaskActionModel::Return,
        },
    }
}

/// The step that sleeps before a verification.
fn sleep(
    settings: &PeriodicAzureVerifySettings,
    transient_failures: u32,
    notice: Option<PeriodicAction>,
) -> (res: TaskStep)
    ensures
        res.deep_view() == sleeping(
            settings.interval_secs.value,
            transient_failures,
            notice.deep_view(),
        ),
{
    TaskStep {
        progress: TaskProgress::Sleeping { transient_failures },
        notice,
        action: TaskAction::Sleep { secs: settings.interval_secs.value },
    }
}

/// Begins the periodic task.
pub fn begin_task(settings: &PeriodicAzureVerifySettings) -> (res: TaskStep)
    ensures
        res.deep_view() == first_task_step(settings.interval_secs.value),
{
    sleep(settings, 0, None)
}

/// Goes on with the periodic task: takes what came of the last action and decides on the next.
pub fn continue_task(
    settings: &PeriodicAzureVerifySettings,
    progress: TaskProgress,
    event: &TaskEvent,
) -> (res: TaskStep)
    ensures
        res.deep_view() == next_task_step(
            settings.interval_secs.value,
            settings.transient_failure_limit.value,
            progress,
            event.deep_view(),
        ),
{
    match (progress, event) {
        (TaskProgress::Sleeping { transient_failures }, TaskEvent::Slept) => TaskStep {
            progress: TaskProgress::Verifying { transient_failures },
            notice: None,
            action: TaskAction::Verify,
        },
        (TaskProgress::Verifying { transient_failures }, TaskEvent::Verified(outcome)) => {
            let (failures, notice) = after_verification(
                transient_failures,
                settings.transient_failure_limit.value,
                outcome,
            );
            match reason_of(&notice) {
                Some(reason) => TaskStep {
                    progress: TaskProgress::Sending,
                    notice: Some(notice),
                    action: TaskAction::Send { reason },
                },
                None => sleep(settings, failures, Some(notice)),
            }
        },
        (TaskProgress::Sleeping { transient_failures }, _) => sleep(
            settings,
            transient_failures,
            None,
        ),
        (TaskProgress::Verifying { transient_failures }, _) => sleep(
            settings,
            transient_failures,
            None,
        ),
        (_, _) => TaskStep {
            progress: TaskProgress::Returned,
            notice: None,
            action: TaskAction::Return,
        },
    }
}

/// The step that the task has come to after the given events.
pub open spec fn task_after(
    interval_secs: u64,
    limit: u32,
    events: Seq<TaskEventModel>,
) -> TaskStepModel
    decreases events.len(),
{
    if events.len() == 0 {
        first_task_step(interval_secs)
    } else {
        next_task_step(
            interval_secs,
            limit,
            task_after(interval_secs, limit, events.drop_last()).progress,
            events.last(),
        )
    }
}

/// What the task has done from its beginning on: its first action, and one after each event.
pub open spec fn task_actions(
    interval_secs: u64,
    limit: u32,
    events: Seq<TaskEventModel>,
) -> Seq<TaskActionModel>
    decreases events.len(),
{
    let action = task_after(interval_secs, limit, events).action;
    if events.len() == 0 {
        seq![action]
    } else {
        task_actions(interval_secs, limit, events.drop_last()).push(action)
    }
}

/// Whether an event is what comes of an action.
pub open spec fn answers(event: TaskEventModel, action: TaskActionModel) -> bool {
    match action {
        TaskActionModel::Sleep { .. } => event is Slept,
        TaskActionModel::Verify => event is Verified,
        TaskActionModel::Send { .. } => event is Sent,
        TaskActionModel::Return => false,
    }
}

/// Whether every event is what came of the action before it.
pub open spec fn all_answer(interval_secs: u64, limit: u32, events: Seq<TaskEventModel>) -> bool {
    forall|i: int|
        0 <= i < events.len() ==> answers(
            #[trigger] events[i],
            task_actions(interval_secs, limit, events)[i],
        )
}

/// The outcomes of the verifications among the given events.
pub open spec fn outcomes_of(events: Seq<TaskEventModel>) -> Seq<OutcomeModel>
    decreases events.len(),
{
    if events.len() == 0 {
        seq![]
    } else {
        match events.last() {
            TaskEventModel::Verified(outcome) => outcomes_of(events.drop_last()).push(outcome),
            _ => outcomes_of(events.drop_last()),
        }
    }
}

/// There is one action more than there are events, the last one is that of the step come to, and
/// it is what the progress says.
proof fn lemma_actions(interval_secs: u64, limit: u32, events: Seq<TaskEventModel>)
    ensures
        task_actions(interval_secs, limit, events).len() == events.len() + 1,
        task_actions(interval_secs, limit, events).last() == task_after(
            interval_secs,
            limit,
            events,
        ).action,
        match task_after(interval_secs, limit, events).progress {
            TaskProgress::Sleeping { .. } => task_after(interval_secs, limit, events).action == (
            TaskActionModel::Sleep { secs: interval_secs }),
            TaskProgress::Verifying { .. } => task_after(
                interval_secs,
                limit,
                events,
            ).action is Verify,
            TaskProgress::Sending => task_after(interval_secs, limit, events).action is Send,
            TaskProgress::Returned => task_after(interval_secs, limit, events).action is Return,
        },
    decreases events.len(),
{
    if events.len() > 0 {
        lemma_actions(interval_secs, limit, events.drop_last());
    }
}

/// What was done before the last event is what was done without it.
proof fn lemma_front(interval_secs: u64, limit: u32, events: Seq<TaskEventModel>)
    requires
        events.len() > 0,
    ensures
        forall|i: int|
            0 <= i < events.len() ==> #[trigger] task_actions(interval_secs, limit, events)[i]
                == task_actions(interval_secs, limit, events.drop_last())[i],
        task_actions(interval_secs, limit, events)[events.len() - 1] == task_after(
            interval_secs,
            limit,
            events.drop_last(),
        ).action,
        all_answer(interval_secs, limit, events) ==> {
            &&& all_answer(interval_secs, limit, events.drop_last())
            &&& answers(
                events.last(),
                task_after(interval_secs, limit, events.drop_last()).action,
            )
        },
{
    let front = events.drop_last();
    lemma_actions(interval_secs, limit, front);
    lemma_actions(interval_secs, limit, events);
    if all_answer(interval_secs, limit, events) {
        assert forall|i: int| 0 <= i < front.len() implies answers(
            #[trigger] front[i],
            task_actions(interval_secs, limit, front)[i],
        ) by {
            assert(events[i] == front[i]);
        }
        assert(events[events.len() - 1] == events.last());
    }
}

/// Every verification, the first one among them, comes directly after a sleep of the interval.
pub proof fn every_check_follows_a_sleep(
    interval_secs: u64,
    limit: u32,
    events: Seq<TaskEventModel>,
    i: int,
)
    requires
        0 <= i < task_actions(interval_secs, limit, events).len(),
        task_actions(interval_secs, limit, events)[i] is Verify,
    ensures
        i > 0,
        task_actions(interval_secs, limit, events)[i - 1] == (TaskActionModel::Sleep {
            secs: interval_secs,
        }),
    decreases events.len(),
{
    lemma_actions(interval_secs, limit, events);
    if events.len() > 0 {
        let front = events.drop_last();
        lemma_actions(interval_secs, limit, front);
        lemma_front(interval_secs, limit, events);
        if i < events.len() {
            every_check_follows_a_sleep(interval_secs, limit, front, i);
        }
    }
}

/// Where every event is what came of the action before it, there is one sleep of the interval
/// before every verification, and no other: before that sleep stands the verification before, or
/// nothing.
pub proof fn every_check_follows_one_sleep(
    interval_secs: u64,
    limit: u32,
    events: Seq<TaskEventModel>,
    i: int,
)
    requires
        all_answer(interval_secs, limit, events),
        0 <= i < task_actions(interval_secs, limit, events).len(),
        task_actions(interval_secs, limit, events)[i] is Verify,
    ensures
        i > 0,
        task_actions(interval_secs, limit, events)[i - 1] == (TaskActionModel::Sleep {
            secs: interval_secs,
        }),
        i > 1 ==> task_actions(interval_secs, limit, events)[i - 2] is Verify,
{
    every_check_follows_a_sleep(interval_secs, limit, events, i);
    if i > 1 {
        lemma_before_a_sleep(interval_secs, limit, events, i - 1);
    }
}

/// A sleep that is not the first action comes directly after a verification.
proof fn lemma_before_a_sleep(
    interval_secs: u64,
    limit: u32,
    events: Seq<TaskEventModel>,
    i: int,
)
    requires
        all_answer(interval_secs, limit, events),
        0 < i < task_actions(interval_secs, limit, events).len(),
        task_actions(interval_secs, limit, events)[i] is Sleep,
    ensures
        task_actions(interval_secs, limit, events)[i - 1] is Verify,
    decreases events.len(),
{
    lemma_actions(interval_secs, limit, events);
    let front = events.drop_last();
    lemma_actions(interval_secs, limit, front);
    lemma_front(interval_secs, limit, events);
    if i < events.len() {
        lemma_before_a_sleep(interval_secs, limit, front, i);
    }
}

/// Nothing was sent while the task sleeps or verifies; while it sends, nothing was sent before; and
/// once it has returned, something was.
proof fn lemma_sent(interval_secs: u64, limit: u32, events: Seq<TaskEventModel>)
    ensures
        ({
            let actions = task_actions(interval_secs, limit, events);
            let progress = task_after(interval_secs, limit, events).progress;
            &&& !(progress is Returned) ==> forall|i: int|
                0 <= i < events.len() ==> !(#[trigger] actions[i] is Send)
            &&& progress is Returned ==> exists|i: int|
                0 <= i < events.len() && #[trigger] actions[i] is Send
        }),
    decreases events.len(),
{
    if events.len() > 0 {
        let front = events.drop_last();
        let actions = task_actions(interval_secs, limit, events);
        let before = task_actions(interval_secs, limit, front);
        lemma_sent(interval_secs, limit, front);
        lemma_actions(interval_secs, limit, front);
        lemma_front(interval_secs, limit, events);
        if task_after(interval_secs, limit, front).progress is Returned {
            let i = choose|i: int| 0 <= i < front.len() && #[trigger] before[i] is Send;
            assert(actions[i] is Send);
        } else if task_after(interval_secs, limit, front).progress is Sending {
            assert(actions[events.len() - 1] is Send);
        } else {
            assert forall|i: int| 0 <= i < events.len() implies !(
            #[trigger] actions[i] is Send) by {
                assert(actions[i] == before[i]);
            }
        }
    }
}

/// At most one reason is ever sent.
pub proof fn sent_at_most_once(
    interval_secs: u64,
    limit: u32,
    events: Seq<TaskEventModel>,
    i: int,
    j: int,
)
    requires
        0 <= i < task_actions(interval_secs, limit, events).len(),
        0 <= j < task_actions(interval_secs, limit, events).len(),
        task_actions(interval_secs, limit, events)[i] is Send,
        task_actions(interval_secs, limit, events)[j] is Send,
    ensures
        i == j,
    decreases events.len(),
{
    lemma_actions(interval_secs, limit, events);
    if events.len() > 0 {
        lemma_front(interval_secs, limit, events);
        lemma_sent(interval_secs, limit, events);
        lemma_actions(interval_secs, limit, events.drop_last());
        if i < events.len() && j < events.len() {
            sent_at_most_once(interval_secs, limit, events.drop_last(), i, j);
        }
    }
}

/// The task returns only after it has sent a reason.
pub proof fn returns_only_after_sending(
    interval_secs: u64,
    limit: u32,
    events: Seq<TaskEventModel>,
    i: int,
)
    requires
        0 <= i < task_actions(interval_secs, limit, events).len(),
        task_actions(interval_secs, limit, events)[i] is Return,
    ensures
        exists|j: int|
            0 <= j < i && #[trigger] task_actions(interval_secs, limit, events)[j] is Send,
    decreases events.len(),
{
    lemma_actions(interval_secs, limit, events);
    if events.len() > 0 {
        let front = events.drop_last();
        lemma_front(interval_secs, limit, events);
        lemma_sent(interval_secs, limit, events);
        lemma_actions(interval_secs, limit, front);
        if i < events.len() {
            returns_only_after_sending(interval_secs, limit, front, i);
            let j = choose|j: int|
                0 <= j < i && #[trigger] task_actions(interval_secs, limit, front)[j] is Send;
            assert(task_actions(interval_secs, limit, events)[j] is Send);
        }
    }
}

/// Once a reason was sent the task returns, whether there was still a receiver or not.
pub proof fn returns_once_sent(
    interval_secs: u64,
    limit: u32,
    events: Seq<TaskEventModel>,
    i: int,
)
    requires
        0 <= i < events.len(),
        task_actions(interval_secs, limit, events)[i] is Send,
    ensures
        task_actions(interval_secs, limit, events)[i + 1] is Return,
    decreases events.len(),
{
    let front = events.drop_last();
    lemma_actions(interval_secs, limit, events);
    lemma_actions(interval_secs, limit, front);
    lemma_front(interval_secs, limit, events);
    if i < events.len() - 1 {
        returns_once_sent(interval_secs, limit, front, i);
        assert(task_actions(interval_secs, limit, events)[i + 1] == task_actions(
            interval_secs,
            limit,
            front,
        )[i + 1]);
    }
}

/// While every verification passes, the task neither sends nor returns: it sleeps and verifies.
pub proof fn runs_on_while_checks_pass(
    interval_secs: u64,
    limit: u32,
    events: Seq<TaskEventModel>,
    i: int,
)
    requires
        forall|k: int|
            0 <= k < events.len() && #[trigger] events[k] is Verified ==> events[k]->Verified_0 is Ok,
        0 <= i < task_actions(interval_secs, limit, events).len(),
    ensures
        task_actions(interval_secs, limit, events)[i] is Sleep || task_actions(
            interval_secs,
            limit,
            events,
        )[i] is Verify,
    decreases events.len(),
{
    lemma_actions(interval_secs, limit, events);
    if events.len() > 0 {
        let front = events.drop_last();
        lemma_actions(interval_secs, limit, front);
        lemma_front(interval_secs, limit, events);
        assert forall|k: int| 0 <= k < front.len() && #[trigger] front[k] is Verified implies
            front[k]->Verified_0 is Ok by {
            assert(events[k] == front[k]);
        }
        if i < events.len() {
            runs_on_while_checks_pass(interval_secs, limit, front, i);
        } else {
            runs_on_while_checks_pass(interval_secs, limit, front, i - 1);
            assert(events[events.len() - 1] == events.last());
        }
    }
}

/// Where every event is what came of the action before it, the task sends a reason exactly when the
/// outcomes of its verifications stop the service, and it is the reason for that stop.
pub proof fn sends_exactly_when_stopped(
    interval_secs: u64,
    limit: u32,
    events: Seq<TaskEventModel>,
)
    requires
        all_answer(interval_secs, limit, events),
    ensures
        (exists|i: int|
            0 <= i <= events.len() && #[trigger] task_actions(interval_secs, limit, events)[i] is Send)
            <==> count_after(limit, outcomes_of(events)) is None,
        task_after(interval_secs, limit, events).action matches TaskActionModel::Send { reason }
            ==> stop_reason(actions_after(limit, outcomes_of(events)).last()) == Some(reason),
{
    lemma_actions(interval_secs, limit, events);
    lemma_sent(interval_secs, limit, events);
    lemma_count(interval_secs, limit, events);
    let actions = task_actions(interval_secs, limit, events);
    match task_after(interval_secs, limit, events).progress {
        TaskProgress::Sending => {
            assert(actions[events.len() as int] is Send);
        },
        TaskProgress::Returned => {
            let i = choose|i: int| 0 <= i < events.len() && #[trigger] actions[i] is Send;
            assert(actions[i] is Send);
        },
        _ => {
            assert forall|i: int| 0 <= i <= events.len() implies !(
            #[trigger] actions[i] is Send) by {}
        },
    }
}

/// The count that the task keeps is the count after the outcomes so far.
proof fn lemma_count(interval_secs: u64, limit: u32, events: Seq<TaskEventModel>)
    requires
        all_answer(interval_secs, limit, events),
    ensures
        match task_after(interval_secs, limit, events).progress {
            TaskProgress::Sleeping { transient_failures } => count_after(limit, outcomes_of(events))
                == Some(transient_failures),
            TaskProgress::Verifying { transient_failures } => count_after(
                limit,
                outcomes_of(events),
            ) == Some(transient_failures),
            _ => count_after(limit, outcomes_of(events)) is None,
        },
        task_after(interval_secs, limit, events).action matches TaskActionModel::Send { reason }
            ==> stop_reason(actions_after(limit, outcomes_of(events)).last()) == Some(reason),
    decreases events.len(),
{
    if events.len() > 0 {
        let front = events.drop_last();
        lemma_front(interval_secs, limit, events);
        lemma_actions(interval_secs, limit, front);
        lemma_count(interval_secs, limit, front);
        if let TaskEventModel::Verified(outcome) = events.last() {
            assert(outcomes_of(events).drop_last() =~= outcomes_of(front));
            assert(outcomes_of(events).last() == outcome);
        }
    }
}

/// After the outcome of a verification, what it means is noticed, and the task sends the reason of a
/// stop or sleeps for the interval with the count that the outcome leaves.
pub proof fn outcome_is_noticed(
    interval_secs: u64,
    limit: u32,
    count: u32,
    outcome: OutcomeModel,
)
    ensures
        ({
            let step = next_task_step(
                interval_secs,
                limit,
                TaskProgress::Verifying { transient_failures: count },
                TaskEventModel::Verified(outcome),
            );
            let (left, meaning) = periodic_outcome(count, limit, outcome);
            &&& step.notice == Some(meaning)
            &&& match meaning {
                PeriodicActionModel::StopOnDefinitive { reason } => step.progress
                    == TaskProgress::Sending && step.action == (TaskActionModel::Send { reason }),
                PeriodicActionModel::StopOnTransient { failures, reason } => step.progress
                    == TaskProgress::Sending && step.action == (TaskActionModel::Send { reason }),
                _ => step.progress == (TaskProgress::Sleeping { transient_failures: left })
                    && step.action == (TaskActionModel::Sleep { secs: interval_secs }),
            }
        }),
{
}

/// No other event is noticed, and a sleep that is over leads to a verification with the same count.
pub proof fn sleep_leads_to_a_verification(
    interval_secs: u64,
    limit: u32,
    count: u32,
    progress: TaskProgress,
    event: TaskEventModel,
)
    ensures
        next_task_step(
            interval_secs,
            limit,
            TaskProgress::Sleeping { transient_failures: count },
            TaskEventModel::Slept,
        ) == (TaskStepModel {
            progress: TaskProgress::Verifying { transient_failures: count },
            notice: None,
            action: TaskActionModel::Verify,
        }),
        !(progress is Verifying) || !(event is Verified) ==> next_task_step(
            interval_secs,
            limit,
            progress,
            event,
        ).notice is None,
{
}

/// The task begins with a sleep of the interval, nothing to notice and no failures counted.
pub proof fn begins_with_a_sleep(interval_secs: u64)
    ensures
        first_task_step(interval_secs) == (TaskStepModel {
            progress: TaskProgress::Sleeping { transient_failures: 0 },
            notice: None,
            action: TaskActionModel::Sleep { secs: interval_secs },
        }),
{
}

} // verus!
