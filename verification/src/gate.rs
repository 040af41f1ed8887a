//! What holds of every verification from its beginning to its end.
use vstd::prelude::*;

use crate::arm::JsonValue;
use crate::checks::{
    account_accepted_iff, binding_accepted_iff_bound, is_bound, url_of_account,
};
use crate::config::ConfigModel;
use crate::endpoint::{accepted_endpoint_is_split, endpoint_outcome, EndpointModel};
use crate::requests::{
    account_url, deployments_url, diagnostics_url, policy_url, token_request, MANAGEMENT_ROOT,
};
use crate::streaming::{
    assessment_of, is_refused, none_synchronous_iff_all_stream, policies_of, streams, ReadingModel,
};
use crate::text::{ascii_lower, has_prefix, is_blank, lemma_trim_empty, trimmed};
use crate::verification::{
    first_step, next_step, ActionModel, Document, ProgressModel, ReplyModel, ReportModel,
    SessionModel, StepModel,
};
use crate::web_url::parsed_url;

verus! {

/// The step that a verification has come to after the given replies.
pub open spec fn run(config: ConfigModel, replies: Seq<ReplyModel>) -> StepModel
    decreases replies.len(),
{
    if replies.len() == 0 {
        first_step(config)
    } else {
        next_step(config, run(config, replies.drop_last()).progress, replies.last())
    }
}

/// The endpoint of a configuration whose endpoint is accepted.
pub open spec fn endpoint_of(config: ConfigModel) -> EndpointModel {
    endpoint_outcome(config.endpoint, parsed_url(config.endpoint))->Ok_0
}

/// The policies that are read: one for each reply, from the fifth on.
pub open spec fn readings_of(
    names: Seq<Seq<char>>,
    replies: Seq<ReplyModel>,
    count: int,
) -> Seq<ReadingModel> {
    Seq::new(
        count as nat,
        |k: int| ReadingModel { policy_name: names[k], mode: replies[4 + k]->Policy_0 },
    )
}

/// What a bound account gives to the rest of the verification.
pub open spec fn session_of(config: ConfigModel, replies: Seq<ReplyModel>) -> SessionModel {
    SessionModel {
        endpoint: endpoint_of(config),
        token: replies[0]->Token_0,
        resource_id: replies[1]->Account_0.id,
    }
}

/// The first reply is a token, and the endpoint is accepted.
pub open spec fn has_token(config: ConfigModel, replies: Seq<ReplyModel>) -> bool {
    &&& endpoint_outcome(config.endpoint, parsed_url(config.endpoint)) is Ok
    &&& replies.len() >= 1
    &&& replies[0] matches ReplyModel::Token(token)
    &&& !is_blank(token)
}

/// The second reply is an account that is bound to the endpoint.
pub open spec fn has_bound_account(config: ConfigModel, replies: Seq<ReplyModel>) -> bool {
    &&& has_token(config, replies)
    &&& replies.len() >= 2
    &&& replies[1] matches ReplyModel::Account(account)
    &&& is_bound(endpoint_of(config), account, url_of_account(account))
    &&& diagnostics_url(account.id) is Some
}

/// The third and the fourth reply are diagnostic settings and deployments.
pub open spec fn has_deployments(config: ConfigModel, replies: Seq<ReplyModel>) -> bool {
    &&& has_bound_account(config, replies)
    &&& replies.len() >= 4
    &&& replies[2] is DiagnosticSettings
    &&& replies[3] is Deployments
}

/// The policies that the deployments in the fourth reply reference.
pub open spec fn names_of(replies: Seq<ReplyModel>) -> Seq<Seq<char>> {
    policies_of(replies[3]->Deployments_0)
}

/// The replies from the fifth on are `count` policies.
pub open spec fn has_policies(replies: Seq<ReplyModel>, count: int) -> bool {
    &&& replies.len() == 4 + count
    &&& forall|k: int| 4 <= k < replies.len() ==> (#[trigger] replies[k]) is Policy
}

/// The replies answer every request of a verification: a token, a bound account, diagnostic
/// settings, deployments, and every policy that a deployment references.
pub open spec fn is_complete(config: ConfigModel, replies: Seq<ReplyModel>) -> bool {
    &&& has_deployments(config, replies)
    &&& has_policies(replies, names_of(replies).len() as int)
}

/// What a complete verification reports.
pub open spec fn report_of(config: ConfigModel, replies: Seq<ReplyModel>) -> ReportModel {
    ReportModel {
        host: endpoint_of(config).host,
        resource_id: replies[1]->Account_0.id,
        streaming: assessment_of(
            replies[3]->Deployments_0,
            readings_of(names_of(replies), replies, names_of(replies).len() as int),
        ),
    }
}

/// What the progress of a verification says of the replies so far.
spec fn explains(config: ConfigModel, replies: Seq<ReplyModel>, step: StepModel) -> bool {
    &&& match step.progress {
        ProgressModel::Token { endpoint } => {
            &&& replies.len() == 0
            &&& endpoint_outcome(config.endpoint, parsed_url(config.endpoint)) is Ok
            &&& endpoint == endpoint_of(config)
        },
        ProgressModel::Account { endpoint, token } => {
            &&& replies.len() == 1
            &&& has_token(config, replies)
            &&& endpoint == endpoint_of(config)
            &&& token == replies[0]->Token_0
        },
        ProgressModel::Diagnostics { session } => {
            &&& replies.len() == 2
            &&& has_bound_account(config, replies)
            &&& session == session_of(config, replies)
        },
        ProgressModel::Deployments { session } => {
            &&& replies.len() == 3
            &&& has_bound_account(config, replies)
            &&& replies[2] is DiagnosticSettings
            &&& session == session_of(config, replies)
        },
        ProgressModel::Policies { session, deployments, readings, current, rest } => {
            &&& has_deployments(config, replies)
            &&& has_policies(replies, readings.len() as int)
            &&& session == session_of(config, replies)
            &&& deployments == replies[3]->Deployments_0
            &&& readings.len() < names_of(replies).len()
            &&& readings == readings_of(names_of(replies), replies, readings.len() as int)
            &&& current == names_of(replies)[readings.len() as int]
            &&& rest == names_of(replies).skip(readings.len() as int + 1)
        },
        ProgressModel::Finished => step.action is Pass || step.action is Fail,
    }
    &&& step.action matches ActionModel::Pass(report) ==> {
        &&& is_complete(config, replies)
        &&& report == report_of(config, replies)
        &&& !is_refused(report.streaming, config.require_async_filter)
    }
}

proof fn lemma_explains(config: ConfigModel, replies: Seq<ReplyModel>)
    ensures
        explains(config, replies, run(config, replies)),
    decreases replies.len(),
{
    if replies.len() > 0 {
        let front = replies.drop_last();
        lemma_explains(config, front);
        match (run(config, front).progress, replies.last()) {
            (ProgressModel::Token { .. }, ReplyModel::Token(_)) => {},
            (ProgressModel::Account { .. }, ReplyModel::Account(_)) => {
                lemma_explains_account(config, replies);
            },
            (ProgressModel::Diagnostics { .. }, ReplyModel::DiagnosticSettings(_)) => {
                lemma_explains_diagnostics(config, replies);
            },
            (ProgressModel::Deployments { .. }, ReplyModel::Deployments(_)) => {
                lemma_explains_deployments(config, replies);
            },
            (ProgressModel::Policies { .. }, ReplyModel::Policy(_)) => {
                lemma_explains_policy(config, replies);
            },
            _ => {
                assert(run(config, replies).action is Fail);
                assert(run(config, replies).progress is Finished);
            },
        }
    }
}

/// The replies before the last one stay what they were.
proof fn lemma_front(replies: Seq<ReplyModel>)
    requires
        replies.len() > 0,
    ensures
        forall|k: int|
            0 <= k < replies.len() - 1 ==> #[trigger] replies[k] == replies.drop_last()[k],
        replies.last() == replies[replies.len() - 1],
{
}

proof fn lemma_explains_account(config: ConfigModel, replies: Seq<ReplyModel>)
    requires
        replies.len() > 0,
        explains(config, replies.drop_last(), run(config, replies.drop_last())),
        run(config, replies.drop_last()).progress is Account,
        replies.last() is Account,
    ensures
        explains(config, replies, run(config, replies)),
{
    lemma_front(replies);
    let account = replies.last()->Account_0;
    binding_accepted_iff_bound(endpoint_of(config), account, url_of_account(account));
}

proof fn lemma_explains_diagnostics(config: ConfigModel, replies: Seq<ReplyModel>)
    requires
        replies.len() > 0,
        explains(config, replies.drop_last(), run(config, replies.drop_last())),
        run(config, replies.drop_last()).progress is Diagnostics,
        replies.last() is DiagnosticSettings,
    ensures
        explains(config, replies, run(config, replies)),
{
    lemma_front(replies);
}

proof fn lemma_explains_deployments(config: ConfigModel, replies: Seq<ReplyModel>)
    requires
        replies.len() > 0,
        explains(config, replies.drop_last(), run(config, replies.drop_last())),
        run(config, replies.drop_last()).progress is Deployments,
        replies.last() is Deployments,
    ensures
        explains(config, replies, run(config, replies)),
{
    lemma_front(replies);
    let names = names_of(replies);
    assert(readings_of(names, replies, 0) =~= seq![]);
    if names.len() > 0 {
        assert(names.drop_first() =~= names.skip(1));
    }
}

proof fn lemma_explains_policy(config: ConfigModel, replies: Seq<ReplyModel>)
    requires
        replies.len() > 0,
        explains(config, replies.drop_last(), run(config, replies.drop_last())),
        run(config, replies.drop_last()).progress is Policies,
        replies.last() is Policy,
    ensures
        explains(config, replies, run(config, replies)),
{
    lemma_front(replies);
    let front = replies.drop_last();
    let names = names_of(front);
    let progress = run(config, front).progress;
    let readings = progress->readings;
    let n = readings.len() as int;
    assert(replies.len() == 5 + n);
    assert(names_of(replies) == names);
    assert(has_deployments(config, replies));
    assert(session_of(config, replies) == session_of(config, front));
    let extended = readings.push(
        ReadingModel { policy_name: progress->current, mode: replies.last()->Policy_0 },
    );
    assert(extended =~= readings_of(names, replies, n + 1));
    assert(has_policies(replies, n + 1));
    if progress->rest.len() > 0 {
        assert(progress->rest.drop_first() =~= names.skip(n + 2));
    }
}

/// A verification that passes has seen everything it must see: an accepted endpoint, a token that
/// is not blank, an account that is bound to the endpoint, its diagnostic settings, its
/// deployments, and each policy that they reference. Unless asynchronous filtering is waived,
/// every deployment streams.
pub proof fn passes_only_when_every_check_passed(config: ConfigModel, replies: Seq<ReplyModel>)
    requires
        run(config, replies).action is Pass,
    ensures
        is_complete(config, replies),
        run(config, replies).action == ActionModel::Pass(report_of(config, replies)),
        config.require_async_filter ==> forall|i: int|
            0 <= i < replies[3]->Deployments_0.len() ==> streams(
                #[trigger] replies[3]->Deployments_0[i],
                readings_of(names_of(replies), replies, names_of(replies).len() as int),
            ),
{
    lemma_explains(config, replies);
    none_synchronous_iff_all_stream(
        replies[3]->Deployments_0,
        readings_of(names_of(replies), replies, names_of(replies).len() as int),
    );
}

/// The progress after the first `n` replies of a complete verification.
spec fn expected_progress(config: ConfigModel, replies: Seq<ReplyModel>, n: int) -> ProgressModel {
    if n == 0 {
        ProgressModel::Token { endpoint: endpoint_of(config) }
    } else if n == 1 {
        ProgressModel::Account { endpoint: endpoint_of(config), token: replies[0]->Token_0 }
    } else if n == 2 {
        ProgressModel::Diagnostics { session: session_of(config, replies) }
    } else if n == 3 {
        ProgressModel::Deployments { session: session_of(config, replies) }
    } else {
        ProgressModel::Policies {
            session: session_of(config, replies),
            deployments: replies[3]->Deployments_0,
            readings: readings_of(names_of(replies), replies, n - 4),
            current: names_of(replies)[n - 4],
            rest: names_of(replies).skip(n - 3),
        }
    }
}

proof fn lemma_progress(config: ConfigModel, replies: Seq<ReplyModel>, n: int)
    requires
        is_complete(config, replies),
        0 <= n < replies.len(),
    ensures
        run(config, replies.take(n)).progress == expected_progress(config, replies, n),
    decreases n,
{
    let seen = replies.take(n);
    if n > 0 {
        lemma_progress(config, replies, n - 1);
        assert(seen.drop_last() =~= replies.take(n - 1));
        assert(seen.last() == replies[n - 1]);
        let account = replies[1]->Account_0;
        binding_accepted_iff_bound(endpoint_of(config), account, url_of_account(account));
        let names = names_of(replies);
        if n == 4 {
            assert(readings_of(names, replies, 0) =~= seq![]);
            assert(names.drop_first() =~= names.skip(1));
        } else if n > 4 {
            let readings = readings_of(names, replies, n - 5);
            let extended = readings.push(
                ReadingModel { policy_name: names[n - 5], mode: replies[n - 1]->Policy_0 },
            );
            assert(extended =~= readings_of(names, replies, n - 4));
            assert(names.skip(n - 4).drop_first() =~= names.skip(n - 3));
        }
    }
}

/// A verification whose requests are all answered passes, unless some deployment does not stream
/// and asynchronous filtering is required.
pub proof fn passes_when_every_check_passed(config: ConfigModel, replies: Seq<ReplyModel>)
    requires
        is_complete(config, replies),
        !is_refused(report_of(config, replies).streaming, config.require_async_filter),
    ensures
        run(config, replies).action == ActionModel::Pass(report_of(config, replies)),
{
    let n = replies.len() as int;
    let names = names_of(replies);
    lemma_progress(config, replies, n - 1);
    assert(replies.take(n - 1) =~= replies.drop_last());
    assert(replies.last() == replies[n - 1]);
    if n == 4 {
        assert(readings_of(names, replies, 0) =~= seq![]);
    } else {
        let readings = readings_of(names, replies, n - 5);
        let extended = readings.push(
            ReadingModel { policy_name: names[n - 5], mode: replies[n - 1]->Policy_0 },
        );
        assert(extended =~= readings_of(names, replies, n - 4));
        assert(names.skip(n - 4) =~= seq![]);
    }
}

/// A failure is the end: no reply that follows makes the verification pass.
pub proof fn failure_is_final(config: ConfigModel, replies: Seq<ReplyModel>, later: Seq<ReplyModel>)
    requires
        run(config, replies).action is Fail,
    ensures
        run(config, replies + later).action is Fail,
        run(config, replies + later).progress is Finished,
    decreases later.len(),
{
    if later.len() == 0 {
        assert(replies + later =~= replies);
        lemma_failed_is_finished(config, replies);
    } else {
        failure_is_final(config, replies, later.drop_last());
        assert((replies + later).drop_last() =~= replies + later.drop_last());
    }
}

proof fn lemma_failed_is_finished(config: ConfigModel, replies: Seq<ReplyModel>)
    requires
        run(config, replies).action is Fail,
    ensures
        run(config, replies).progress is Finished,
{
}

/// A reply that reports a failure fails the verification.
pub proof fn failed_requests_fail_closed(
    config: ConfigModel,
    progress: ProgressModel,
    reply: ReplyModel,
)
    requires
        reply is Transport || reply is Refused,
    ensures
        next_step(config, progress, reply).action is Fail,
{
}

/// Diagnostic settings never fail a verification, whatever logs they enable: the deployments are
/// asked for next.
pub proof fn diagnostic_settings_are_not_fatal(
    config: ConfigModel,
    session: SessionModel,
    reply: ReplyModel,
)
    requires
        reply is DiagnosticSettings,
    ensures
        next_step(config, ProgressModel::Diagnostics { session }, reply).action is Get,
        next_step(config, ProgressModel::Diagnostics { session }, reply).progress
            == (ProgressModel::Deployments { session }),
{
}

/// The access token goes to the management API only, and it is the one that was given.
pub proof fn token_goes_to_the_management_api_only(config: ConfigModel, replies: Seq<ReplyModel>)
    requires
        run(config, replies).action is Get,
    ensures
        has_token(config, replies),
        run(config, replies).action->Get_token == replies[0]->Token_0,
        has_prefix(run(config, replies).action->Get_url, MANAGEMENT_ROOT@),
{
    let step = run(config, replies);
    let front = replies.drop_last();
    lemma_explains(config, replies);
    lemma_explains(config, front);
    assert forall|k: int| 0 <= k < front.len() implies #[trigger] replies[k] == front[k] by {}
    let url = step.action->Get_url;
    assert(url.take(MANAGEMENT_ROOT@.len() as int) =~= MANAGEMENT_ROOT@);
}

/// The client secret is sent once, in the request for the token: an action that carries it is the
/// first one.
pub proof fn secret_is_posted_first_and_once(config: ConfigModel, replies: Seq<ReplyModel>)
    requires
        run(config, replies).action is PostToken,
    ensures
        replies.len() == 0,
        run(config, replies).action->PostToken_0 == token_request(config),
{
}

/// Where asynchronous filtering is waived, a verification whose requests are all answered passes,
/// whatever the modes of its policies are.
pub proof fn waived_filtering_never_fails(config: ConfigModel, replies: Seq<ReplyModel>)
    requires
        is_complete(config, replies),
        !config.require_async_filter,
    ensures
        run(config, replies).action is Pass,
{
    passes_when_every_check_passed(config, replies);
}

/// A verification passes only behind an `https` endpoint without user name and password, with a
/// token that is not blank, and for an account whose own endpoint is such a URL with the same host,
/// whose monitoring is absent or null, and whose storage is absent or empty.
pub proof fn passed_account_captures_nothing(config: ConfigModel, replies: Seq<ReplyModel>)
    requires
        run(config, replies).action is Pass,
    ensures
        parsed_url(config.endpoint) matches Ok(url) && url.scheme == "https"@ && url.username.len()
            == 0 && url.password is None && url.host is Some,
        replies.len() >= 4,
        replies[0] matches ReplyModel::Token(token) && trimmed(token).len() > 0,
        replies[1] matches ReplyModel::Account(account) && {
            &&& account.kind == "OpenAI"@ || account.kind == "AIServices"@
            &&& account.endpoint matches Some(text)
            &&& parsed_url(text) matches Ok(parts)
            &&& parts.scheme == "https"@
            &&& parts.username.len() == 0
            &&& parts.password is None
            &&& parts.host matches Some(host)
            &&& ascii_lower(host) == ascii_lower(parsed_url(config.endpoint)->Ok_0.host->Some_0)
            &&& match account.rai_monitor_config {
                None => true,
                Some(value) => value is Null,
            }
            &&& match account.user_owned_storage {
                None => true,
                Some(JsonValue::Null) => true,
                Some(JsonValue::Array(values)) => values@.len() == 0,
                Some(JsonValue::Object(fields)) => fields@.len() == 0,
                Some(JsonValue::Text(text)) => trimmed(text@).len() == 0,
                Some(_) => false,
            }
            &&& account.id.len() > 0 && account.id[0] == '/'
        },
        run(config, replies).action->Pass_0.resource_id == replies[1]->Account_0.id,
        run(config, replies).action->Pass_0.host == ascii_lower(
            parsed_url(config.endpoint)->Ok_0.host->Some_0,
        ),
{
    passes_only_when_every_check_passed(config, replies);
    let account = replies[1]->Account_0;
    lemma_trim_empty(replies[0]->Token_0);
    accepted_endpoint_is_split(config.endpoint, parsed_url(config.endpoint));
    binding_accepted_iff_bound(endpoint_of(config), account, url_of_account(account));
    account_accepted_iff(endpoint_of(config), account, url_of_account(account));
}

/// The requests of a verification whose requests are all answered come in one order, each with the
/// token of the first reply: the account, its diagnostic settings, its deployments, and then the
/// policies, one by one.
pub proof fn requests_come_in_order(config: ConfigModel, replies: Seq<ReplyModel>, n: int)
    requires
        is_complete(config, replies),
        0 <= n < replies.len(),
    ensures
        n == 0 ==> run(config, replies.take(n)).action == ActionModel::PostToken(
            token_request(config),
        ),
        n == 1 ==> run(config, replies.take(n)).action == (ActionModel::Get {
            url: account_url(config, endpoint_of(config).account_name),
            token: replies[0]->Token_0,
            label: "Azure Cognitive Services account"@,
            document: Document::Account,
        }),
        n == 2 ==> run(config, replies.take(n)).action == (ActionModel::Get {
            url: diagnostics_url(replies[1]->Account_0.id)->Some_0,
            token: replies[0]->Token_0,
            label: "Azure diagnostic settings"@,
            document: Document::DiagnosticSettings,
        }),
        n == 3 ==> run(config, replies.take(n)).action == (ActionModel::Get {
            url: deployments_url(config, endpoint_of(config).account_name),
            token: replies[0]->Token_0,
            label: "Azure deployments"@,
            document: Document::Deployments,
        }),
        n >= 4 ==> run(config, replies.take(n)).action == (ActionModel::Get {
            url: policy_url(config, endpoint_of(config).account_name, names_of(replies)[n - 4]),
            token: replies[0]->Token_0,
            label: "Azure RAI policy"@,
            document: Document::Policy,
        }),
{
    lemma_progress(config, replies, n);
    if n > 0 {
        let seen = replies.take(n);
        lemma_progress(config, replies, n - 1);
        assert(seen.drop_last() =~= replies.take(n - 1));
        assert(seen.last() == replies[n - 1]);
        let account = replies[1]->Account_0;
        binding_accepted_iff_bound(endpoint_of(config), account, url_of_account(account));
    }
}

} // verus!
