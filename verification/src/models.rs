//! What the models of values hold: every part of a value that a contract speaks of, unchanged.
use vstd::prelude::*;

use crate::arm::{ArmAccount, DeploymentList, DiagnosticSettingsList};
use crate::checks::{binding_result_model, BindingError, BindingErrorModel};
use crate::config::{AzureVerifyConfig, PeriodicAzureVerifySettings};
use crate::diagnostics::DiagnosticWarning;
use crate::endpoint::{
    endpoint_result_model, AzureEndpoint, EndpointError, EndpointErrorModel,
};
use crate::environment::{EnvValue, EnvValueModel, Environment, SettingError};
use crate::error::{TransportFailure, VerifyError, VerifyErrorModel};
use crate::periodic::{outcome_model, PeriodicAction, PeriodicActionModel};
use crate::requests::TokenRequest;
use crate::schedule::{TaskAction, TaskActionModel, TaskEvent, TaskEventModel, TaskStep};
use crate::streaming::{PolicyReading, StreamingAssessment, StreamingError};
use crate::verification::{
    Action, ActionModel, Progress, ProgressModel, Reply, ReplyModel, Session, Step,
};
use crate::web_url::{parsed_model, UrlParts};

verus! {

/// The model of an optional text holds the text.
pub open spec fn same_text(text: Option<String>, model: Option<Seq<char>>) -> bool {
    match (text, model) {
        (Some(text), Some(model)) => text@ == model,
        (None, None) => true,
        _ => false,
    }
}

/// The model of a configuration holds every setting unchanged.
pub proof fn configuration_is_held(config: AzureVerifyConfig)
    ensures
        config.deep_view().endpoint == config.endpoint@,
        config.deep_view().tenant_id == config.tenant_id@,
        config.deep_view().subscription_id == config.subscription_id@,
        config.deep_view().resource_group == config.resource_group@,
        config.deep_view().client_id == config.client_id@,
        config.deep_view().client_secret == config.client_secret@,
        config.deep_view().require_async_filter == config.require_async_filter,
{
}

/// The model of the periodic settings holds the interval and the limit, and what they were raised
/// from.
pub proof fn periodic_settings_are_held(settings: PeriodicAzureVerifySettings)
    ensures
        settings.deep_view().interval_secs.value == settings.interval_secs.value,
        settings.deep_view().transient_failure_limit.value
            == settings.transient_failure_limit.value,
        match settings.interval_secs.raised_from {
            Some(n) => settings.deep_view().interval_secs.raised_from == Some(n as int),
            None => settings.deep_view().interval_secs.raised_from is None,
        },
        match settings.transient_failure_limit.raised_from {
            Some(n) => settings.deep_view().transient_failure_limit.raised_from == Some(n as int),
            None => settings.deep_view().transient_failure_limit.raised_from is None,
        },
{
}

/// The model of an environment holds its variables in their order, with their names and values.
pub proof fn environment_is_held(env: Environment, i: int)
    ensures
        env.deep_view().len() == env.vars@.len(),
        0 <= i < env.vars@.len() ==> env.deep_view()[i].name == env.vars@[i].name@
            && match env.vars@[i].value {
            EnvValue::Text(text) => env.deep_view()[i].value == EnvValueModel::Text(text@),
            EnvValue::NotUnicode(reason) => env.deep_view()[i].value == EnvValueModel::NotUnicode(
                reason@,
            ),
        },
{
}

/// The model of a URL holds its parts.
pub proof fn url_is_held(url: UrlParts)
    ensures
        url.deep_view().scheme == url.scheme@,
        url.deep_view().username == url.username@,
        same_text(url.password, url.deep_view().password),
        same_text(url.host, url.deep_view().host),
{
}

/// The model of an endpoint holds its parts.
pub proof fn endpoint_is_held(endpoint: AzureEndpoint)
    ensures
        endpoint.deep_view().host == endpoint.host@,
        endpoint.deep_view().account_name == endpoint.account_name@,
        endpoint.deep_view().suffix == endpoint.suffix@,
{
}

/// The model of an account holds its texts and its two JSON properties.
pub proof fn account_is_held(account: ArmAccount)
    ensures
        account.deep_view().id == account.id@,
        account.deep_view().kind == account.kind@,
        same_text(
            account.properties.custom_sub_domain_name,
            account.deep_view().custom_sub_domain_name,
        ),
        same_text(account.properties.endpoint, account.deep_view().endpoint),
        account.deep_view().rai_monitor_config == account.properties.rai_monitor_config,
        account.deep_view().user_owned_storage == account.properties.user_owned_storage,
{
}

/// The model of diagnostic settings holds their logs in their order, and how many of the four
/// destinations each has.
pub proof fn diagnostic_settings_are_held(settings: DiagnosticSettingsList, i: int, j: int)
    ensures
        settings.deep_view().len() == settings.value@.len(),
        0 <= i < settings.value@.len() ==> ({
            let properties = settings.value@[i].properties;
            let log = properties.logs@[j];
            let model = settings.deep_view()[i];
            &&& model.logs.len() == properties.logs@.len()
            &&& 0 <= j < properties.logs@.len() ==> {
                &&& same_text(log.category, model.logs[j].category)
                &&& same_text(log.category_group, model.logs[j].category_group)
                &&& model.logs[j].enabled == log.enabled
            }
            &&& model.destinations == (if properties.workspace_id is Some {
                1int
            } else {
                0
            }) + (if properties.storage_account_id is Some {
                1int
            } else {
                0
            }) + (if properties.event_hub_authorization_rule_id is Some {
                1int
            } else {
                0
            }) + (if properties.marketplace_partner_id is Some {
                1int
            } else {
                0
            })
        }),
{
}

/// The model of a warning holds what it shows.
pub proof fn warning_is_held(warning: DiagnosticWarning)
    ensures
        warning.deep_view().category == warning.category@,
        warning.deep_view().category_group == warning.category_group@,
        warning.deep_view().destinations == warning.destinations,
{
}

/// The model of deployments holds them in their order, with their names and policies.
pub proof fn deployments_are_held(deployments: DeploymentList, i: int)
    ensures
        deployments.deep_view().len() == deployments.value@.len(),
        0 <= i < deployments.value@.len() ==> {
            &&& same_text(deployments.value@[i].name, deployments.deep_view()[i].name)
            &&& same_text(
                deployments.value@[i].rai_policy_name,
                deployments.deep_view()[i].rai_policy_name,
            )
        },
{
}

/// The model of a reading holds the policy and its mode.
pub proof fn reading_is_held(reading: PolicyReading)
    ensures
        reading.deep_view().policy_name == reading.policy_name@,
        same_text(reading.mode, reading.deep_view().mode),
{
}

/// The model of an assessment holds the number of deployments and those that are listed, in their
/// order; that of a refusal holds the same list.
pub proof fn assessment_is_held(assessment: StreamingAssessment, error: StreamingError, i: int)
    ensures
        assessment.deep_view().deployment_count == assessment.deployment_count,
        assessment.deep_view().synchronous.len() == assessment.synchronous@.len(),
        0 <= i < assessment.synchronous@.len() ==> ({
            let listed = assessment.synchronous@[i];
            let model = assessment.deep_view().synchronous[i];
            &&& same_text(listed.name, model.name)
            &&& same_text(listed.policy, model.policy)
            &&& same_text(listed.mode, model.mode)
        }),
        error.synchronous@ == assessment.synchronous@ ==> error.deep_view()
            == assessment.deep_view().synchronous,
{
    if error.synchronous@ == assessment.synchronous@ {
        assert(error.deep_view() =~= assessment.deep_view().synchronous);
    }
}

/// The model of a token request holds the URL and the fields of the form in their order.
pub proof fn token_request_is_held(request: TokenRequest, i: int)
    ensures
        request.deep_view().url == request.url@,
        request.deep_view().form.len() == request.form@.len(),
        0 <= i < request.form@.len() ==> request.deep_view().form[i] == (
            request.form@[i].0@,
            request.form@[i].1@,
        ),
{
}

/// The model of a refused setting holds its name, the problem and the cause.
pub proof fn setting_error_is_held(error: SettingError)
    ensures
        error.deep_view().name == error.name@,
        error.deep_view().problem == error.problem,
        same_text(error.cause, error.deep_view().cause),
{
}

/// The model of a refused endpoint holds what was refused.
pub proof fn endpoint_error_is_held(error: EndpointError)
    ensures
        match error {
            EndpointError::Unparsable { endpoint, reason } => error.deep_view() == (
            EndpointErrorModel::Unparsable { endpoint: endpoint@, reason: reason@ }),
            EndpointError::NotHttps => error.deep_view() is NotHttps,
            EndpointError::Userinfo => error.deep_view() is Userinfo,
            EndpointError::NoHost => error.deep_view() is NoHost,
            EndpointError::InvalidHost(invalid) => {
                &&& error.deep_view() matches EndpointErrorModel::InvalidHost(model)
                &&& model.label == invalid.label@
                &&& model.host == invalid.host@
            },
            EndpointError::SuffixNotAllowed { host } => error.deep_view() == (
            EndpointErrorModel::SuffixNotAllowed { host: host@ }),
        },
{
}

/// The model of a failed binding check holds what was refused.
pub proof fn binding_error_is_held(error: BindingError)
    ensures
        match error {
            BindingError::KindNotAllowed { kind } => error.deep_view() == (
            BindingErrorModel::KindNotAllowed { kind: kind@ }),
            BindingError::SubdomainMissing => error.deep_view() is SubdomainMissing,
            BindingError::SubdomainEmpty => error.deep_view() is SubdomainEmpty,
            BindingError::SubdomainMismatch { subdomain, account_label } => error.deep_view() == (
            BindingErrorModel::SubdomainMismatch {
                subdomain: subdomain@,
                account_label: account_label@,
            }),
            BindingError::EndpointMissing => error.deep_view() is EndpointMissing,
            BindingError::EndpointUnparsable { endpoint, reason } => error.deep_view() == (
            BindingErrorModel::EndpointUnparsable { endpoint: endpoint@, reason: reason@ }),
            BindingError::EndpointNotHttps => error.deep_view() is EndpointNotHttps,
            BindingError::EndpointUserinfo => error.deep_view() is EndpointUserinfo,
            BindingError::EndpointNoHost => error.deep_view() is EndpointNoHost,
            BindingError::HostUnexpected { host, expected } => error.deep_view() == (
            BindingErrorModel::HostUnexpected { host: host@, expected: expected@ }),
            BindingError::HostMismatch { host, configured } => error.deep_view() == (
            BindingErrorModel::HostMismatch { host: host@, configured: configured@ }),
            BindingError::RaiMonitorConfigured => error.deep_view() is RaiMonitorConfigured,
            BindingError::UserOwnedStorage => error.deep_view() is UserOwnedStorage,
            BindingError::IdEmpty => error.deep_view() is IdEmpty,
        },
{
}

/// The model of a transport failure holds what was attempted and the causes in their order.
pub proof fn transport_failure_is_held(failure: TransportFailure, i: int)
    ensures
        failure.deep_view().attempt == failure.attempt@,
        failure.deep_view().causes.len() == failure.causes@.len(),
        0 <= i < failure.causes@.len() ==> {
            &&& failure.deep_view().causes[i].text == failure.causes@[i].text@
            &&& failure.deep_view().causes[i].client == failure.causes@[i].client
        },
{
}

/// The model of a failed verification holds what it failed of.
pub proof fn verify_error_is_held(error: VerifyError)
    ensures
        match error {
            VerifyError::Endpoint(inner) => error.deep_view() == VerifyErrorModel::Endpoint(
                inner.deep_view(),
            ),
            VerifyError::Transport(inner) => error.deep_view() == VerifyErrorModel::Transport(
                inner.deep_view(),
            ),
            VerifyError::HttpStatus(inner) => {
                &&& error.deep_view() matches VerifyErrorModel::HttpStatus(model)
                &&& model.label == inner.label@
                &&& model.status == inner.status
                &&& model.body == inner.body@
            },
            VerifyError::EmptyAccessToken => error.deep_view() is EmptyAccessToken,
            VerifyError::Binding(inner) => error.deep_view() == VerifyErrorModel::Binding(
                inner.deep_view(),
            ),
            VerifyError::RelativeResourceId { resource_id } => error.deep_view() == (
            VerifyErrorModel::RelativeResourceId { resource_id: resource_id@ }),
            VerifyError::Streaming(inner) => error.deep_view() == VerifyErrorModel::Streaming(
                inner.deep_view(),
            ),
            VerifyError::UnexpectedReply => error.deep_view() is UnexpectedReply,
        },
{
}

/// The model of a reply holds the document, or what went wrong.
pub proof fn reply_is_held(reply: Reply)
    ensures
        match reply {
            Reply::Transport(failure) => reply.deep_view() == ReplyModel::Transport(
                failure.deep_view(),
            ),
            Reply::Refused { status, body } => reply.deep_view() == (ReplyModel::Refused {
                status,
                body: body@,
            }),
            Reply::Token(token) => reply.deep_view() == ReplyModel::Token(token.access_token@),
            Reply::Account(account) => reply.deep_view() == ReplyModel::Account(
                account.deep_view(),
            ),
            Reply::DiagnosticSettings(settings) => reply.deep_view()
                == ReplyModel::DiagnosticSettings(settings.deep_view()),
            Reply::Deployments(deployments) => reply.deep_view() == ReplyModel::Deployments(
                deployments.deep_view(),
            ),
            Reply::Policy(policy) => reply.deep_view() matches ReplyModel::Policy(mode)
                && same_text(policy.mode, mode),
        },
{
}

/// The model of an action holds what is sent, reported or told.
pub proof fn action_is_held(action: Action)
    ensures
        match action {
            Action::PostToken(request) => action.deep_view() == ActionModel::PostToken(
                request.deep_view(),
            ),
            Action::Get { url, token, label, document } => action.deep_view() == (
            ActionModel::Get { url: url@, token: token@, label: label@, document }),
            Action::Pass(report) => {
                &&& action.deep_view() matches ActionModel::Pass(model)
                &&& model.host == report.host@
                &&& model.resource_id == report.resource_id@
                &&& model.streaming == report.streaming.deep_view()
            },
            Action::Fail(error) => action.deep_view() == ActionModel::Fail(error.deep_view()),
        },
{
}

/// The model of a session holds the endpoint, the token and the identifier.
pub proof fn session_is_held(session: Session)
    ensures
        session.deep_view().endpoint == session.endpoint.deep_view(),
        session.deep_view().token == session.token@,
        session.deep_view().resource_id == session.resource_id@,
{
}

/// The model of the progress holds what is waited for and what is needed by then.
pub proof fn progress_is_held(progress: Progress)
    ensures
        match progress {
            Progress::Token { endpoint } => progress.deep_view() == (ProgressModel::Token {
                endpoint: endpoint.deep_view(),
            }),
            Progress::Account { endpoint, token } => progress.deep_view() == (
            ProgressModel::Account { endpoint: endpoint.deep_view(), token: token@ }),
            Progress::Diagnostics { session } => progress.deep_view() == (
            ProgressModel::Diagnostics { session: session.deep_view() }),
            Progress::Deployments { session } => progress.deep_view() == (
            ProgressModel::Deployments { session: session.deep_view() }),
            Progress::Policies { session, deployments, readings, current, rest } => {
                &&& progress.deep_view() is Policies
                &&& progress.deep_view()->Policies_session == session.deep_view()
                &&& progress.deep_view()->deployments == deployments.deep_view()
                &&& progress.deep_view()->readings == readings.deep_view()
                &&& progress.deep_view()->current == current@
                &&& progress.deep_view()->rest == rest.deep_view()
            },
            Progress::Finished => progress.deep_view() is Finished,
        },
{
}

/// The model of a step holds its progress, its action and its warnings in their order.
pub proof fn step_is_held(step: Step, i: int)
    ensures
        step.deep_view().progress == step.progress.deep_view(),
        step.deep_view().action == step.action.deep_view(),
        step.deep_view().warnings.len() == step.warnings@.len(),
        0 <= i < step.warnings@.len() ==> step.deep_view().warnings[i]
            == step.warnings@[i].deep_view(),
{
}

/// The model of what an outcome means holds the counts and the reason.
pub proof fn periodic_action_is_held(action: PeriodicAction)
    ensures
        match action {
            PeriodicAction::Healthy => action.deep_view() is Healthy,
            PeriodicAction::Recovered { after } => action.deep_view() == (
            PeriodicActionModel::Recovered { after: after as int }),
            PeriodicAction::Tolerate { failures } => action.deep_view() == (
            PeriodicActionModel::Tolerate { failures: failures as int }),
            PeriodicAction::StopOnDefinitive { reason } => action.deep_view() == (
            PeriodicActionModel::StopOnDefinitive { reason: reason@ }),
            PeriodicAction::StopOnTransient { failures, reason } => action.deep_view() == (
            PeriodicActionModel::StopOnTransient { failures: failures as int, reason: reason@ }),
        },
{
}

/// The model of an event of the task holds the outcome, and whether there was a receiver.
pub proof fn task_event_is_held(event: TaskEvent)
    ensures
        match event {
            TaskEvent::Slept => event.deep_view() is Slept,
            TaskEvent::Verified(Ok(())) => event.deep_view() matches TaskEventModel::Verified(
                outcome,
            ) && outcome is Ok,
            TaskEvent::Verified(Err(error)) => event.deep_view() matches TaskEventModel::Verified(
                outcome,
            ) && outcome matches Err(model) && model == error.deep_view(),
            TaskEvent::Sent { received } => event.deep_view() == (TaskEventModel::Sent {
                received,
            }),
        },
{
}

/// The model of a step of the task holds its progress, its action and what is noticed.
pub proof fn task_step_is_held(step: TaskStep)
    ensures
        step.deep_view().progress == step.progress,
        match step.notice {
            Some(notice) => step.deep_view().notice == Some(notice.deep_view()),
            None => step.deep_view().notice is None,
        },
        match step.action {
            TaskAction::Sleep { secs } => step.deep_view().action == (TaskActionModel::Sleep {
                secs,
            }),
            TaskAction::Verify => step.deep_view().action is Verify,
            TaskAction::Send { reason } => step.deep_view().action == (TaskActionModel::Send {
                reason: reason@,
            }),
            TaskAction::Return => step.deep_view().action is Return,
        },
{
}

/// The models of results hold the success or the error that the results are.
pub proof fn results_are_held(
    endpoint: AzureEndpoint,
    endpoint_error: EndpointError,
    id: &str,
    binding_error: BindingError,
    url: UrlParts,
    reason: String,
    error: VerifyError,
)
    ensures
        endpoint_result_model(Ok(endpoint)) == Ok::<_, EndpointErrorModel>(endpoint.deep_view()),
        endpoint_result_model(Err(endpoint_error)) matches Err(model) && model
            == endpoint_error.deep_view(),
        binding_result_model(Ok(id)) == Ok::<_, BindingErrorModel>(id@),
        binding_result_model(Err(binding_error)) == Err::<Seq<char>, _>(binding_error.deep_view()),
        parsed_model(Ok(url)) == Ok::<_, Seq<char>>(url.deep_view()),
        parsed_model(Err(reason)) matches Err(words) && words == reason@,
        outcome_model(Ok(())) is Ok,
        outcome_model(Err(error)) == Err::<(), _>(error.deep_view()),
{
}

} // verus!
