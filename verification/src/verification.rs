//! One verification, as a conversation: an action for every reply.
//!
//! Whoever runs a verification performs the action, and hands back what came of it, until the
//! verification passes or fails.
use vstd::prelude::*;

use crate::arm::{
    AccountModel, ArmAccount, DeploymentList, DeploymentModel, DiagnosticSettingsList, RaiPolicy,
    SettingModel, TokenResponse,
};
use crate::checks::{assert_account_binding, binding_outcome, url_of_account};
use crate::config::{AzureVerifyConfig, ConfigModel};
use crate::diagnostics::{
    setting_warnings, warn_on_unexpected_diagnostic_logs, DiagnosticWarning, WarningModel,
};
use crate::endpoint::{
    endpoint_outcome, parse_azure_openai_endpoint, AzureEndpoint, EndpointModel,
};
use crate::error::{
    is_success, is_success_status, AzureHttpStatusError, HttpErrorModel, TransportFailure,
    TransportModel, VerifyError, VerifyErrorModel,
};
use crate::requests::{
    account_url, arm_account_url, arm_deployments_url, arm_policy_url, deployments_url,
    diagnostic_settings_url, diagnostics_url, entra_token_request, policy_url, token_request,
    TokenRequest, TokenRequestModel,
};
use crate::streaming::{
    assess_streaming_configuration, assessment_of, is_refused, policies_of, referenced_policies,
    require_streaming, synchronous, AssessmentModel, PolicyReading, ReadingModel,
    StreamingAssessment,
};
use crate::text::{is_blank, joined, lemma_trim_empty, trimmed, trims_to_nothing};
use crate::web_url::parsed_url;

verus! {

/// What messages call the token request.
pub const TOKEN_LABEL: &'static str = "Entra token";

/// What messages call the account request.
pub const ACCOUNT_LABEL: &'static str = "Azure Cognitive Services account";

/// What messages call the request for diagnostic settings.
pub const DIAGNOSTICS_LABEL: &'static str = "Azure diagnostic settings";

/// What messages call the request for deployments.
pub const DEPLOYMENTS_LABEL: &'static str = "Azure deployments";

/// What messages call the request for a policy.
pub const POLICY_LABEL: &'static str = "Azure RAI policy";

/// What is known once the account is bound.
#[derive(Debug, PartialEq, Eq)]
pub struct Session {
    pub endpoint: AzureEndpoint,
    pub token: String,
    pub resource_id: String,
}

/// The mathematical model of [`Session`].
pub struct SessionModel {
    pub endpoint: EndpointModel,
    pub token: Seq<char>,
    pub resource_id: Seq<char>,
}

impl DeepView for Session {
    type V = SessionModel;

    open spec fn deep_view(&self) -> SessionModel {
        SessionModel {
            endpoint: self.endpoint.deep_view(),
            token: self.token@,
            resource_id: self.resource_id@,
        }
    }
}

/// How far a verification has come: what it waits for, and what it needs by then.
#[derive(Debug, PartialEq, Eq)]
pub enum Progress {
    /// It waits for the token.
    Token { endpoint: AzureEndpoint },
    /// It waits for the account.
    Account { endpoint: AzureEndpoint, token: String },
    /// It waits for the diagnostic settings.
    Diagnostics { session: Session },
    /// It waits for the deployments.
    Deployments { session: Session },
    /// It waits for the policy `current`, and will then ask for those in `rest`.
    Policies {
        session: Session,
        deployments: DeploymentList,
        readings: Vec<PolicyReading>,
        current: String,
        rest: Vec<String>,
    },
    /// It has passed or failed.
    Finished,
}

/// The mathematical model of [`Progress`].
pub enum ProgressModel {
    Token { endpoint: EndpointModel },
    Account { endpoint: EndpointModel, token: Seq<char> },
    Diagnostics { session: SessionModel },
    Deployments { session: SessionModel },
    Policies {
        session: SessionModel,
        deployments: Seq<DeploymentModel>,
        readings: Seq<ReadingModel>,
        current: Seq<char>,
        rest: Seq<Seq<char>>,
    },
    Finished,
}

impl DeepView for Progress {
    type V = ProgressModel;

    open spec fn deep_view(&self) -> ProgressModel {
        match self {
            Progress::Token { endpoint } => ProgressModel::Token { endpoint: endpoint.deep_view() },
            Progress::Account { endpoint, token } => ProgressModel::Account {
                endpoint: endpoint.deep_view(),
                token: token@,
            },
            Progress::Diagnostics { session } => ProgressModel::Diagnostics {
                session: session.deep_view(),
            },
            Progress::Deployments { session } => ProgressModel::Deployments {
                session: session.deep_view(),
            },
            Progress::Policies {
                session,
                deployments,
                readings,
                current,
                rest,
            } => ProgressModel::Policies {
                session: session.deep_view(),
                deployments: deployments.deep_view(),
                readings: readings.deep_view(),
                current: current@,
                rest: rest.deep_view(),
            },
            Progress::Finished => ProgressModel::Finished,
        }
    }
}

/// What came of an action.
#[derive(Debug, PartialEq, Eq)]
pub enum Reply {
    /// The request was not answered, or the answer could not be read.
    Transport(TransportFailure),
    /// The status of the answer does not report success.
    Refused { status: u16, body: String },
    Token(TokenResponse),
    Account(ArmAccount),
    DiagnosticSettings(DiagnosticSettingsList),
    Deployments(DeploymentList),
    Policy(RaiPolicy),
}

/// The mathematical model of [`Reply`].
pub enum ReplyModel {
    Transport(TransportModel),
    Refused { status: u16, body: Seq<char> },
    Token(Seq<char>),
    Account(AccountModel),
    DiagnosticSettings(Seq<SettingModel>),
    Deployments(Seq<DeploymentModel>),
    Policy(Option<Seq<char>>),
}

impl DeepView for Reply {
    type V = ReplyModel;

    open spec fn deep_view(&self) -> ReplyModel {
        match self {
            Reply::Transport(failure) => ReplyModel::Transport(failure.deep_view()),
            Reply::Refused { status, body } => ReplyModel::Refused {
                status: *status,
                body: body@,
            },
            Reply::Token(token) => ReplyModel::Token(token.access_token@),
            Reply::Account(account) => ReplyModel::Account(account.deep_view()),
            Reply::DiagnosticSettings(settings) => ReplyModel::DiagnosticSettings(
                settings.deep_view(),
            ),
            Reply::Deployments(deployments) => ReplyModel::Deployments(deployments.deep_view()),
            Reply::Policy(policy) => ReplyModel::Policy(policy.mode.deep_view()),
        }
    }
}

/// The documents that are read from the management API.
#[derive(Debug, Clone, Copy, PartialEq, Eq)]
pub enum Document {
    Account,
    DiagnosticSettings,
    Deployments,
    Policy,
}

/// What a passed verification has found.
#[derive(Debug, PartialEq, Eq)]
pub struct VerifyReport {
    pub host: String,
    pub resource_id: String,
    pub streaming: StreamingAssessment,
}

/// The mathematical model of [`VerifyReport`].
pub struct ReportModel {
    pub host: Seq<char>,
    pub resource_id: Seq<char>,
    pub streaming: AssessmentModel,
}

impl DeepView for VerifyReport {
    type V = ReportModel;

    open spec fn deep_view(&self) -> ReportModel {
        ReportModel {
            host: self.host@,
            resource_id: self.resource_id@,
            streaming: self.streaming.deep_view(),
        }
    }
}

/// What is to be done next.
#[derive(Debug, PartialEq, Eq)]
pub enum Action {
    /// Post the form and answer with [`Reply::Token`].
    PostToken(TokenRequest),
    /// Read a document under the bearer token.
    Get { url: String, token: String, label: &'static str, document: Document },
    /// Nothing: the verification has passed.
    Pass(VerifyReport),
    /// Nothing: the verification has failed.
    Fail(VerifyError),
}

/// The mathematical model of [`Action`].
pub enum ActionModel {
    PostToken(TokenRequestModel),
    Get { url: Seq<char>, token: Seq<char>, label: Seq<char>, document: Document },
    Pass(ReportModel),
    Fail(VerifyErrorModel),
}

impl DeepView for Action {
    type V = ActionModel;

    open spec fn deep_view(&self) -> ActionModel {
        match self {
            Action::PostToken(request) => ActionModel::PostToken(request.deep_view()),
            Action::Get { url, token, label, document } => ActionModel::Get {
                url: url@,
                token: token@,
                label: label@,
                document: *document,
            },
            Action::Pass(report) => ActionModel::Pass(report.deep_view()),
            Action::Fail(error) => ActionModel::Fail(error.deep_view()),
        }
    }
}

/// Where a reply leads: the progress, the warnings to be given now, and the next action.
#[derive(Debug, PartialEq, Eq)]
pub struct Step {
    pub progress: Progress,
    pub warnings: Vec<DiagnosticWarning>,
    pub action: Action,
}

/// The mathematical model of [`Step`].
pub struct StepModel {
    pub progress: ProgressModel,
    pub warnings: Seq<WarningModel>,
    pub action: ActionModel,
}

impl DeepView for Step {
    type V = StepModel;

    open spec fn deep_view(&self) -> StepModel {
        StepModel {
            progress: self.progress.deep_view(),
            warnings: self.warnings.deep_view(),
            action: self.action.deep_view(),
        }
    }
}

/// What an action attempts when it sends a request, in words.
pub open spec fn attempt_of(action: ActionModel) -> Option<Seq<char>> {
    match action {
        ActionModel::PostToken(request) => Some("POST "@ + request.url),
        ActionModel::Get { url, .. } => Some("GET "@ + url),
        _ => None,
    }
}

/// What an action attempts when it sends a request, in words, or nothing where it sends none.
pub fn send_attempt(action: &Action) -> (res: Option<String>)
    ensures
        res.deep_view() == attempt_of(action.deep_view()),
        match action {
            Action::PostToken(request) => res matches Some(words) && words@ == "POST "@
                + request.url@,
            Action::Get { url, .. } => res matches Some(words) && words@ == "GET "@ + url@,
            Action::Pass(_) => res is None,
            Action::Fail(_) => res is None,
        },
{
    match action {
        Action::PostToken(request) => Some(joined("POST ", request.url.as_str())),
        Action::Get { url, .. } => Some(joined("GET ", url.as_str())),
        _ => None,
    }
}

/// What is attempted when the answer to the request `label` is read, in words.
pub fn read_attempt(label: &str) -> (res: String)
    ensures
        res@ == "parse "@ + label@ + " response"@,
{
    let mut res = joined("parse ", label);
    res.append(" response");
    res
}

/// The step that ends a verification with an error.
pub open spec fn failing(error: VerifyErrorModel) -> StepModel {
    StepModel {
        progress: ProgressModel::Finished,
        warnings: seq![],
        action: ActionModel::Fail(error),
    }
}

/// The step that asks for a document.
pub open spec fn asking(
    progress: ProgressModel,
    warnings: Seq<WarningModel>,
    url: Seq<char>,
    token: Seq<char>,
    label: Seq<char>,
    document: Document,
) -> StepModel {
    StepModel { progress, warnings, action: ActionModel::Get { url, token, label, document } }
}

/// What messages call the request that is waited for.
pub open spec fn awaited_label(progress: ProgressModel) -> Seq<char> {
    match progress {
        ProgressModel::Token { .. } => TOKEN_LABEL@,
        ProgressModel::Account { .. } => ACCOUNT_LABEL@,
        ProgressModel::Diagnostics { .. } => DIAGNOSTICS_LABEL@,
        ProgressModel::Deployments { .. } => DEPLOYMENTS_LABEL@,
        ProgressModel::Policies { .. } => POLICY_LABEL@,
        ProgressModel::Finished => ""@,
    }
}

/// The first step: the endpoint is checked, then the token is asked for.
pub open spec fn first_step(config: ConfigModel) -> StepModel {
    match endpoint_outcome(config.endpoint, parsed_url(config.endpoint)) {
        Err(error) => failing(VerifyErrorModel::Endpoint(error)),
        Ok(endpoint) => StepModel {
            progress: ProgressModel::Token { endpoint },
            warnings: seq![],
            action: ActionModel::PostToken(token_request(config)),
        },
    }
}

/// The step after the token.
pub open spec fn step_after_token(
    config: ConfigModel,
    endpoint: EndpointModel,
    token: Seq<char>,
) -> StepModel {
    if is_blank(token) {
        failing(VerifyErrorModel::EmptyAccessToken)
    } else {
        asking(
            ProgressModel::Account { endpoint, token },
            seq![],
            account_url(config, endpoint.account_name),
            token,
            ACCOUNT_LABEL@,
            Document::Account,
        )
    }
}

/// The step after the account.
pub open spec fn step_after_account(
    endpoint: EndpointModel,
    token: Seq<char>,
    account: AccountModel,
) -> StepModel {
    match binding_outcome(endpoint, account, url_of_account(account)) {
        Err(error) => failing(VerifyErrorModel::Binding(error)),
        Ok(resource_id) => match diagnostics_url(resource_id) {
            None => failing(VerifyErrorModel::RelativeResourceId { resource_id }),
            Some(url) => asking(
                ProgressModel::Diagnostics {
                    session: SessionModel { endpoint, token, resource_id },
                },
                seq![],
                url,
                token,
                DIAGNOSTICS_LABEL@,
                Document::DiagnosticSettings,
            ),
        },
    }
}

/// The step after the diagnostic settings, which never fail a verification.
pub open spec fn step_after_diagnostics(
    config: ConfigModel,
    session: SessionModel,
    settings: Seq<SettingModel>,
) -> StepModel {
    asking(
        ProgressModel::Deployments { session },
        setting_warnings(settings),
        deployments_url(config, session.endpoint.account_name),
        session.token,
        DEPLOYMENTS_LABEL@,
        Document::Deployments,
    )
}

/// The last step, once all policies are read.
pub open spec fn last_step(
    config: ConfigModel,
    session: SessionModel,
    deployments: Seq<DeploymentModel>,
    readings: Seq<ReadingModel>,
) -> StepModel {
    let assessment = assessment_of(deployments, readings);
    if is_refused(assessment, config.require_async_filter) {
        failing(VerifyErrorModel::Streaming(assessment.synchronous))
    } else {
        StepModel {
            progress: ProgressModel::Finished,
            warnings: seq![],
            action: ActionModel::Pass(
                ReportModel {
                    host: session.endpoint.host,
                    resource_id: session.resource_id,
                    streaming: assessment,
                },
            ),
        }
    }
}

/// The step that asks for the first of the policies that are still to be read, or the last step.
pub open spec fn step_to_policies(
    config: ConfigModel,
    session: SessionModel,
    deployments: Seq<DeploymentModel>,
    readings: Seq<ReadingModel>,
    unread: Seq<Seq<char>>,
) -> StepModel {
    if unread.len() == 0 {
        last_step(config, session, deployments, readings)
    } else {
        asking(
            ProgressModel::Policies {
                session,
                deployments,
                readings,
                current: unread[0],
                rest: unread.drop_first(),
            },
            seq![],
            policy_url(config, session.endpoint.account_name, unread[0]),
            session.token,
            POLICY_LABEL@,
            Document::Policy,
        )
    }
}

/// Where a reply leads.
pub open spec fn next_step(
    config: ConfigModel,
    progress: ProgressModel,
    reply: ReplyModel,
) -> StepModel {
    match (progress, reply) {
        (ProgressModel::Finished, _) => failing(VerifyErrorModel::UnexpectedReply),
        (_, ReplyModel::Transport(failure)) => failing(VerifyErrorModel::Transport(failure)),
        (_, ReplyModel::Refused { status, body }) => if is_success(status) {
            failing(VerifyErrorModel::UnexpectedReply)
        } else {
            failing(
                VerifyErrorModel::HttpStatus(
                    HttpErrorModel { label: awaited_label(progress), status, body },
                ),
            )
        },
        (ProgressModel::Token { endpoint }, ReplyModel::Token(token)) => step_after_token(
            config,
            endpoint,
            token,
        ),
        (
            ProgressModel::Account { endpoint, token },
            ReplyModel::Account(account),
        ) => step_after_account(endpoint, token, account),
        (
            ProgressModel::Diagnostics { session },
            ReplyModel::DiagnosticSettings(settings),
        ) => step_after_diagnostics(config, session, settings),
        (
            ProgressModel::Deployments { session },
            ReplyModel::Deployments(deployments),
        ) => step_to_policies(config, session, deployments, seq![], policies_of(deployments)),
        (
            ProgressModel::Policies { session, deployments, readings, current, rest },
            ReplyModel::Policy(mode),
        ) => step_to_policies(
            config,
            session,
            deployments,
            readings.push(ReadingModel { policy_name: current, mode }),
            rest,
        ),
        _ => failing(VerifyErrorModel::UnexpectedReply),
    }
}

/// The step that ends a verification with an error.
fn fail(error: VerifyError) -> (res: Step)
    ensures
        res.deep_view() == failing(error.deep_view()),
{
    Step { progress: Progress::Finished, warnings: no_warnings(), action: Action::Fail(error) }
}

/// The step that asks for a document.
fn ask(
    progress: Progress,
    warnings: Vec<DiagnosticWarning>,
    url: String,
    token: String,
    label: &'static str,
    document: Document,
) -> (res: Step)
    ensures
        res.deep_view() == asking(
            progress.deep_view(),
            warnings.deep_view(),
            url@,
            token@,
            label@,
            document,
        ),
{
    Step { progress, warnings, action: Action::Get { url, token, label, document } }
}

/// No warnings.
fn no_warnings() -> (res: Vec<DiagnosticWarning>)
    ensures
        res.deep_view() == Seq::<WarningModel>::empty(),
{
    let warnings: Vec<DiagnosticWarning> = Vec::new();
    assert(warnings.deep_view() =~= Seq::<WarningModel>::empty());
    warnings
}

/// Begins a verification: checks the endpoint, then asks for the token.
pub fn begin_verification(config: &AzureVerifyConfig) -> (res: Step)
    ensures
        res.deep_view() == first_step(config.deep_view()),
{
    match parse_azure_openai_endpoint(config.endpoint.as_str()) {
        Err(error) => fail(VerifyError::Endpoint(error)),
        Ok(endpoint) => Step {
            progress: Progress::Token { endpoint },
            warnings: no_warnings(),
            action: Action::PostToken(entra_token_request(config)),
        },
    }
}

/// Takes the token.
fn take_token(config: &AzureVerifyConfig, endpoint: AzureEndpoint, token: String) -> (res: Step)
    ensures
        res.deep_view() == step_after_token(config.deep_view(), endpoint.deep_view(), token@),
{
    if trims_to_nothing(token.as_str()) {
        return fail(VerifyError::EmptyAccessToken);
    }
    let url = arm_account_url(config, endpoint.account_name.as_str());
    let bearer = token.clone();
    ask(
        Progress::Account { endpoint, token },
        no_warnings(),
        url,
        bearer,
        ACCOUNT_LABEL,
        Document::Account,
    )
}

/// Takes the account.
fn take_account(endpoint: AzureEndpoint, token: String, account: &ArmAccount) -> (res: Step)
    ensures
        res.deep_view() == step_after_account(endpoint.deep_view(), token@, account.deep_view()),
{
    let resource_id = match assert_account_binding(&endpoint, account) {
        Err(error) => return fail(VerifyError::Binding(error)),
        Ok(id) => id.to_owned(),
    };
    match diagnostic_settings_url(resource_id.as_str()) {
        None => fail(VerifyError::RelativeResourceId { resource_id }),
        Some(url) => {
            let bearer = token.clone();
            ask(
                Progress::Diagnostics { session: Session { endpoint, token, resource_id } },
                no_warnings(),
                url,
                bearer,
                DIAGNOSTICS_LABEL,
                Document::DiagnosticSettings,
            )
        },
    }
}

/// Takes the diagnostic settings.
fn take_diagnostics(
    config: &AzureVerifyConfig,
    session: Session,
    settings: &DiagnosticSettingsList,
) -> (res: Step)
    ensures
        res.deep_view() == step_after_diagnostics(
            config.deep_view(),
            session.deep_view(),
            settings.deep_view(),
        ),
{
    let warnings = warn_on_unexpected_diagnostic_logs(settings);
    let url = arm_deployments_url(config, session.endpoint.account_name.as_str());
    let bearer = session.token.clone();
    ask(
        Progress::Deployments { session },
        warnings,
        url,
        bearer,
        DEPLOYMENTS_LABEL,
        Document::Deployments,
    )
}

/// Concludes a verification whose policies are all read.
fn conclude(
    config: &AzureVerifyConfig,
    session: Session,
    deployments: &DeploymentList,
    readings: &Vec<PolicyReading>,
) -> (res: Step)
    ensures
        res.deep_view() == last_step(
            config.deep_view(),
            session.deep_view(),
            deployments.deep_view(),
            readings.deep_view(),
        ),
{
    let assessment = assess_streaming_configuration(deployments, readings);
    match require_streaming(assessment, config.require_async_filter) {
        Err(error) => fail(VerifyError::Streaming(error)),
        Ok(streaming) => Step {
            progress: Progress::Finished,
            warnings: no_warnings(),
            action: Action::Pass(
                VerifyReport {
                    host: session.endpoint.host,
                    resource_id: session.resource_id,
                    streaming,
                },
            ),
        },
    }
}

/// Asks for the first of the policies that are still to be read, or concludes.
fn ask_for_policies(
    config: &AzureVerifyConfig,
    session: Session,
    deployments: DeploymentList,
    readings: Vec<PolicyReading>,
    unread: Vec<String>,
) -> (res: Step)
    ensures
        res.deep_view() == step_to_policies(
            config.deep_view(),
            session.deep_view(),
            deployments.deep_view(),
            readings.deep_view(),
            unread.deep_view(),
        ),
{
    if unread.len() == 0 {
        return conclude(config, session, &deployments, &readings);
    }
    let mut rest = unread;
    let current = rest.remove(0);
    assert(rest.deep_view() =~= unread.deep_view().drop_first());
    let url = arm_policy_url(config, session.endpoint.account_name.as_str(), current.as_str());
    let bearer = session.token.clone();
    ask(
        Progress::Policies { session, deployments, readings, current, rest },
        no_warnings(),
        url,
        bearer,
        POLICY_LABEL,
        Document::Policy,
    )
}

/// What messages call the request that is waited for.
fn label_of(progress: &Progress) -> (res: &'static str)
    ensures
        res@ == awaited_label(progress.deep_view()),
{
    match progress {
        Progress::Token { .. } => TOKEN_LABEL,
        Progress::Account { .. } => ACCOUNT_LABEL,
        Progress::Diagnostics { .. } => DIAGNOSTICS_LABEL,
        Progress::Deployments { .. } => DEPLOYMENTS_LABEL,
        Progress::Policies { .. } => POLICY_LABEL,
        Progress::Finished => "",
    }
}

/// Goes on with a verification: takes what came of the last action and decides on the next.
pub fn continue_verification(config: &AzureVerifyConfig, progress: Progress, reply: Reply) -> (res:
    Step)
    ensures
        res.deep_view() == next_step(config.deep_view(), progress.deep_view(), reply.deep_view()),
{
    let label: &'static str = label_of(&progress);
    match (progress, reply) {
        (Progress::Finished, _) => fail(VerifyError::UnexpectedReply),
        (_, Reply::Transport(failure)) => fail(VerifyError::Transport(failure)),
        (_, Reply::Refused { status, body }) => if is_success_status(status) {
            fail(VerifyError::UnexpectedReply)
        } else {
            fail(VerifyError::HttpStatus(AzureHttpStatusError { label, status, body }))
        },
        (Progress::Token { endpoint }, Reply::Token(token)) => take_token(
            config,
            endpoint,
            token.access_token,
        ),
        (Progress::Account { endpoint, token }, Reply::Account(account)) => take_account(
            endpoint,
            token,
            &account,
        ),
        (
            Progress::Diagnostics { session },
            Reply::DiagnosticSettings(settings),
        ) => take_diagnostics(config, session, &settings),
        (Progress::Deployments { session }, Reply::Deployments(deployments)) => {
            let readings: Vec<PolicyReading> = Vec::new();
            assert(readings.deep_view() =~= seq![]);
            let unread = referenced_policies(&deployments);
            ask_for_policies(config, session, deployments, readings, unread)
        },
        (
            Progress::Policies { session, deployments, readings, current, rest },
            Reply::Policy(policy),
        ) => {
            let mut extended = readings;
            let reading = PolicyReading { policy_name: current, mode: policy.mode };
            let ghost reading_model = reading.deep_view();
            extended.push(reading);
            assert(extended.deep_view() =~= readings.deep_view().push(reading_model));
            ask_for_policies(config, session, deployments, extended, rest)
        },
        _ => fail(VerifyError::UnexpectedReply),
    }
}

/// A verification begins with its endpoint: it fails with what is wrong with it, or asks for the
/// token with the credentials of the configuration.
pub proof fn begins_with_the_endpoint(config: ConfigModel)
    ensures
        first_step(config).warnings.len() == 0,
        match endpoint_outcome(config.endpoint, parsed_url(config.endpoint)) {
            Err(error) => {
                &&& first_step(config).action == ActionModel::Fail(
                    VerifyErrorModel::Endpoint(error),
                )
                &&& first_step(config).progress == ProgressModel::Finished
            },
            Ok(endpoint) => {
                &&& first_step(config).action == ActionModel::PostToken(token_request(config))
                &&& first_step(config).progress == (ProgressModel::Token { endpoint })
            },
        },
{
}

/// A token fails the verification where it is blank; otherwise it is kept unchanged, and the account
/// is asked for with it.
pub proof fn token_leads_to_the_account(
    config: ConfigModel,
    endpoint: EndpointModel,
    token: Seq<char>,
)
    ensures
        ({
            let step = next_step(config, ProgressModel::Token { endpoint }, ReplyModel::Token(token));
            &&& step.warnings.len() == 0
            &&& trimmed(token).len() == 0 ==> step.action == ActionModel::Fail(
                VerifyErrorModel::EmptyAccessToken,
            ) && step.progress == ProgressModel::Finished
            &&& trimmed(token).len() > 0 ==> step.action == (ActionModel::Get {
                url: account_url(config, endpoint.account_name),
                token,
                label: "Azure Cognitive Services account"@,
                document: Document::Account,
            }) && step.progress == (ProgressModel::Account { endpoint, token })
        }),
{
    lemma_trim_empty(token);
}

/// An account fails the verification where it is not bound or its identifier does not begin with a
/// slash; otherwise its diagnostic settings are asked for under that identifier.
pub proof fn account_leads_to_its_diagnostics(
    config: ConfigModel,
    endpoint: EndpointModel,
    token: Seq<char>,
    account: AccountModel,
)
    ensures
        ({
            let step = next_step(
                config,
                ProgressModel::Account { endpoint, token },
                ReplyModel::Account(account),
            );
            &&& step.warnings.len() == 0
            &&& match binding_outcome(endpoint, account, url_of_account(account)) {
                Err(error) => step.action == ActionModel::Fail(VerifyErrorModel::Binding(error))
                    && step.progress == ProgressModel::Finished,
                Ok(id) => {
                    &&& id.len() == 0 || id[0] != '/' ==> step.action == ActionModel::Fail(
                        VerifyErrorModel::RelativeResourceId { resource_id: id },
                    ) && step.progress == ProgressModel::Finished
                    &&& id.len() > 0 && id[0] == '/' ==> {
                        &&& step.action == (ActionModel::Get {
                            url: diagnostics_url(id)->Some_0,
                            token,
                            label: "Azure diagnostic settings"@,
                            document: Document::DiagnosticSettings,
                        })
                        &&& step.progress == (ProgressModel::Diagnostics {
                            session: SessionModel { endpoint, token, resource_id: id },
                        })
                    }
                },
            }
        }),
        account.endpoint matches Some(text) ==> url_of_account(account) == parsed_url(text),
{
}

/// Whatever the diagnostic settings say, their warnings are given and the deployments are asked for.
pub proof fn diagnostics_lead_to_the_deployments(
    config: ConfigModel,
    session: SessionModel,
    settings: Seq<SettingModel>,
)
    ensures
        next_step(
            config,
            ProgressModel::Diagnostics { session },
            ReplyModel::DiagnosticSettings(settings),
        ) == (StepModel {
            progress: ProgressModel::Deployments { session },
            warnings: setting_warnings(settings),
            action: ActionModel::Get {
                url: deployments_url(config, session.endpoint.account_name),
                token: session.token,
                label: "Azure deployments"@,
                document: Document::Deployments,
            },
        }),
{
}

/// Of deployments that reference policies, the first policy is asked for next, and the others are
/// kept for later, in their order.
pub proof fn deployments_lead_to_their_policies(
    config: ConfigModel,
    session: SessionModel,
    deployments: Seq<DeploymentModel>,
)
    requires
        policies_of(deployments).len() > 0,
    ensures
        next_step(
            config,
            ProgressModel::Deployments { session },
            ReplyModel::Deployments(deployments),
        ) == (StepModel {
            progress: ProgressModel::Policies {
                session,
                deployments,
                readings: seq![],
                current: policies_of(deployments)[0],
                rest: policies_of(deployments).skip(1),
            },
            warnings: seq![],
            action: ActionModel::Get {
                url: policy_url(
                    config,
                    session.endpoint.account_name,
                    policies_of(deployments)[0],
                ),
                token: session.token,
                label: "Azure RAI policy"@,
                document: Document::Policy,
            },
        }),
{
    assert(policies_of(deployments).drop_first() =~= policies_of(deployments).skip(1));
}

/// A policy is read under the name that it was asked for, and the next one is asked for as long as
/// there are some.
pub proof fn policy_leads_to_the_next(
    config: ConfigModel,
    session: SessionModel,
    deployments: Seq<DeploymentModel>,
    readings: Seq<ReadingModel>,
    current: Seq<char>,
    rest: Seq<Seq<char>>,
    mode: Option<Seq<char>>,
)
    requires
        rest.len() > 0,
    ensures
        next_step(
            config,
            ProgressModel::Policies { session, deployments, readings, current, rest },
            ReplyModel::Policy(mode),
        ) == (StepModel {
            progress: ProgressModel::Policies {
                session,
                deployments,
                readings: readings.push(ReadingModel { policy_name: current, mode }),
                current: rest[0],
                rest: rest.skip(1),
            },
            warnings: seq![],
            action: ActionModel::Get {
                url: policy_url(config, session.endpoint.account_name, rest[0]),
                token: session.token,
                label: "Azure RAI policy"@,
                document: Document::Policy,
            },
        }),
{
    assert(rest.drop_first() =~= rest.skip(1));
}

/// Once all policies are read the verification ends. Where filtering is required and some deployment
/// does not stream, it fails with the list of those; otherwise it passes, and reports the host, the
/// identifier of the account, the number of deployments and the same list.
pub proof fn last_policy_ends_the_verification(
    config: ConfigModel,
    session: SessionModel,
    deployments: Seq<DeploymentModel>,
    readings: Seq<ReadingModel>,
    current: Seq<char>,
    mode: Option<Seq<char>>,
)
    ensures
        ({
            let all = readings.push(ReadingModel { policy_name: current, mode });
            let step = next_step(
                config,
                ProgressModel::Policies { session, deployments, readings, current, rest: seq![] },
                ReplyModel::Policy(mode),
            );
            ends_with(config, session, deployments, all, step)
        }),
        policies_of(deployments).len() == 0 ==> ends_with(
            config,
            session,
            deployments,
            seq![],
            next_step(
                config,
                ProgressModel::Deployments { session },
                ReplyModel::Deployments(deployments),
            ),
        ),
{
}

/// Whether a step ends a verification as the deployments, the readings of their policies and the
/// posture have it.
pub open spec fn ends_with(
    config: ConfigModel,
    session: SessionModel,
    deployments: Seq<DeploymentModel>,
    readings: Seq<ReadingModel>,
    step: StepModel,
) -> bool {
    let listed = synchronous(deployments, readings);
    &&& step.progress == ProgressModel::Finished
    &&& step.warnings.len() == 0
    &&& config.require_async_filter && listed.len() > 0 ==> step.action == ActionModel::Fail(
        VerifyErrorModel::Streaming(listed),
    )
    &&& !config.require_async_filter || listed.len() == 0 ==> {
        &&& step.action matches ActionModel::Pass(report)
        &&& report.host == session.endpoint.host
        &&& report.resource_id == session.resource_id
        &&& report.streaming.deployment_count == deployments.len()
        &&& report.streaming.synchronous == listed
    }
}

/// A request that failed fails the verification with what is known of it: the transport failure, or
/// the status and the body under the label of the request. A status of 200 to 299 is no refusal.
pub proof fn failed_requests_are_told(
    config: ConfigModel,
    progress: ProgressModel,
    failure: TransportModel,
    status: u16,
    body: Seq<char>,
)
    requires
        !(progress is Finished),
    ensures
        next_step(config, progress, ReplyModel::Transport(failure)).action == ActionModel::Fail(
            VerifyErrorModel::Transport(failure),
        ),
        200 <= status <= 299 ==> next_step(config, progress, ReplyModel::Refused { status, body })
            .action == ActionModel::Fail(VerifyErrorModel::UnexpectedReply),
        status < 200 || status > 299 ==> next_step(
            config,
            progress,
            ReplyModel::Refused { status, body },
        ).action == ActionModel::Fail(
            VerifyErrorModel::HttpStatus(
                HttpErrorModel {
                    label: match progress {
                        ProgressModel::Token { .. } => "Entra token"@,
                        ProgressModel::Account { .. } => "Azure Cognitive Services account"@,
                        ProgressModel::Diagnostics { .. } => "Azure diagnostic settings"@,
                        ProgressModel::Deployments { .. } => "Azure deployments"@,
                        ProgressModel::Policies { .. } => "Azure RAI policy"@,
                        ProgressModel::Finished => ""@,
                    },
                    status,
                    body,
                },
            ),
        ),
{
}

/// A document that was not asked for fails the verification.
pub proof fn documents_out_of_turn_fail(
    config: ConfigModel,
    progress: ProgressModel,
    reply: ReplyModel,
)
    requires
        !(reply is Transport) && !(reply is Refused),
        !(progress is Token && reply is Token),
        !(progress is Account && reply is Account),
        !(progress is Diagnostics && reply is DiagnosticSettings),
        !(progress is Deployments && reply is Deployments),
        !(progress is Policies && reply is Policy),
    ensures
        next_step(config, progress, reply).action == ActionModel::Fail(
            VerifyErrorModel::UnexpectedReply,
        ),
        next_step(config, progress, reply).progress == ProgressModel::Finished,
{
}

} // verus!
