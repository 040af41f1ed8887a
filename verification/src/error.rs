//! Why a verification fails, and whether it is worth another try.
use vstd::prelude::*;

use crate::checks::{binding_detail, binding_message, BindingError, BindingErrorModel};
use crate::endpoint::{endpoint_detail, endpoint_message, EndpointError, EndpointErrorModel};
use crate::streaming::{streaming_message, StreamingError, SynchronousModel};
use crate::text::{joined, decimal, has_prefix};

verus! {

/// Whether an HTTP status reports success.
pub open spec fn is_success(status: u16) -> bool {
    200 <= status < 300
}

/// Whether an HTTP status reports a condition that may pass: a request timeout, too many requests,
/// or an error of the server.
pub open spec fn is_transient_status(status: u16) -> bool {
    status == 408 || status == 429 || 500 <= status < 600
}

/// Whether an HTTP status reports success.
pub fn is_success_status(status: u16) -> (res: bool)
    ensures
        res == is_success(status),
        res <==> 200 <= status <= 299,
{
    200 <= status && status < 300
}

/// Whether an HTTP status reports a condition that may pass.
fn transient_status(status: u16) -> (res: bool)
    ensures
        res == is_transient_status(status),
{
    status == 408 || status == 429 || (500 <= status && status < 600)
}

/// How a status code is written in messages.
pub uninterp spec fn status_form(status: u16) -> Seq<char>;

/// Calls `reqwest::StatusCode::from_u16` and writes the status code with its `Display`: the number,
/// a blank and the canonical reason. For a number outside 100 to 999, which is no status code, it
/// is the text of the error. The text is a function of the number; the reasons are left unsaid.
#[verifier::external_body]
fn status_text(status: u16) -> (res: String)
    ensures
        res@ == status_form(status),
        100 <= status <= 999 ==> has_prefix(res@, decimal(status as nat) + " "@),
{
    match reqwest::StatusCode::from_u16(status) {
        Ok(code) => code.to_string(),
        Err(error) => error.to_string(),
    }
}

/// An answer whose status does not report success.
#[derive(Debug, PartialEq, Eq)]
pub struct AzureHttpStatusError {
    pub label: &'static str,
    pub status: u16,
    pub body: String,
}

/// The mathematical model of [`AzureHttpStatusError`].
pub struct HttpErrorModel {
    pub label: Seq<char>,
    pub status: u16,
    pub body: Seq<char>,
}

impl DeepView for AzureHttpStatusError {
    type V = HttpErrorModel;

    open spec fn deep_view(&self) -> HttpErrorModel {
        HttpErrorModel { label: self.label@, status: self.status, body: self.body@ }
    }
}

/// The message of an answer whose status does not report success.
pub open spec fn http_message(error: HttpErrorModel) -> Seq<char> {
    error.label + " request failed ("@ + status_form(error.status) + "): "@ + error.body
}

impl AzureHttpStatusError {
    /// What is wrong, in words.
    pub fn message(&self) -> (res: String)
        ensures
            res@ == http_message(self.deep_view()),
            100 <= self.status <= 999 ==> has_prefix(
                res@,
                self.label@ + " request failed ("@ + decimal(self.status as nat) + " "@,
            ),
    {
        let mut res = joined(self.label, " request failed (");
        let ghost opening = res@;
        let status = status_text(self.status);
        res.append(status.as_str());
        res.append("): ");
        res.append(self.body.as_str());
        proof {
            let number = decimal(self.status as nat) + " "@;
            if 100 <= self.status <= 999 {
                assert(opening + decimal(self.status as nat) + " "@ =~= opening + number);
                assert(res@.take((opening + number).len() as int) =~= opening + status@.take(
                    number.len() as int,
                ));
            }
        }
        res
    }
}

/// What an error of the HTTP client says of itself.
#[derive(Debug, PartialEq, Eq, Clone, Copy)]
pub struct ClientFailure {
    /// Something timed out.
    pub timeout: bool,
    /// No connection was made.
    pub connect: bool,
    /// The request could not be sent.
    pub request: bool,
    /// The answer could not be decoded.
    pub decode: bool,
    /// The status that the error was made from.
    pub status: Option<u16>,
}

impl ClientFailure {
    /// Whether the failure may pass.
    pub open spec fn is_transient(self) -> bool {
        ||| self.timeout
        ||| self.connect
        ||| self.request
        ||| self.decode
        ||| self.status matches Some(status) && is_transient_status(status)
    }

    /// Whether the failure may pass.
    fn may_pass(&self) -> (res: bool)
        ensures
            res == self.is_transient(),
    {
        self.timeout || self.connect || self.request || self.decode || match self.status {
            Some(status) => transient_status(status),
            None => false,
        }
    }
}

/// One link in a chain of causes; `client` is there for an error of the HTTP client.
#[derive(Debug, PartialEq, Eq)]
pub struct Cause {
    pub text: String,
    pub client: Option<ClientFailure>,
}

/// The mathematical model of [`Cause`].
pub struct CauseModel {
    pub text: Seq<char>,
    pub client: Option<ClientFailure>,
}

impl CauseModel {
    /// Whether the cause is a failure of the HTTP client that may pass.
    pub open spec fn is_transient(self) -> bool {
        self.client matches Some(client) && client.is_transient()
    }
}

impl DeepView for Cause {
    type V = CauseModel;

    open spec fn deep_view(&self) -> CauseModel {
        CauseModel { text: self.text@, client: self.client }
    }
}

/// A request that was not answered, or whose answer could not be read: what was attempted, and the
/// chain of causes from the outermost on.
#[derive(Debug, PartialEq, Eq)]
pub struct TransportFailure {
    pub attempt: String,
    pub causes: Vec<Cause>,
}

/// The mathematical model of [`TransportFailure`].
pub struct TransportModel {
    pub attempt: Seq<char>,
    pub causes: Seq<CauseModel>,
}

impl DeepView for TransportFailure {
    type V = TransportModel;

    open spec fn deep_view(&self) -> TransportModel {
        TransportModel { attempt: self.attempt@, causes: self.causes.deep_view() }
    }
}

/// The texts of causes, each after a colon and a blank.
pub open spec fn causes_text(causes: Seq<CauseModel>) -> Seq<char>
    decreases causes.len(),
{
    if causes.len() == 0 {
        seq![]
    } else {
        causes_text(causes.drop_last()) + ": "@ + causes.last().text
    }
}

impl TransportModel {
    /// Whether some cause is a failure of the HTTP client that may pass.
    pub open spec fn is_transient(self) -> bool {
        exists|i: int|
            0 <= i < self.causes.len() && (#[trigger] self.causes[i]).is_transient()
    }
}

impl TransportFailure {
    /// What was attempted and what came of it, in words.
    pub fn detail(&self) -> (res: String)
        ensures
            res@ == self.deep_view().attempt + causes_text(self.deep_view().causes),
    {
        let ghost model = self.deep_view().causes;
        let mut text = String::new();
        let mut i: usize = 0;
        assert(model.take(0) =~= seq![]);
        while i < self.causes.len()
            invariant
                0 <= i <= self.causes@.len(),
                model == self.deep_view().causes,
                text@ == causes_text(model.take(i as int)),
            decreases self.causes@.len() - i,
        {
            proof {
                assert(model.take(i + 1).drop_last() =~= model.take(i as int));
                assert(model.take(i + 1).last() == self.causes@[i as int].deep_view());
            }
            text.append(": ");
            text.append(self.causes[i].text.as_str());
            i = i + 1;
        }
        assert(model.take(i as int) =~= model);
        joined(self.attempt.as_str(), text.as_str())
    }

    /// Whether some cause is a failure of the HTTP client that may pass.
    fn may_pass(&self) -> (res: bool)
        ensures
            res == self.deep_view().is_transient(),
    {
        let ghost model = self.deep_view().causes;
        let mut i: usize = 0;
        while i < self.causes.len()
            invariant
                0 <= i <= self.causes@.len(),
                model == self.deep_view().causes,
                forall|k: int|
                    0 <= k < i ==> !(#[trigger] model[k]).is_transient(),
            decreases self.causes@.len() - i,
        {
            assert(model[i as int] == self.causes@[i as int].deep_view());
            match &self.causes[i].client {
                Some(client) => if client.may_pass() {
                    return true;
                },
                None => {},
            }
            i = i + 1;
        }
        false
    }
}

/// Why a verification fails.
#[derive(Debug, PartialEq, Eq)]
pub enum VerifyError {
    /// The configured endpoint is refused.
    Endpoint(EndpointError),
    /// A request was not answered, or its answer could not be read.
    Transport(TransportFailure),
    /// An answer does not report success.
    HttpStatus(AzureHttpStatusError),
    /// The access token is blank.
    EmptyAccessToken,
    /// The account fails the binding check.
    Binding(BindingError),
    /// The identifier of the account is not a path from the root.
    RelativeResourceId { resource_id: String },
    /// Some deployment does not stream.
    Streaming(StreamingError),
    /// An answer is not to the request that was made.
    UnexpectedReply,
}

/// The mathematical model of [`VerifyError`].
pub enum VerifyErrorModel {
    Endpoint(EndpointErrorModel),
    Transport(TransportModel),
    HttpStatus(HttpErrorModel),
    EmptyAccessToken,
    Binding(BindingErrorModel),
    RelativeResourceId { resource_id: Seq<char> },
    Streaming(Seq<SynchronousModel>),
    UnexpectedReply,
}

impl DeepView for VerifyError {
    type V = VerifyErrorModel;

    open spec fn deep_view(&self) -> VerifyErrorModel {
        match self {
            VerifyError::Endpoint(error) => VerifyErrorModel::Endpoint(error.deep_view()),
            VerifyError::Transport(failure) => VerifyErrorModel::Transport(failure.deep_view()),
            VerifyError::HttpStatus(error) => VerifyErrorModel::HttpStatus(error.deep_view()),
            VerifyError::EmptyAccessToken => VerifyErrorModel::EmptyAccessToken,
            VerifyError::Binding(error) => VerifyErrorModel::Binding(error.deep_view()),
            VerifyError::RelativeResourceId {
                resource_id,
            } => VerifyErrorModel::RelativeResourceId { resource_id: resource_id@ },
            VerifyError::Streaming(error) => VerifyErrorModel::Streaming(error.deep_view()),
            VerifyError::UnexpectedReply => VerifyErrorModel::UnexpectedReply,
        }
    }
}

/// The message of a failed verification.
pub open spec fn error_message(error: VerifyErrorModel) -> Seq<char> {
    match error {
        VerifyErrorModel::Endpoint(error) => endpoint_message(error),
        VerifyErrorModel::Transport(failure) => failure.attempt,
        VerifyErrorModel::HttpStatus(error) => http_message(error),
        VerifyErrorModel::EmptyAccessToken => "Entra token response had an empty access_token"@,
        VerifyErrorModel::Binding(error) => binding_message(error),
        VerifyErrorModel::RelativeResourceId {
            resource_id,
        } => "ARM resource id must start with '/': "@ + resource_id,
        VerifyErrorModel::Streaming(deployments) => streaming_message(deployments),
        VerifyErrorModel::UnexpectedReply => "reply does not answer the request"@,
    }
}

/// The message of a failed verification with all its causes.
pub open spec fn error_detail(error: VerifyErrorModel) -> Seq<char> {
    match error {
        VerifyErrorModel::Endpoint(error) => endpoint_detail(error),
        VerifyErrorModel::Transport(failure) => failure.attempt + causes_text(failure.causes),
        VerifyErrorModel::Binding(error) => binding_detail(error),
        _ => error_message(error),
    }
}

impl VerifyError {
    /// What is wrong, in words.
    pub fn message(&self) -> (res: String)
        ensures
            res@ == error_message(self.deep_view()),
    {
        match self {
            VerifyError::Endpoint(error) => error.message(),
            VerifyError::Transport(failure) => failure.attempt.clone(),
            VerifyError::HttpStatus(error) => error.message(),
            VerifyError::EmptyAccessToken => "Entra token response had an empty access_token".to_owned(),
            VerifyError::Binding(error) => error.message(),
            VerifyError::RelativeResourceId { resource_id } => joined(
                "ARM resource id must start with '/': ",
                resource_id.as_str(),
            ),
            VerifyError::Streaming(error) => error.message(),
            VerifyError::UnexpectedReply => "reply does not answer the request".to_owned(),
        }
    }

    /// What is wrong and why, in words.
    pub fn detail(&self) -> (res: String)
        ensures
            res@ == error_detail(self.deep_view()),
    {
        match self {
            VerifyError::Endpoint(error) => error.detail(),
            VerifyError::Transport(failure) => failure.detail(),
            VerifyError::Binding(error) => error.detail(),
            _ => self.message(),
        }
    }
}

/// Whether a failure is tolerated for a while or ends the service at once.
#[derive(Debug, Clone, Copy, PartialEq, Eq, Structural)]
pub enum VerificationFailureKind {
    Transient,
    Definitive,
}

/// Whether a failure may pass: the network failed, a request timed out, an answer could not be
/// decoded, or the status of an answer says so.
pub open spec fn is_transient(error: VerifyErrorModel) -> bool {
    match error {
        VerifyErrorModel::HttpStatus(error) => is_transient_status(error.status),
        VerifyErrorModel::Transport(failure) => failure.is_transient(),
        _ => false,
    }
}

/// The kind of a failure.
pub open spec fn failure_kind(error: VerifyErrorModel) -> VerificationFailureKind {
    if is_transient(error) {
        VerificationFailureKind::Transient
    } else {
        VerificationFailureKind::Definitive
    }
}

/// Tells failures that may pass from those that end the service.
pub fn classify_verification_error(error: &VerifyError) -> (res: VerificationFailureKind)
    ensures
        res == failure_kind(error.deep_view()),
        error matches VerifyError::HttpStatus(refused) ==> (res
            == VerificationFailureKind::Transient <==> refused.status == 408 || refused.status == 429
            || 500 <= refused.status <= 599),
        !(error is HttpStatus) && !(error is Transport) ==> res
            == VerificationFailureKind::Definitive,
{
    let transient: bool = match error {
        VerifyError::HttpStatus(error) => transient_status(error.status),
        VerifyError::Transport(failure) => failure.may_pass(),
        _ => false,
    };
    if transient {
        VerificationFailureKind::Transient
    } else {
        VerificationFailureKind::Definitive
    }
}

/// The wording of a transport failure leaves its kind as it is: what is said of the attempt, and a
/// further cause, at any place in the chain, that is no failure of the HTTP client.
pub proof fn wording_leaves_the_kind(
    failure: TransportModel,
    attempt: Seq<char>,
    position: int,
    cause: CauseModel,
)
    requires
        0 <= position <= failure.causes.len(),
        cause.client is None,
    ensures
        failure_kind(
            VerifyErrorModel::Transport(
                TransportModel { attempt, causes: failure.causes.insert(position, cause) },
            ),
        ) == failure_kind(VerifyErrorModel::Transport(failure)),
{
    let wider = TransportModel { attempt, causes: failure.causes.insert(position, cause) };
    assert(wider.causes[position] == cause);
    assert forall|i: int| 0 <= i < failure.causes.len() implies #[trigger] failure.causes[i]
        == wider.causes[if i < position { i } else { i + 1 }] by {}
    if wider.is_transient() {
        let k = choose|k: int|
            0 <= k < wider.causes.len() && (#[trigger] wider.causes[k]).is_transient();
        assert(k != position);
        let i = if k < position { k } else { k - 1 };
        assert(failure.causes[i].is_transient());
    }
    if failure.is_transient() {
        let i = choose|i: int|
            0 <= i < failure.causes.len() && (#[trigger] failure.causes[i]).is_transient();
        assert(wider.causes[if i < position { i } else { i + 1 }].is_transient());
    }
}

/// A failure that holds neither a refused status nor a failure of the HTTP client is definitive.
pub proof fn definitive_without_status_or_client_failure(error: VerifyErrorModel)
    requires
        !(error is HttpStatus),
        error matches VerifyErrorModel::Transport(failure) ==> forall|i: int|
            0 <= i < failure.causes.len() ==> (#[trigger] failure.causes[i]).client is None,
    ensures
        failure_kind(error) == VerificationFailureKind::Definitive,
{
}

/// A failed check is never transient: an endpoint, an account, a resource or a deployment that is
/// refused ends the service.
pub proof fn policy_failures_are_definitive(error: VerifyErrorModel)
    requires
        error is Endpoint || error is Binding || error is RelativeResourceId || error is Streaming
            || error is EmptyAccessToken || error is UnexpectedReply,
    ensures
        failure_kind(error) == VerificationFailureKind::Definitive,
{
}

/// A refused status is transient exactly when it is 408, 429 or one of 500 to 599.
pub proof fn refused_status_is_transient_iff(error: HttpErrorModel)
    ensures
        failure_kind(VerifyErrorModel::HttpStatus(error)) == VerificationFailureKind::Transient <==> {
            ||| error.status == 408
            ||| error.status == 429
            ||| 500 <= error.status <= 599
        },
        is_success(error.status) <==> 200 <= error.status <= 299,
{
}

/// A transport failure is transient exactly when some cause is a failure of the HTTP client that
/// timed out, did not connect, could not send the request, could not decode the answer, or has one
/// of the statuses 408, 429 and 500 to 599.
pub proof fn transport_failure_is_transient_iff(failure: TransportModel)
    ensures
        failure_kind(VerifyErrorModel::Transport(failure)) == VerificationFailureKind::Transient
            <==> exists|i: int|
            0 <= i < failure.causes.len() && {
                &&& (#[trigger] failure.causes[i]).client matches Some(client)
                &&& {
                    ||| client.timeout
                    ||| client.connect
                    ||| client.request
                    ||| client.decode
                    ||| client.status == Some(408u16)
                    ||| client.status == Some(429u16)
                    ||| client.status is Some && 500 <= client.status->Some_0 <= 599
                }
            },
{
    if failure.is_transient() {
        let i = choose|i: int|
            0 <= i < failure.causes.len() && (#[trigger] failure.causes[i]).is_transient();
        assert(failure.causes[i].client is Some);
    }
    assert forall|i: int|
        0 <= i < failure.causes.len() && {
            &&& (#[trigger] failure.causes[i]).client matches Some(client)
            &&& {
                ||| client.timeout
                ||| client.connect
                ||| client.request
                ||| client.decode
                ||| client.status == Some(408u16)
                ||| client.status == Some(429u16)
                ||| client.status is Some && 500 <= client.status->Some_0 <= 599
            }
        } implies failure.is_transient() by {
        assert(failure.causes[i].is_transient());
    }
}

/// The message on a refused status holds the label, the status in words and the body, unchanged; it
/// is the detail as well.
pub proof fn refused_status_is_told_in_full(error: HttpErrorModel)
    ensures
        error_message(VerifyErrorModel::HttpStatus(error)) == error.label + " request failed ("@
            + status_form(error.status) + "): "@ + error.body,
        error_detail(VerifyErrorModel::HttpStatus(error)) == error_message(
            VerifyErrorModel::HttpStatus(error),
        ),
{
}

/// The message on a transport failure is what was attempted; its detail goes on with the text of
/// every cause, from the outermost on.
pub proof fn transport_failure_is_told_in_full(
    attempt: Seq<char>,
    causes: Seq<CauseModel>,
    innermost: CauseModel,
)
    ensures
        error_message(VerifyErrorModel::Transport(TransportModel { attempt, causes })) == attempt,
        error_detail(VerifyErrorModel::Transport(TransportModel { attempt, causes: seq![] }))
            == attempt,
        error_detail(
            VerifyErrorModel::Transport(TransportModel { attempt, causes: causes.push(innermost) }),
        ) == error_detail(VerifyErrorModel::Transport(TransportModel { attempt, causes })) + ": "@
            + innermost.text,
{
    assert(causes.push(innermost).drop_last() =~= causes);
    assert(attempt + causes_text(seq![]) =~= attempt);
    assert(attempt + causes_text(causes.push(innermost)) =~= attempt + causes_text(causes) + ": "@
        + innermost.text);
}

/// A failed check is told in the words of the check, and so is its detail.
pub proof fn failed_checks_are_told_in_their_words(
    endpoint: EndpointErrorModel,
    binding: BindingErrorModel,
    deployments: Seq<SynchronousModel>,
    resource_id: Seq<char>,
)
    ensures
        error_message(VerifyErrorModel::Endpoint(endpoint)) == endpoint_message(endpoint),
        error_detail(VerifyErrorModel::Endpoint(endpoint)) == endpoint_detail(endpoint),
        error_message(VerifyErrorModel::Binding(binding)) == binding_message(binding),
        error_detail(VerifyErrorModel::Binding(binding)) == binding_detail(binding),
        error_message(VerifyErrorModel::Streaming(deployments)) == streaming_message(deployments),
        error_detail(VerifyErrorModel::Streaming(deployments)) == streaming_message(deployments),
        error_detail(VerifyErrorModel::RelativeResourceId { resource_id })
            == "ARM resource id must start with '/': "@ + resource_id,
        error_detail(VerifyErrorModel::EmptyAccessToken)
            == "Entra token response had an empty access_token"@,
{
}

} // verus!
