//! The check that an Azure account is the one behind the configured endpoint and stores no content.
use vstd::prelude::*;

use crate::arm::{AccountModel, ArmAccount, JsonValue};
use crate::endpoint::{AzureEndpoint, EndpointModel};
use crate::text::{
    ascii_lower, joined, debug_form, debug_text, is_blank, lemma_trim_empty, text_eq, trimmed,
    trims_to_nothing,
};
use crate::web_url::{parse_url, parsed_model, parsed_url, ParsedUrl, UrlModel};

verus! {

/// The kinds of account that serve Azure OpenAI.
pub open spec fn is_allowed_kind(kind: Seq<char>) -> bool {
    kind == "OpenAI"@ || kind == "AIServices"@
}

/// Whether a JSON value holds something: null, an empty array, an empty object and a blank text
/// do not.
pub open spec fn is_non_empty_json(value: JsonValue) -> bool {
    match value {
        JsonValue::Null => false,
        JsonValue::Array(values) => values@.len() > 0,
        JsonValue::Object(fields) => fields@.len() > 0,
        JsonValue::Text(text) => !is_blank(text@),
        JsonValue::Bool(_) => true,
        JsonValue::Number(_) => true,
    }
}

/// Whether a JSON value holds something.
pub fn non_empty_json_value(value: &JsonValue) -> (res: bool)
    ensures
        res == is_non_empty_json(*value),
        !res <==> {
            ||| value is Null
            ||| value matches JsonValue::Array(values) && values@.len() == 0
            ||| value matches JsonValue::Object(fields) && fields@.len() == 0
            ||| value matches JsonValue::Text(text) && trimmed(text@).len() == 0
        },
{
    proof {
        if let JsonValue::Text(text) = value {
            lemma_trim_empty(text@);
        }
    }
    match value {
        JsonValue::Null => false,
        JsonValue::Array(values) => values.len() > 0,
        JsonValue::Object(fields) => fields.len() > 0,
        JsonValue::Text(text) => !trims_to_nothing(text.as_str()),
        JsonValue::Bool(_) => true,
        JsonValue::Number(_) => true,
    }
}

/// Why an account is not the one behind the configured endpoint, or may store content.
#[derive(Debug, PartialEq, Eq)]
pub enum BindingError {
    /// The account is of another kind.
    KindNotAllowed { kind: String },
    /// The account has no custom subdomain.
    SubdomainMissing,
    /// The custom subdomain is blank.
    SubdomainEmpty,
    /// The custom subdomain is not the account label of the endpoint.
    SubdomainMismatch { subdomain: String, account_label: String },
    /// The account has no endpoint.
    EndpointMissing,
    /// The endpoint of the account is not a URL.
    EndpointUnparsable { endpoint: String, reason: String },
    /// The endpoint of the account does not use `https`.
    EndpointNotHttps,
    /// The endpoint of the account carries a user name or a password.
    EndpointUserinfo,
    /// The endpoint of the account has no host.
    EndpointNoHost,
    /// The host of the account is not its subdomain followed by the configured suffix.
    HostUnexpected { host: String, expected: String },
    /// The host of the account is not the configured host.
    HostMismatch { host: String, configured: String },
    /// Content monitoring is configured.
    RaiMonitorConfigured,
    /// Storage of the owner is attached.
    UserOwnedStorage,
    /// The account has no identifier.
    IdEmpty,
}

/// The mathematical model of [`BindingError`].
pub enum BindingErrorModel {
    KindNotAllowed { kind: Seq<char> },
    SubdomainMissing,
    SubdomainEmpty,
    SubdomainMismatch { subdomain: Seq<char>, account_label: Seq<char> },
    EndpointMissing,
    EndpointUnparsable { endpoint: Seq<char>, reason: Seq<char> },
    EndpointNotHttps,
    EndpointUserinfo,
    EndpointNoHost,
    HostUnexpected { host: Seq<char>, expected: Seq<char> },
    HostMismatch { host: Seq<char>, configured: Seq<char> },
    RaiMonitorConfigured,
    UserOwnedStorage,
    IdEmpty,
}

impl DeepView for BindingError {
    type V = BindingErrorModel;

    open spec fn deep_view(&self) -> BindingErrorModel {
        match self {
            BindingError::KindNotAllowed { kind } => BindingErrorModel::KindNotAllowed {
                kind: kind@,
            },
            BindingError::SubdomainMissing => BindingErrorModel::SubdomainMissing,
            BindingError::SubdomainEmpty => BindingErrorModel::SubdomainEmpty,
            BindingError::SubdomainMismatch {
                subdomain,
                account_label,
            } => BindingErrorModel::SubdomainMismatch {
                subdomain: subdomain@,
                account_label: account_label@,
            },
            BindingError::EndpointMissing => BindingErrorModel::EndpointMissing,
            BindingError::EndpointUnparsable {
                endpoint,
                reason,
            } => BindingErrorModel::EndpointUnparsable { endpoint: endpoint@, reason: reason@ },
            BindingError::EndpointNotHttps => BindingErrorModel::EndpointNotHttps,
            BindingError::EndpointUserinfo => BindingErrorModel::EndpointUserinfo,
            BindingError::EndpointNoHost => BindingErrorModel::EndpointNoHost,
            BindingError::HostUnexpected { host, expected } => BindingErrorModel::HostUnexpected {
                host: host@,
                expected: expected@,
            },
            BindingError::HostMismatch { host, configured } => BindingErrorModel::HostMismatch {
                host: host@,
                configured: configured@,
            },
            BindingError::RaiMonitorConfigured => BindingErrorModel::RaiMonitorConfigured,
            BindingError::UserOwnedStorage => BindingErrorModel::UserOwnedStorage,
            BindingError::IdEmpty => BindingErrorModel::IdEmpty,
        }
    }
}

/// The subdomain of an account as it is compared: trimmed and in lower case.
pub open spec fn normal_subdomain(subdomain: Seq<char>) -> Seq<char> {
    ascii_lower(trimmed(subdomain))
}

/// What the URL parser makes of the endpoint of an account.
pub open spec fn url_of_account(account: AccountModel) -> Result<UrlModel, Seq<char>> {
    match account.endpoint {
        Some(endpoint) => parsed_url(endpoint),
        None => Err(seq![]),
    }
}

/// What is wrong with the name of an account: its kind or its custom subdomain.
pub open spec fn name_problem(endpoint: EndpointModel, account: AccountModel) -> Option<
    BindingErrorModel,
> {
    if !is_allowed_kind(account.kind) {
        Some(BindingErrorModel::KindNotAllowed { kind: account.kind })
    } else {
        match account.custom_sub_domain_name {
            None => Some(BindingErrorModel::SubdomainMissing),
            Some(subdomain) => if is_blank(subdomain) {
                Some(BindingErrorModel::SubdomainEmpty)
            } else if normal_subdomain(subdomain) != endpoint.account_name {
                Some(
                    BindingErrorModel::SubdomainMismatch {
                        subdomain: normal_subdomain(subdomain),
                        account_label: endpoint.account_name,
                    },
                )
            } else {
                None
            },
        }
    }
}

/// What is wrong with the host of an account whose name is in order.
pub open spec fn host_problem(endpoint: EndpointModel, host: Seq<char>) -> Option<
    BindingErrorModel,
> {
    let expected = endpoint.account_name + endpoint.suffix;
    if host != expected {
        Some(BindingErrorModel::HostUnexpected { host, expected })
    } else if host != endpoint.host {
        Some(BindingErrorModel::HostMismatch { host, configured: endpoint.host })
    } else {
        None
    }
}

/// What is wrong with the endpoint of an account whose name is in order, given what the URL parser
/// made of it.
pub open spec fn url_problem(
    endpoint: EndpointModel,
    account: AccountModel,
    url: Result<UrlModel, Seq<char>>,
) -> Option<BindingErrorModel> {
    match (account.endpoint, url) {
        (None, _) => Some(BindingErrorModel::EndpointMissing),
        (Some(text), Err(reason)) => Some(
            BindingErrorModel::EndpointUnparsable { endpoint: text, reason },
        ),
        (Some(_), Ok(parts)) => if parts.scheme != "https"@ {
            Some(BindingErrorModel::EndpointNotHttps)
        } else if parts.has_userinfo() {
            Some(BindingErrorModel::EndpointUserinfo)
        } else {
            match parts.host {
                None => Some(BindingErrorModel::EndpointNoHost),
                Some(host) => host_problem(endpoint, ascii_lower(host)),
            }
        },
    }
}

/// Whether content monitoring is configured.
pub open spec fn monitors_content(account: AccountModel) -> bool {
    account.rai_monitor_config matches Some(value) && value !is Null
}

/// Whether storage of the owner is attached.
pub open spec fn has_owned_storage(account: AccountModel) -> bool {
    account.user_owned_storage matches Some(value) && is_non_empty_json(value)
}

/// What the binding check answers for an account, given what the URL parser made of its endpoint:
/// the identifier of the account, or the first problem.
pub open spec fn binding_outcome(
    endpoint: EndpointModel,
    account: AccountModel,
    url: Result<UrlModel, Seq<char>>,
) -> Result<Seq<char>, BindingErrorModel> {
    match (name_problem(endpoint, account), url_problem(endpoint, account, url)) {
        (Some(problem), _) => Err(problem),
        (None, Some(problem)) => Err(problem),
        (None, None) => if monitors_content(account) {
            Err(BindingErrorModel::RaiMonitorConfigured)
        } else if has_owned_storage(account) {
            Err(BindingErrorModel::UserOwnedStorage)
        } else if is_blank(account.id) {
            Err(BindingErrorModel::IdEmpty)
        } else {
            Ok(account.id)
        },
    }
}

/// The model of an answer of the binding check.
pub open spec fn binding_result_model(res: Result<&str, BindingError>) -> Result<
    Seq<char>,
    BindingErrorModel,
> {
    match res {
        Ok(id) => Ok(id@),
        Err(error) => Err(error.deep_view()),
    }
}

/// Checks the kind and the custom subdomain of an account.
fn check_name(endpoint: &AzureEndpoint, account: &ArmAccount) -> (res: Option<BindingError>)
    ensures
        res.deep_view() == name_problem(endpoint.deep_view(), account.deep_view()),
{
    if !text_eq(account.kind.as_str(), "OpenAI") && !text_eq(account.kind.as_str(), "AIServices") {
        return Some(BindingError::KindNotAllowed { kind: account.kind.clone() });
    }
    match &account.properties.custom_sub_domain_name {
        None => Some(BindingError::SubdomainMissing),
        Some(subdomain) => {
            if trims_to_nothing(subdomain.as_str()) {
                return Some(BindingError::SubdomainEmpty);
            }
            let subdomain = subdomain.as_str().trim().to_ascii_lowercase();
            if !text_eq(subdomain.as_str(), endpoint.account_name.as_str()) {
                Some(
                    BindingError::SubdomainMismatch {
                        subdomain,
                        account_label: endpoint.account_name.clone(),
                    },
                )
            } else {
                None
            }
        },
    }
}

/// Checks the endpoint of an account whose name is in order.
fn check_url(endpoint: &AzureEndpoint, account: &ArmAccount, url: &ParsedUrl) -> (res: Option<
    BindingError,
>)
    ensures
        res.deep_view() == url_problem(
            endpoint.deep_view(),
            account.deep_view(),
            parsed_model(*url),
        ),
{
    match &account.properties.endpoint {
        None => Some(BindingError::EndpointMissing),
        Some(text) => match url {
            Err(reason) => Some(
                BindingError::EndpointUnparsable { endpoint: text.clone(), reason: reason.clone() },
            ),
            Ok(parts) => {
                if !text_eq(parts.scheme.as_str(), "https") {
                    return Some(BindingError::EndpointNotHttps);
                }
                if parts.has_userinfo() {
                    return Some(BindingError::EndpointUserinfo);
                }
                match &parts.host {
                    None => Some(BindingError::EndpointNoHost),
                    Some(host) => {
                        let host = host.as_str().to_ascii_lowercase();
                        let expected = joined(endpoint.account_name.as_str(), endpoint.suffix);
                        if !text_eq(host.as_str(), expected.as_str()) {
                            Some(BindingError::HostUnexpected { host, expected })
                        } else if !text_eq(host.as_str(), endpoint.host.as_str()) {
                            Some(
                                BindingError::HostMismatch {
                                    host,
                                    configured: endpoint.host.clone(),
                                },
                            )
                        } else {
                            None
                        }
                    },
                }
            },
        },
    }
}

/// Checks that an account is the one behind the configured endpoint and stores no content, given
/// what the URL parser made of the account's own endpoint. Answers with the account's identifier.
pub fn binding_from_url<'account>(
    endpoint: &AzureEndpoint,
    account: &'account ArmAccount,
    url: &ParsedUrl,
) -> (res: Result<&'account str, BindingError>)
    ensures
        binding_result_model(res) == binding_outcome(
            endpoint.deep_view(),
            account.deep_view(),
            parsed_model(*url),
        ),
        account.properties.rai_monitor_config matches Some(value) && value !is Null ==> res is Err,
        account.properties.user_owned_storage matches Some(value) && is_non_empty_json(value)
            ==> res is Err,
        res matches Ok(id) ==> {
            &&& id@ == account.id@
            &&& account.kind@ == "OpenAI"@ || account.kind@ == "AIServices"@
            &&& url matches Ok(parts)
            &&& parts.scheme@ == "https"@
            &&& parts.username@.len() == 0
            &&& parts.password is None
            &&& parts.host matches Some(host)
            &&& ascii_lower(host@) == endpoint.host@
        },
{
    match check_name(endpoint, account) {
        Some(problem) => return Err(problem),
        None => {},
    }
    match check_url(endpoint, account, url) {
        Some(problem) => return Err(problem),
        None => {},
    }
    match &account.properties.rai_monitor_config {
        Some(JsonValue::Null) => {},
        Some(_) => return Err(BindingError::RaiMonitorConfigured),
        None => {},
    }
    match &account.properties.user_owned_storage {
        Some(value) => if non_empty_json_value(value) {
            return Err(BindingError::UserOwnedStorage);
        },
        None => {},
    }
    if trims_to_nothing(account.id.as_str()) {
        return Err(BindingError::IdEmpty);
    }
    Ok(account.id.as_str())
}

/// Checks that an account is the one behind the configured endpoint and stores no content. Answers
/// with the account's identifier.
pub fn assert_account_binding<'account>(
    endpoint: &AzureEndpoint,
    account: &'account ArmAccount,
) -> (res: Result<&'account str, BindingError>)
    ensures
        binding_result_model(res) == binding_outcome(
            endpoint.deep_view(),
            account.deep_view(),
            url_of_account(account.deep_view()),
        ),
        account.properties.rai_monitor_config matches Some(value) && value !is Null ==> res is Err,
        account.properties.user_owned_storage matches Some(value) && is_non_empty_json(value)
            ==> res is Err,
        res matches Ok(id) ==> {
            &&& id@ == account.id@
            &&& account.kind@ == "OpenAI"@ || account.kind@ == "AIServices"@
            &&& account.properties.endpoint matches Some(text)
            &&& parsed_url(text@) matches Ok(parts)
            &&& parts.scheme == "https"@
            &&& parts.username.len() == 0
            &&& parts.password is None
            &&& parts.host matches Some(host)
            &&& ascii_lower(host) == endpoint.host@
        },
{
    let url: ParsedUrl = match &account.properties.endpoint {
        Some(text) => parse_url(text.as_str()),
        None => Err(String::new()),
    };
    binding_from_url(endpoint, account, &url)
}

/// The message of a failed binding check.
pub open spec fn binding_message(error: BindingErrorModel) -> Seq<char> {
    match error {
        BindingErrorModel::KindNotAllowed { kind } => "Azure account kind '"@ + kind
            + "' is not allowed; expected one of OpenAI, AIServices"@,
        BindingErrorModel::SubdomainMissing => "Azure account properties.customSubDomainName is missing"@,
        BindingErrorModel::SubdomainEmpty => "Azure account properties.customSubDomainName is empty"@,
        BindingErrorModel::SubdomainMismatch {
            subdomain,
            account_label,
        } => "Azure account properties.customSubDomainName '"@ + subdomain
            + "' does not match configured endpoint account label '"@ + account_label + "'"@,
        BindingErrorModel::EndpointMissing => "Azure account properties.endpoint is missing"@,
        BindingErrorModel::EndpointUnparsable { endpoint, reason } => "parse Azure account endpoint "@
            + debug_form(endpoint),
        BindingErrorModel::EndpointNotHttps => "Azure account properties.endpoint must use https"@,
        BindingErrorModel::EndpointUserinfo => "Azure account properties.endpoint must not contain userinfo"@,
        BindingErrorModel::EndpointNoHost => "Azure account properties.endpoint must include a DNS host"@,
        BindingErrorModel::HostUnexpected {
            host,
            expected,
        } => "Azure account properties.endpoint host '"@ + host + "' did not match expected '"@
            + expected + "'"@,
        BindingErrorModel::HostMismatch { host, configured } => "Azure account endpoint host '"@
            + host + "' does not match configured AZURE_OPENAI_ENDPOINT host '"@ + configured
            + "'"@,
        BindingErrorModel::RaiMonitorConfigured => "Azure account properties.raiMonitorConfig must be null or absent"@,
        BindingErrorModel::UserOwnedStorage => "Azure account properties.userOwnedStorage must be null, absent, or empty"@,
        BindingErrorModel::IdEmpty => "Azure account id is empty"@,
    }
}

/// The message of a failed binding check with its cause, where it has one.
pub open spec fn binding_detail(error: BindingErrorModel) -> Seq<char> {
    match error {
        BindingErrorModel::EndpointUnparsable { endpoint, reason } => binding_message(error)
            + ": "@ + reason,
        _ => binding_message(error),
    }
}

impl BindingError {
    /// What is wrong, in words.
    pub fn message(&self) -> (res: String)
        ensures
            res@ == binding_message(self.deep_view()),
    {
        match self {
            BindingError::KindNotAllowed { kind } => {
                let mut res = joined("Azure account kind '", kind.as_str());
                res.append("' is not allowed; expected one of OpenAI, AIServices");
                res
            },
            BindingError::SubdomainMissing => "Azure account properties.customSubDomainName is missing".to_owned(),
            BindingError::SubdomainEmpty => "Azure account properties.customSubDomainName is empty".to_owned(),
            BindingError::SubdomainMismatch { subdomain, account_label } => {
                let mut res = joined(
                    "Azure account properties.customSubDomainName '",
                    subdomain.as_str(),
                );
                res.append("' does not match configured endpoint account label '");
                res.append(account_label.as_str());
                res.append("'");
                res
            },
            BindingError::EndpointMissing => "Azure account properties.endpoint is missing".to_owned(),
            BindingError::EndpointUnparsable { endpoint, .. } => {
                let quoted = debug_text(endpoint.as_str());
                joined("parse Azure account endpoint ", quoted.as_str())
            },
            BindingError::EndpointNotHttps => "Azure account properties.endpoint must use https".to_owned(),
            BindingError::EndpointUserinfo => "Azure account properties.endpoint must not contain userinfo".to_owned(),
            BindingError::EndpointNoHost => "Azure account properties.endpoint must include a DNS host".to_owned(),
            BindingError::HostUnexpected { host, expected } => {
                let mut res = joined("Azure account properties.endpoint host '", host.as_str());
                res.append("' did not match expected '");
                res.append(expected.as_str());
                res.append("'");
                res
            },
            BindingError::HostMismatch { host, configured } => {
                let mut res = joined("Azure account endpoint host '", host.as_str());
                res.append("' does not match configured AZURE_OPENAI_ENDPOINT host '");
                res.append(configured.as_str());
                res.append("'");
                res
            },
            BindingError::RaiMonitorConfigured => "Azure account properties.raiMonitorConfig must be null or absent".to_owned(),
            BindingError::UserOwnedStorage => "Azure account properties.userOwnedStorage must be null, absent, or empty".to_owned(),
            BindingError::IdEmpty => "Azure account id is empty".to_owned(),
        }
    }

    /// What is wrong and why, in words.
    pub fn detail(&self) -> (res: String)
        ensures
            res@ == binding_detail(self.deep_view()),
    {
        let mut res = self.message();
        match self {
            BindingError::EndpointUnparsable { reason, .. } => {
                res.append(": ");
                res.append(reason.as_str());
            },
            _ => {},
        }
        res
    }
}

/// An account that may serve behind an endpoint: it is of an allowed kind, its trimmed lower-case
/// subdomain is the account label, its own endpoint is an `https` URL without userinfo whose host
/// is the configured one and the subdomain followed by the configured suffix, it neither monitors
/// content nor has storage of its owner, and it has an identifier.
pub open spec fn is_bound(
    endpoint: EndpointModel,
    account: AccountModel,
    url: Result<UrlModel, Seq<char>>,
) -> bool {
    &&& is_allowed_kind(account.kind)
    &&& account.custom_sub_domain_name matches Some(subdomain)
    &&& !is_blank(subdomain)
    &&& normal_subdomain(subdomain) == endpoint.account_name
    &&& account.endpoint is Some
    &&& url matches Ok(parts)
    &&& parts.scheme == "https"@
    &&& !parts.has_userinfo()
    &&& parts.host matches Some(host)
    &&& ascii_lower(host) == endpoint.host
    &&& endpoint.host == endpoint.account_name + endpoint.suffix
    &&& !monitors_content(account)
    &&& !has_owned_storage(account)
    &&& !is_blank(account.id)
}

/// The binding check passes exactly the accounts that are bound, and answers with their
/// identifier.
pub proof fn binding_accepted_iff_bound(
    endpoint: EndpointModel,
    account: AccountModel,
    url: Result<UrlModel, Seq<char>>,
)
    ensures
        binding_outcome(endpoint, account, url) is Ok <==> is_bound(endpoint, account, url),
        is_bound(endpoint, account, url) ==> binding_outcome(endpoint, account, url) == Ok::<
            Seq<char>,
            BindingErrorModel,
        >(account.id),
{
}

/// An account is accepted exactly when it is of kind `OpenAI` or `AIServices`; its subdomain is not
/// blank and, trimmed and in lower case, the account label; its own endpoint is an `https` URL with
/// neither a user name nor a password, and its host, in lower case, is the configured one, which is
/// the account label followed by the configured suffix; its monitoring is absent or null; its
/// storage is absent, null, an empty array or object, or a blank text; and its identifier is not
/// blank. The answer is the identifier.
pub proof fn account_accepted_iff(
    endpoint: EndpointModel,
    account: AccountModel,
    url: Result<UrlModel, Seq<char>>,
)
    ensures
        binding_outcome(endpoint, account, url) is Ok <==> {
            &&& account.kind == "OpenAI"@ || account.kind == "AIServices"@
            &&& account.custom_sub_domain_name matches Some(subdomain)
            &&& trimmed(subdomain).len() > 0
            &&& ascii_lower(trimmed(subdomain)) == endpoint.account_name
            &&& account.endpoint is Some
            &&& url matches Ok(parts)
            &&& parts.scheme == "https"@
            &&& parts.username.len() == 0
            &&& parts.password is None
            &&& parts.host matches Some(host)
            &&& ascii_lower(host) == endpoint.host
            &&& ascii_lower(host) == endpoint.account_name + endpoint.suffix
            &&& match account.rai_monitor_config {
                None => true,
                Some(value) => value is Null,
            }
            &&& match account.user_owned_storage {
                None => true,
                Some(JsonValue::Null) => true,
                Some(JsonValue::Array(values)) => values@.len() == 0,
                Some(JsonValue::Object(fields)) => fields@.len() == 0,
                Some(JsonValue::Text(text)) => trimmed(text@).len() == 0,
                Some(_) => false,
            }
            &&& trimmed(account.id).len() > 0
        },
        binding_outcome(endpoint, account, url) matches Ok(id) ==> id == account.id,
{
    lemma_blanks(account);
}

/// What the texts of an account trim to.
proof fn lemma_blanks(account: AccountModel)
    ensures
        is_blank(account.id) <==> trimmed(account.id).len() == 0,
        account.custom_sub_domain_name matches Some(subdomain) ==> (is_blank(subdomain)
            <==> trimmed(subdomain).len() == 0),
        account.user_owned_storage matches Some(JsonValue::Text(text)) ==> (is_blank(text@)
            <==> trimmed(text@).len() == 0),
{
    lemma_trim_empty(account.id);
    if let Some(subdomain) = account.custom_sub_domain_name {
        lemma_trim_empty(subdomain);
    }
    if let Some(JsonValue::Text(text)) = account.user_owned_storage {
        lemma_trim_empty(text@);
    }
}

/// Content monitoring that is any JSON value but null is refused, whatever it holds and whatever
/// else the account says.
pub proof fn content_monitoring_is_refused(
    endpoint: EndpointModel,
    account: AccountModel,
    url: Result<UrlModel, Seq<char>>,
    value: JsonValue,
)
    requires
        account.rai_monitor_config == Some(value),
        !(value is Null),
    ensures
        binding_outcome(endpoint, account, url) is Err,
{
}

/// Storage of the owner that holds anything is refused, whatever else the account says.
pub proof fn owned_storage_is_refused(
    endpoint: EndpointModel,
    account: AccountModel,
    url: Result<UrlModel, Seq<char>>,
    value: JsonValue,
)
    requires
        account.user_owned_storage == Some(value),
        match value {
            JsonValue::Null => false,
            JsonValue::Array(values) => values@.len() > 0,
            JsonValue::Object(fields) => fields@.len() > 0,
            JsonValue::Text(text) => trimmed(text@).len() > 0,
            JsonValue::Bool(_) => true,
            JsonValue::Number(_) => true,
        },
    ensures
        binding_outcome(endpoint, account, url) is Err,
{
    lemma_blanks(account);
}

/// Content monitoring and storage of the owner are refused whatever else the account says.
pub proof fn content_capture_is_refused(
    endpoint: EndpointModel,
    account: AccountModel,
    url: Result<UrlModel, Seq<char>>,
)
    requires
        monitors_content(account) || has_owned_storage(account),
    ensures
        binding_outcome(endpoint, account, url) is Err,
{
}

/// The name of an account is looked at first: its kind, then its subdomain.
pub proof fn refused_name_says_why(
    endpoint: EndpointModel,
    account: AccountModel,
    url: Result<UrlModel, Seq<char>>,
)
    ensures
        account.kind != "OpenAI"@ && account.kind != "AIServices"@ ==> binding_outcome(
            endpoint,
            account,
            url,
        ) == Err::<Seq<char>, _>(BindingErrorModel::KindNotAllowed { kind: account.kind }),
        account.kind == "OpenAI"@ || account.kind == "AIServices"@ ==> match account.custom_sub_domain_name {
            None => binding_outcome(endpoint, account, url) == Err::<Seq<char>, _>(
                BindingErrorModel::SubdomainMissing,
            ),
            Some(subdomain) => {
                &&& trimmed(subdomain).len() == 0 ==> binding_outcome(endpoint, account, url)
                    == Err::<Seq<char>, _>(BindingErrorModel::SubdomainEmpty)
                &&& trimmed(subdomain).len() > 0 && ascii_lower(trimmed(subdomain))
                    != endpoint.account_name ==> binding_outcome(endpoint, account, url) == Err::<
                    Seq<char>,
                    _,
                >(
                    BindingErrorModel::SubdomainMismatch {
                        subdomain: ascii_lower(trimmed(subdomain)),
                        account_label: endpoint.account_name,
                    },
                )
            },
        },
{
    lemma_blanks(account);
}

/// The endpoint of an account whose name is in order is looked at next: whether it is there, is a
/// URL, uses `https`, carries no userinfo, has a host, and that it is the expected one and the
/// configured one.
pub proof fn refused_url_says_why(
    endpoint: EndpointModel,
    account: AccountModel,
    url: Result<UrlModel, Seq<char>>,
)
    requires
        account.kind == "OpenAI"@ || account.kind == "AIServices"@,
        account.custom_sub_domain_name matches Some(subdomain) && trimmed(subdomain).len() > 0
            && ascii_lower(trimmed(subdomain)) == endpoint.account_name,
    ensures
        account.endpoint is None ==> binding_outcome(endpoint, account, url) == Err::<Seq<char>, _>(
            BindingErrorModel::EndpointMissing,
        ),
        account.endpoint matches Some(text) ==> match url {
            Err(reason) => binding_outcome(endpoint, account, url) == Err::<Seq<char>, _>(
                BindingErrorModel::EndpointUnparsable { endpoint: text, reason },
            ),
            Ok(parts) => {
                let host = ascii_lower(parts.host->Some_0);
                let expected = endpoint.account_name + endpoint.suffix;
                if parts.scheme != "https"@ {
                    binding_outcome(endpoint, account, url) == Err::<Seq<char>, _>(
                        BindingErrorModel::EndpointNotHttps,
                    )
                } else if parts.username.len() > 0 || parts.password is Some {
                    binding_outcome(endpoint, account, url) == Err::<Seq<char>, _>(
                        BindingErrorModel::EndpointUserinfo,
                    )
                } else if parts.host is None {
                    binding_outcome(endpoint, account, url) == Err::<Seq<char>, _>(
                        BindingErrorModel::EndpointNoHost,
                    )
                } else if host != expected {
                    binding_outcome(endpoint, account, url) == Err::<Seq<char>, _>(
                        BindingErrorModel::HostUnexpected { host, expected },
                    )
                } else {
                    host != endpoint.host ==> binding_outcome(endpoint, account, url) == Err::<
                        Seq<char>,
                        _,
                    >(BindingErrorModel::HostMismatch { host, configured: endpoint.host })
                }
            },
        },
{
    lemma_blanks(account);
}

/// What an account may store is looked at last: monitoring, then storage of the owner, then the
/// identifier.
pub proof fn refused_capture_says_why(
    endpoint: EndpointModel,
    account: AccountModel,
    url: Result<UrlModel, Seq<char>>,
)
    requires
        name_problem(endpoint, account) is None,
        url_problem(endpoint, account, url) is None,
    ensures
        ({
            let outcome = binding_outcome(endpoint, account, url);
            let monitored = account.rai_monitor_config is Some && !(
            account.rai_monitor_config->Some_0 is Null);
            let stored = match account.user_owned_storage {
                None => false,
                Some(JsonValue::Null) => false,
                Some(JsonValue::Array(values)) => values@.len() > 0,
                Some(JsonValue::Object(fields)) => fields@.len() > 0,
                Some(JsonValue::Text(text)) => trimmed(text@).len() > 0,
                Some(_) => true,
            };
            &&& monitored <==> outcome == Err::<Seq<char>, _>(
                BindingErrorModel::RaiMonitorConfigured,
            )
            &&& !monitored && stored <==> outcome == Err::<Seq<char>, _>(
                BindingErrorModel::UserOwnedStorage,
            )
            &&& !monitored && !stored && trimmed(account.id).len() == 0 <==> outcome == Err::<
                Seq<char>,
                _,
            >(BindingErrorModel::IdEmpty)
        }),
{
    lemma_blanks(account);
}

/// The messages of failed binding checks quote what they refuse, unchanged.
pub proof fn binding_messages_quote_what_they_refuse(a: Seq<char>, b: Seq<char>)
    ensures
        binding_message(BindingErrorModel::KindNotAllowed { kind: a }) == "Azure account kind '"@ + a
            + "' is not allowed; expected one of OpenAI, AIServices"@,
        binding_message(BindingErrorModel::SubdomainMismatch { subdomain: a, account_label: b })
            == "Azure account properties.customSubDomainName '"@ + a
            + "' does not match configured endpoint account label '"@ + b + "'"@,
        binding_detail(BindingErrorModel::EndpointUnparsable { endpoint: a, reason: b })
            == "parse Azure account endpoint "@ + debug_form(a) + ": "@ + b,
        binding_message(BindingErrorModel::HostUnexpected { host: a, expected: b })
            == "Azure account properties.endpoint host '"@ + a + "' did not match expected '"@ + b
            + "'"@,
        binding_message(BindingErrorModel::HostMismatch { host: a, configured: b })
            == "Azure account endpoint host '"@ + a
            + "' does not match configured AZURE_OPENAI_ENDPOINT host '"@ + b + "'"@,
        forall|error: BindingErrorModel|
            !(error is EndpointUnparsable) ==> #[trigger] binding_detail(error) == binding_message(
                error,
            ),
{
}

} // verus!
