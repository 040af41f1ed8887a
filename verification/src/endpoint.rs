//! The Azure OpenAI endpoint that the miner is configured with.
use vstd::prelude::*;

use crate::text::{
    ascii_lower, chars_of, joined, debug_form, debug_text, has_suffix, text_eq,
};
use crate::web_url::{parse_url, parsed_model, parsed_url, ParsedUrl, UrlModel};

verus! {

/// Host suffix of an Azure OpenAI account.
pub const OPENAI_SUFFIX: &'static str = ".openai.azure.com";

/// Host suffix of an Azure AI Services account.
pub const SERVICES_AI_SUFFIX: &'static str = ".services.ai.azure.com";

/// Host suffix of an Azure Cognitive Services account.
pub const COGNITIVE_SERVICES_SUFFIX: &'static str = ".cognitiveservices.azure.com";

/// The host suffixes of the endpoints that are allowed.
pub open spec fn allowed_suffixes() -> Seq<Seq<char>> {
    seq![OPENAI_SUFFIX@, SERVICES_AI_SUFFIX@, COGNITIVE_SERVICES_SUFFIX@]
}

/// A checked endpoint: its host, the leftmost label of the host and the allowed suffix that the
/// host ends with.
#[derive(Debug, PartialEq, Eq)]
pub struct AzureEndpoint {
    pub host: String,
    pub account_name: String,
    pub suffix: &'static str,
}

/// The mathematical model of [`AzureEndpoint`].
pub struct EndpointModel {
    pub host: Seq<char>,
    pub account_name: Seq<char>,
    pub suffix: Seq<char>,
}

impl DeepView for AzureEndpoint {
    type V = EndpointModel;

    open spec fn deep_view(&self) -> EndpointModel {
        EndpointModel {
            host: self.host@,
            account_name: self.account_name@,
            suffix: self.suffix@,
        }
    }
}

/// A host that is not a DNS name, with the name of the setting that it came from.
#[derive(Debug, PartialEq, Eq)]
pub struct InvalidHost {
    pub label: String,
    pub host: String,
}

/// The mathematical model of [`InvalidHost`].
pub struct InvalidHostModel {
    pub label: Seq<char>,
    pub host: Seq<char>,
}

impl DeepView for InvalidHost {
    type V = InvalidHostModel;

    open spec fn deep_view(&self) -> InvalidHostModel {
        InvalidHostModel { label: self.label@, host: self.host@ }
    }
}

/// Why an endpoint is refused.
#[derive(Debug, PartialEq, Eq)]
pub enum EndpointError {
    /// The setting is not a URL.
    Unparsable { endpoint: String, reason: String },
    /// The scheme is not `https`.
    NotHttps,
    /// The URL carries a user name or a password.
    Userinfo,
    /// The URL has no host.
    NoHost,
    /// The host is not a DNS name.
    InvalidHost(InvalidHost),
    /// The host ends with none of the allowed suffixes.
    SuffixNotAllowed { host: String },
}

/// The mathematical model of [`EndpointError`].
pub enum EndpointErrorModel {
    Unparsable { endpoint: Seq<char>, reason: Seq<char> },
    NotHttps,
    Userinfo,
    NoHost,
    InvalidHost(InvalidHostModel),
    SuffixNotAllowed { host: Seq<char> },
}

impl DeepView for EndpointError {
    type V = EndpointErrorModel;

    open spec fn deep_view(&self) -> EndpointErrorModel {
        match self {
            EndpointError::Unparsable { endpoint, reason } => EndpointErrorModel::Unparsable {
                endpoint: endpoint@,
                reason: reason@,
            },
            EndpointError::NotHttps => EndpointErrorModel::NotHttps,
            EndpointError::Userinfo => EndpointErrorModel::Userinfo,
            EndpointError::NoHost => EndpointErrorModel::NoHost,
            EndpointError::InvalidHost(error) => EndpointErrorModel::InvalidHost(
                error.deep_view(),
            ),
            EndpointError::SuffixNotAllowed { host } => EndpointErrorModel::SuffixNotAllowed {
                host: host@,
            },
        }
    }
}

/// A character of a DNS name: an ASCII letter or digit, `.` or `-`.
pub open spec fn is_dns_char(c: char) -> bool {
    ||| 'a' <= c <= 'z'
    ||| 'A' <= c <= 'Z'
    ||| '0' <= c <= '9'
    ||| c == '.'
    ||| c == '-'
}

/// A DNS name: DNS characters, and no label between the dots is empty.
pub open spec fn is_dns_host(host: Seq<char>) -> bool {
    &&& host.len() > 0
    &&& host[0] != '.'
    &&& host.last() != '.'
    &&& forall|i: int| 0 <= i < host.len() ==> is_dns_char(#[trigger] host[i])
    &&& forall|i: int, j: int|
        0 <= i < host.len() && j == i + 1 && j < host.len() && #[trigger] host[i] == '.'
            ==> #[trigger] host[j] != '.'
}

/// Whether `host` is something followed by `suffix`.
pub open spec fn allowed_by_suffix(host: Seq<char>, suffix: Seq<char>) -> bool {
    host.len() > suffix.len() && has_suffix(host, suffix)
}

/// The first allowed suffix that `host` ends with.
pub open spec fn matching_suffix(host: Seq<char>) -> Option<Seq<char>> {
    if allowed_by_suffix(host, allowed_suffixes()[0]) {
        Some(allowed_suffixes()[0])
    } else if allowed_by_suffix(host, allowed_suffixes()[1]) {
        Some(allowed_suffixes()[1])
    } else if allowed_by_suffix(host, allowed_suffixes()[2]) {
        Some(allowed_suffixes()[2])
    } else {
        None
    }
}

/// The text before the first dot, or all of it where there is no dot.
pub open spec fn first_label(host: Seq<char>) -> Seq<char>
    decreases host.len(),
{
    if host.len() == 0 || host[0] == '.' {
        seq![]
    } else {
        seq![host[0]] + first_label(host.drop_first())
    }
}

/// The name that messages give to the host of the endpoint.
pub const ENDPOINT_HOST_LABEL: &'static str = "AZURE_OPENAI_ENDPOINT host";

/// What the endpoint check answers for a setting, given what the URL parser made of it.
pub open spec fn endpoint_outcome(
    endpoint: Seq<char>,
    parsed: Result<UrlModel, Seq<char>>,
) -> Result<EndpointModel, EndpointErrorModel> {
    match parsed {
        Err(reason) => Err(EndpointErrorModel::Unparsable { endpoint, reason }),
        Ok(url) => if url.scheme != "https"@ {
            Err(EndpointErrorModel::NotHttps)
        } else if url.has_userinfo() {
            Err(EndpointErrorModel::Userinfo)
        } else {
            match url.host {
                None => Err(EndpointErrorModel::NoHost),
                Some(host) => host_outcome(ascii_lower(host)),
            }
        },
    }
}

/// What the endpoint check answers for a lower-case host.
pub open spec fn host_outcome(host: Seq<char>) -> Result<EndpointModel, EndpointErrorModel> {
    if !is_dns_host(host) {
        Err(
            EndpointErrorModel::InvalidHost(
                InvalidHostModel { label: ENDPOINT_HOST_LABEL@, host },
            ),
        )
    } else {
        match matching_suffix(host) {
            None => Err(EndpointErrorModel::SuffixNotAllowed { host }),
            Some(suffix) => Ok(
                EndpointModel { host, account_name: first_label(host), suffix },
            ),
        }
    }
}

/// The model of a checked endpoint or of its refusal.
pub open spec fn endpoint_result_model(
    res: Result<AzureEndpoint, EndpointError>,
) -> Result<EndpointModel, EndpointErrorModel> {
    match res {
        Ok(endpoint) => Ok(endpoint.deep_view()),
        Err(error) => Err(error.deep_view()),
    }
}

/// Whether `c` may stand in a DNS name.
fn dns_char(c: char) -> (res: bool)
    ensures
        res == is_dns_char(c),
{
    ('a' <= c && c <= 'z') || ('A' <= c && c <= 'Z') || ('0' <= c && c <= '9') || c == '.' || c
        == '-'
}

/// Checks that `host` is a DNS name; `label` says in the error where it came from.
pub fn validate_dns_host(label: &str, host: &str) -> (res: Result<(), InvalidHost>)
    ensures
        match res {
            Ok(()) => is_dns_host(host@),
            Err(error) => !is_dns_host(host@) && error.deep_view() == (InvalidHostModel {
                label: label@,
                host: host@,
            }),
        },
{
    let chars = chars_of(host);
    let mut valid: bool = chars.len() > 0 && chars[0] != '.' && chars[chars.len() - 1] != '.';
    let mut i: usize = 0;
    while valid && i < chars.len()
        invariant
            0 <= i <= chars@.len(),
            chars@ == host@,
            valid ==> host@.len() > 0 && host@[0] != '.' && host@.last() != '.',
            valid ==> forall|k: int| 0 <= k < i ==> is_dns_char(#[trigger] host@[k]),
            valid ==> forall|k: int, j: int|
                0 <= k < i && j == k + 1 && j < host@.len() && #[trigger] host@[k] == '.'
                    ==> #[trigger] host@[j] != '.',
            !valid ==> !is_dns_host(host@),
        decreases chars@.len() - i + (if valid { 1int } else { 0int }),
    {
        if !dns_char(chars[i]) {
            valid = false;
        } else if chars[i] == '.' && i + 1 < chars.len() && chars[i + 1] == '.' {
            valid = false;
        } else {
            i = i + 1;
        }
    }
    if valid {
        Ok(())
    } else {
        Err(InvalidHost { label: label.to_owned(), host: host.to_owned() })
    }
}

/// Whether `host` is something followed by `suffix`.
pub fn host_allowed_by_suffix(host: &str, suffix: &str) -> (res: bool)
    ensures
        res == allowed_by_suffix(host@, suffix@),
{
    let host_chars = chars_of(host);
    let suffix_chars = chars_of(suffix);
    if host_chars.len() <= suffix_chars.len() {
        return false;
    }
    let start: usize = host_chars.len() - suffix_chars.len();
    let ghost tail = host@.skip(start as int);
    let mut i: usize = 0;
    while i < suffix_chars.len()
        invariant
            0 <= i <= suffix_chars@.len(),
            host_chars@ == host@,
            suffix_chars@ == suffix@,
            start + suffix_chars.len() == host_chars.len(),
            tail == host@.skip(start as int),
            forall|k: int| 0 <= k < i ==> tail[k] == #[trigger] suffix@[k],
        decreases suffix_chars@.len() - i,
    {
        assert(tail[i as int] == host_chars@[start + i]);
        if host_chars[start + i] != suffix_chars[i] {
            return false;
        }
        i = i + 1;
    }
    assert(tail =~= suffix@);
    true
}

/// The text before the first dot of `host`.
fn leftmost_label(host: &str) -> (res: String)
    ensures
        res@ == first_label(host@),
{
    let chars = chars_of(host);
    let mut label = String::new();
    let mut i: usize = 0;
    assert(chars@.skip(0) =~= chars@);
    while i < chars.len() && chars[i] != '.'
        invariant
            0 <= i <= chars@.len(),
            chars@ == host@,
            label@ + first_label(chars@.skip(i as int)) == first_label(chars@),
        decreases chars@.len() - i,
    {
        let c: char = chars[i];
        let ghost before = label@;
        label.push(c);
        proof {
            let rest = chars@.skip(i as int);
            assert(rest[0] == c);
            assert(rest.drop_first() =~= chars@.skip(i + 1));
            assert(before + (seq![c] + first_label(chars@.skip(i + 1))) =~= label@ + first_label(
                chars@.skip(i + 1),
            ));
        }
        i = i + 1;
    }
    assert(label@ + first_label(chars@.skip(i as int)) =~= label@);
    label
}

/// Checks a lower-case host and splits it.
fn endpoint_from_host(host: String) -> (res: Result<AzureEndpoint, EndpointError>)
    ensures
        endpoint_result_model(res) == host_outcome(host@),
{
    match validate_dns_host(ENDPOINT_HOST_LABEL, host.as_str()) {
        Err(error) => Err(EndpointError::InvalidHost(error)),
        Ok(()) => {
            let suffix: &'static str = if host_allowed_by_suffix(host.as_str(), OPENAI_SUFFIX) {
                OPENAI_SUFFIX
            } else if host_allowed_by_suffix(host.as_str(), SERVICES_AI_SUFFIX) {
                SERVICES_AI_SUFFIX
            } else if host_allowed_by_suffix(host.as_str(), COGNITIVE_SERVICES_SUFFIX) {
                COGNITIVE_SERVICES_SUFFIX
            } else {
                return Err(EndpointError::SuffixNotAllowed { host });
            };
            let account_name = leftmost_label(host.as_str());
            Ok(AzureEndpoint { host, account_name, suffix })
        },
    }
}

/// Checks the endpoint setting, given what the URL parser made of it.
pub fn endpoint_from_url(endpoint: &str, parsed: &ParsedUrl) -> (res: Result<
    AzureEndpoint,
    EndpointError,
>)
    ensures
        endpoint_result_model(res) == endpoint_outcome(endpoint@, parsed_model(*parsed)),
        res matches Ok(accepted) ==> {
            &&& parsed matches Ok(url)
            &&& url.scheme@ == "https"@
            &&& url.username@.len() == 0
            &&& url.password is None
            &&& url.host matches Some(host)
            &&& accepted.host@ == ascii_lower(host@)
        },
{
    match parsed {
        Err(reason) => Err(
            EndpointError::Unparsable { endpoint: endpoint.to_owned(), reason: reason.clone() },
        ),
        Ok(url) => if !text_eq(url.scheme.as_str(), "https") {
            Err(EndpointError::NotHttps)
        } else if url.has_userinfo() {
            Err(EndpointError::Userinfo)
        } else {
            match &url.host {
                None => Err(EndpointError::NoHost),
                Some(host) => endpoint_from_host(host.as_str().to_ascii_lowercase()),
            }
        },
    }
}

/// Parses and checks the endpoint setting.
pub fn parse_azure_openai_endpoint(endpoint: &str) -> (res: Result<AzureEndpoint, EndpointError>)
    ensures
        endpoint_result_model(res) == endpoint_outcome(endpoint@, parsed_url(endpoint@)),
{
    let parsed = parse_url(endpoint);
    endpoint_from_url(endpoint, &parsed)
}

/// The message of a host that is not a DNS name.
pub open spec fn invalid_host_message(error: InvalidHostModel) -> Seq<char> {
    error.label + " must be a DNS host (got '"@ + error.host + "')"@
}

impl InvalidHost {
    /// What is wrong, in words.
    pub fn message(&self) -> (res: String)
        ensures
            res@ == invalid_host_message(self.deep_view()),
    {
        let mut res = self.label.clone();
        res.append(" must be a DNS host (got '");
        res.append(self.host.as_str());
        res.append("')");
        res
    }
}

/// The message of a refused endpoint.
pub open spec fn endpoint_message(error: EndpointErrorModel) -> Seq<char> {
    match error {
        EndpointErrorModel::Unparsable { endpoint, reason } => "parse AZURE_OPENAI_ENDPOINT "@
            + debug_form(endpoint),
        EndpointErrorModel::NotHttps => "AZURE_OPENAI_ENDPOINT must use https"@,
        EndpointErrorModel::Userinfo => "AZURE_OPENAI_ENDPOINT must not contain userinfo"@,
        EndpointErrorModel::NoHost => "AZURE_OPENAI_ENDPOINT must include a DNS host"@,
        EndpointErrorModel::InvalidHost(error) => invalid_host_message(error),
        EndpointErrorModel::SuffixNotAllowed { host } => "AZURE_OPENAI_ENDPOINT host '"@ + host
            + "' is not in the allowed suffix set: openai.azure.com, services.ai.azure.com, cognitiveservices.azure.com"@,
    }
}

/// The message of a refused endpoint with its cause, where it has one.
pub open spec fn endpoint_detail(error: EndpointErrorModel) -> Seq<char> {
    match error {
        EndpointErrorModel::Unparsable { endpoint, reason } => endpoint_message(error) + ": "@
            + reason,
        _ => endpoint_message(error),
    }
}

impl EndpointError {
    /// What is wrong, in words.
    pub fn message(&self) -> (res: String)
        ensures
            res@ == endpoint_message(self.deep_view()),
    {
        match self {
            EndpointError::Unparsable { endpoint, .. } => {
                let quoted = debug_text(endpoint.as_str());
                joined("parse AZURE_OPENAI_ENDPOINT ", quoted.as_str())
            },
            EndpointError::NotHttps => "AZURE_OPENAI_ENDPOINT must use https".to_owned(),
            EndpointError::Userinfo => "AZURE_OPENAI_ENDPOINT must not contain userinfo".to_owned(),
            EndpointError::NoHost => "AZURE_OPENAI_ENDPOINT must include a DNS host".to_owned(),
            EndpointError::InvalidHost(error) => error.message(),
            EndpointError::SuffixNotAllowed { host } => {
                let mut res = joined("AZURE_OPENAI_ENDPOINT host '", host.as_str());
                res.append(
                    "' is not in the allowed suffix set: openai.azure.com, services.ai.azure.com, cognitiveservices.azure.com",
                );
                res
            },
        }
    }

    /// What is wrong and why, in words.
    pub fn detail(&self) -> (res: String)
        ensures
            res@ == endpoint_detail(self.deep_view()),
    {
        let mut res = self.message();
        match self {
            EndpointError::Unparsable { reason, .. } => {
                res.append(": ");
                res.append(reason.as_str());
            },
            _ => {},
        }
        res
    }
}

impl Clone for AzureEndpoint {
    fn clone(&self) -> (res: Self)
        ensures
            res.deep_view() == self.deep_view(),
    {
        AzureEndpoint {
            host: self.host.clone(),
            account_name: self.account_name.clone(),
            suffix: self.suffix,
        }
    }
}

/// An endpoint is accepted exactly when it is an `https` URL with neither a user name nor a
/// password, whose lower-case host is a DNS name and, after at least one character, ends with
/// `.openai.azure.com`, `.services.ai.azure.com` or `.cognitiveservices.azure.com`.
pub proof fn endpoint_accepted_iff(endpoint: Seq<char>, parsed: Result<UrlModel, Seq<char>>)
    ensures
        endpoint_outcome(endpoint, parsed) is Ok <==> {
            &&& parsed matches Ok(url)
            &&& url.scheme == "https"@
            &&& url.username.len() == 0
            &&& url.password is None
            &&& url.host matches Some(host)
            &&& is_dns_host(ascii_lower(host))
            &&& exists|head: Seq<char>|
                head.len() > 0 && {
                    ||| ascii_lower(host) == #[trigger] (head + ".openai.azure.com"@)
                    ||| ascii_lower(host) == head + ".services.ai.azure.com"@
                    ||| ascii_lower(host) == head + ".cognitiveservices.azure.com"@
                }
        },
{
    if let Ok(url) = parsed {
        if let Some(host) = url.host {
            let h = ascii_lower(host);
            lemma_allowed_iff_headed(h, ".openai.azure.com"@);
            lemma_allowed_iff_headed(h, ".services.ai.azure.com"@);
            lemma_allowed_iff_headed(h, ".cognitiveservices.azure.com"@);
            assert(allowed_suffixes()[0] == ".openai.azure.com"@);
            assert(allowed_suffixes()[1] == ".services.ai.azure.com"@);
            assert(allowed_suffixes()[2] == ".cognitiveservices.azure.com"@);
            if matching_suffix(h) is Some {
                let suffix = matching_suffix(h)->Some_0;
                let head = h.take(h.len() - suffix.len());
                assert(h == head + ".openai.azure.com"@ || h == head + ".services.ai.azure.com"@
                    || h == head + ".cognitiveservices.azure.com"@);
            }
        }
    }
}

/// A host is allowed by a suffix exactly when it is something, not nothing, followed by it.
proof fn lemma_allowed_iff_headed(host: Seq<char>, suffix: Seq<char>)
    ensures
        allowed_by_suffix(host, suffix) ==> host.take(host.len() - suffix.len()).len() > 0
            && host == host.take(host.len() - suffix.len()) + suffix,
        forall|head: Seq<char>|
            head.len() > 0 && host == #[trigger] (head + suffix) ==> allowed_by_suffix(host, suffix),
{
    if allowed_by_suffix(host, suffix) {
        assert(host =~= host.take(host.len() - suffix.len()) + suffix);
    }
    assert forall|head: Seq<char>| head.len() > 0 && host == #[trigger] (head
        + suffix) implies allowed_by_suffix(host, suffix) by {
        assert(host.skip(host.len() - suffix.len()) =~= suffix);
    }
}

/// A host is allowed by a suffix exactly when something, not nothing, stands before the suffix.
pub proof fn allowed_iff_something_before_the_suffix(host: Seq<char>, suffix: Seq<char>)
    ensures
        allowed_by_suffix(host, suffix) <==> exists|head: Seq<char>|
            head.len() > 0 && host == #[trigger] (head + suffix),
{
    lemma_allowed_iff_headed(host, suffix);
}

/// A text without a dot is a DNS name exactly when it is not empty and holds ASCII letters, digits
/// and hyphens only.
pub proof fn dns_label_iff(label: Seq<char>)
    requires
        !label.contains('.'),
    ensures
        is_dns_host(label) <==> label.len() > 0 && forall|i: int|
            0 <= i < label.len() ==> {
                let c = #[trigger] label[i];
                ||| 'a' <= c <= 'z'
                ||| 'A' <= c <= 'Z'
                ||| '0' <= c <= '9'
                ||| c == '-'
            },
{
    assert forall|i: int| 0 <= i < label.len() implies #[trigger] label[i] != '.' by {
        assert(label.contains(label[i]));
    }
}

/// What stands on both sides of a dot of a DNS name are DNS names, and two of them with a dot
/// between them are one.
pub proof fn dns_host_iff_both_sides(a: Seq<char>, b: Seq<char>)
    ensures
        is_dns_host(a + seq!['.'] + b) <==> is_dns_host(a) && is_dns_host(b),
{
    let host = a + seq!['.'] + b;
    let n = a.len() as int;
    assert forall|i: int| 0 <= i < n implies #[trigger] host[i] == a[i] by {}
    assert forall|i: int| 0 <= i < b.len() implies #[trigger] b[i] == host[n + 1 + i] by {}
    assert(host[n] == '.');
    if is_dns_host(host) {
        if n > 0 {
            assert(host[n - 1] == a.last());
        }
        if b.len() > 0 {
            assert(host[n + 1] == b[0]);
            assert(host.last() == b.last());
        } else {
            assert(host.last() == '.');
        }
        assert forall|i: int| 0 <= i < a.len() implies is_dns_char(#[trigger] a[i]) by {
            assert(host[i] == a[i]);
        }
        assert forall|i: int, j: int|
            0 <= i < a.len() && j == i + 1 && j < a.len() && #[trigger] a[i]
                == '.' implies #[trigger] a[j] != '.' by {
            assert(host[i] == a[i] && host[j] == a[j]);
        }
        assert forall|i: int, j: int|
            0 <= i < b.len() && j == i + 1 && j < b.len() && #[trigger] b[i]
                == '.' implies #[trigger] b[j] != '.' by {
            assert(host[n + 1 + i] == b[i] && host[n + 1 + j] == b[j]);
        }
    }
    if is_dns_host(a) && is_dns_host(b) {
        assert forall|i: int| 0 <= i < host.len() implies is_dns_char(#[trigger] host[i]) by {
            if i > n {
                assert(host[i] == b[i - n - 1]);
            }
        }
        assert forall|i: int, j: int|
            0 <= i < host.len() && j == i + 1 && j < host.len() && #[trigger] host[i]
                == '.' implies #[trigger] host[j] != '.' by {
            if i < n && j < n {
                assert(host[i] == a[i] && host[j] == a[j]);
            } else if i < n {
                assert(a.last() == host[i]);
            } else if i == n {
                assert(host[j] == b[0]);
            } else {
                assert(host[i] == b[i - n - 1] && host[j] == b[j - n - 1]);
            }
        }
        assert(host[0] == a[0]);
        assert(host.last() == b.last());
    }
}

/// A refused endpoint is refused for the first of these that holds: it is no URL, it does not use
/// `https`, it carries a user name or a password, it has no host, its host is no DNS name, its host
/// ends with none of the allowed suffixes.
pub proof fn refused_endpoint_says_why(endpoint: Seq<char>, parsed: Result<UrlModel, Seq<char>>)
    requires
        endpoint_outcome(endpoint, parsed) is Err,
    ensures
        endpoint_outcome(endpoint, parsed)->Err_0 == match parsed {
            Err(reason) => EndpointErrorModel::Unparsable { endpoint, reason },
            Ok(url) => if url.scheme != "https"@ {
                EndpointErrorModel::NotHttps
            } else if url.username.len() > 0 || url.password is Some {
                EndpointErrorModel::Userinfo
            } else if url.host is None {
                EndpointErrorModel::NoHost
            } else if !is_dns_host(ascii_lower(url.host->Some_0)) {
                EndpointErrorModel::InvalidHost(
                    InvalidHostModel {
                        label: "AZURE_OPENAI_ENDPOINT host"@,
                        host: ascii_lower(url.host->Some_0),
                    },
                )
            } else {
                EndpointErrorModel::SuffixNotAllowed { host: ascii_lower(url.host->Some_0) }
            },
        },
{
}

/// The messages of refused endpoints quote what they refuse, unchanged.
pub proof fn endpoint_messages_quote_what_they_refuse(
    endpoint: Seq<char>,
    reason: Seq<char>,
    label: Seq<char>,
    host: Seq<char>,
)
    ensures
        endpoint_detail(EndpointErrorModel::Unparsable { endpoint, reason })
            == "parse AZURE_OPENAI_ENDPOINT "@ + debug_form(endpoint) + ": "@ + reason,
        endpoint_message(EndpointErrorModel::InvalidHost(InvalidHostModel { label, host }))
            == label + " must be a DNS host (got '"@ + host + "')"@,
        endpoint_message(EndpointErrorModel::SuffixNotAllowed { host })
            == "AZURE_OPENAI_ENDPOINT host '"@ + host
            + "' is not in the allowed suffix set: openai.azure.com, services.ai.azure.com, cognitiveservices.azure.com"@,
        endpoint_message(EndpointErrorModel::NotHttps) == "AZURE_OPENAI_ENDPOINT must use https"@,
        endpoint_message(EndpointErrorModel::Userinfo)
            == "AZURE_OPENAI_ENDPOINT must not contain userinfo"@,
        endpoint_message(EndpointErrorModel::NoHost)
            == "AZURE_OPENAI_ENDPOINT must include a DNS host"@,
        forall|error: EndpointErrorModel|
            !(error is Unparsable) ==> #[trigger] endpoint_detail(error) == endpoint_message(error),
{
}

/// An accepted endpoint keeps its host in lower case, and splits it: the account name is what
/// stands before the first dot, it is not empty, and the suffix is an allowed one that it ends with.
pub proof fn accepted_endpoint_is_split(endpoint: Seq<char>, parsed: Result<UrlModel, Seq<char>>)
    requires
        endpoint_outcome(endpoint, parsed) is Ok,
    ensures
        ({
            let model = endpoint_outcome(endpoint, parsed)->Ok_0;
            &&& parsed is Ok
            &&& parsed->Ok_0.username.len() == 0
            &&& parsed->Ok_0.password is None
            &&& parsed->Ok_0.host is Some
            &&& model.host == ascii_lower(parsed->Ok_0.host->Some_0)
            &&& model.account_name.len() > 0
            &&& !model.account_name.contains('.')
            &&& model.host.len() > model.account_name.len()
            &&& model.host.take(model.account_name.len() as int) == model.account_name
            &&& model.host[model.account_name.len() as int] == '.'
            &&& {
                ||| model.suffix == ".openai.azure.com"@
                ||| model.suffix == ".services.ai.azure.com"@
                ||| model.suffix == ".cognitiveservices.azure.com"@
            }
            &&& model.host.len() > model.suffix.len()
            &&& model.host.skip(model.host.len() - model.suffix.len()) == model.suffix
        }),
{
    let model = endpoint_outcome(endpoint, parsed)->Ok_0;
    let host = model.host;
    reveal_strlit(".openai.azure.com");
    reveal_strlit(".services.ai.azure.com");
    reveal_strlit(".cognitiveservices.azure.com");
    assert(allowed_suffixes()[0] == OPENAI_SUFFIX@);
    assert(allowed_suffixes()[1] == SERVICES_AI_SUFFIX@);
    assert(allowed_suffixes()[2] == COGNITIVE_SERVICES_SUFFIX@);
    assert(model.suffix[0] == '.');
    let dot = host.len() - model.suffix.len();
    assert(host.skip(dot)[0] == host[dot]);
    lemma_first_label(host);
    assert(host.contains('.'));
}

/// The first label is the longest dot-free beginning.
proof fn lemma_first_label(host: Seq<char>)
    ensures
        first_label(host).len() <= host.len(),
        host.take(first_label(host).len() as int) == first_label(host),
        !first_label(host).contains('.'),
        first_label(host).len() < host.len() ==> host[first_label(host).len() as int] == '.',
        first_label(host).len() == host.len() ==> !host.contains('.'),
    decreases host.len(),
{
    let label = first_label(host);
    if host.len() == 0 || host[0] == '.' {
        assert(host.take(0) =~= seq![]);
    } else {
        let rest = host.drop_first();
        lemma_first_label(rest);
        assert(host.take(label.len() as int) =~= seq![host[0]] + rest.take(
            first_label(rest).len() as int,
        ));
        assert forall|i: int| 0 <= i < label.len() implies label[i] != '.' by {
            if i > 0 {
                assert(label[i] == first_label(rest)[i - 1]);
                assert(first_label(rest).contains(first_label(rest)[i - 1]));
            }
        }
        if label.len() == host.len() {
            assert(host =~= label) by {
                assert(host.take(host.len() as int) =~= host);
            }
        }
    }
}

/// A text in lower case is its own lower case.
proof fn lemma_lower_twice(s: Seq<char>)
    ensures
        ascii_lower(ascii_lower(s)) == ascii_lower(s),
{
    assert(ascii_lower(ascii_lower(s)) =~= ascii_lower(s));
}

/// The ASCII case of the host is without effect: two URLs that agree otherwise give the same
/// endpoint or the same refusal, however the settings were written.
pub proof fn host_case_is_without_effect(
    a: Seq<char>,
    b: Seq<char>,
    first: UrlModel,
    second: UrlModel,
)
    requires
        first.scheme == second.scheme,
        first.username == second.username,
        first.password == second.password,
        match (first.host, second.host) {
            (Some(x), Some(y)) => ascii_lower(x) == ascii_lower(y),
            (None, None) => true,
            _ => false,
        },
    ensures
        endpoint_outcome(a, Ok(first)) == endpoint_outcome(b, Ok(second)),
{
}

/// The host of an accepted endpoint is accepted again, with the same result: all that counts of an
/// `https` URL without userinfo is its host.
pub proof fn accepted_host_is_accepted_again(
    endpoint: Seq<char>,
    parsed: Result<UrlModel, Seq<char>>,
    again: Seq<char>,
    url: UrlModel,
)
    requires
        endpoint_outcome(endpoint, parsed) is Ok,
        url.scheme == "https"@,
        !url.has_userinfo(),
        url.host == Some(endpoint_outcome(endpoint, parsed)->Ok_0.host),
    ensures
        endpoint_outcome(again, Ok(url)) == endpoint_outcome(endpoint, parsed),
{
    lemma_lower_twice(parsed->Ok_0.host->Some_0);
}

/// No host ends with two of the allowed suffixes, so the order in which they are tried does not
/// matter.
pub proof fn allowed_suffix_is_unique(host: Seq<char>, j: int, k: int)
    requires
        0 <= j < allowed_suffixes().len(),
        0 <= k < allowed_suffixes().len(),
        allowed_by_suffix(host, allowed_suffixes()[j]),
        allowed_by_suffix(host, allowed_suffixes()[k]),
    ensures
        j == k,
{
    reveal_strlit(".openai.azure.com");
    reveal_strlit(".services.ai.azure.com");
    reveal_strlit(".cognitiveservices.azure.com");
    let n = host.len();
    let a = allowed_suffixes()[j];
    let b = allowed_suffixes()[k];
    assert(host.skip(n - a.len())[a.len() - 12] == host[n - 12]);
    assert(host.skip(n - b.len())[b.len() - 12] == host[n - 12]);
    assert(host.skip(n - a.len())[a.len() - 11] == host[n - 11]);
    assert(host.skip(n - b.len())[b.len() - 11] == host[n - 11]);
    assert(host.skip(n - a.len())[a.len() - 13] == host[n - 13]);
    assert(host.skip(n - b.len())[b.len() - 13] == host[n - 13]);
}

} // verus!
