//! The parts of a parsed URL that the endpoint checks read.
use vstd::prelude::*;

verus! {

/// What the checks read of a URL.
pub struct UrlParts {
    pub scheme: String,
    pub username: String,
    pub password: Option<String>,
    pub host: Option<String>,
}

/// The mathematical model of [`UrlParts`].
pub struct UrlModel {
    pub scheme: Seq<char>,
    pub username: Seq<char>,
    pub password: Option<Seq<char>>,
    pub host: Option<Seq<char>>,
}

impl DeepView for UrlParts {
    type V = UrlModel;

    open spec fn deep_view(&self) -> UrlModel {
        UrlModel {
            scheme: self.scheme@,
            username: self.username@,
            password: self.password.deep_view(),
            host: self.host.deep_view(),
        }
    }
}

/// The outcome of parsing a URL: its parts, or why it is not a URL.
pub type ParsedUrl = Result<UrlParts, String>;

/// The mathematical model of a [`ParsedUrl`].
pub open spec fn parsed_model(parsed: ParsedUrl) -> Result<UrlModel, Seq<char>> {
    match parsed {
        Ok(parts) => Ok(parts.deep_view()),
        Err(reason) => Err(reason@),
    }
}

impl UrlModel {
    /// Whether the URL carries a user name or a password.
    pub open spec fn has_userinfo(self) -> bool {
        self.username.len() > 0 || self.password is Some
    }
}

impl UrlParts {
    /// Whether the URL carries a user name or a password.
    pub fn has_userinfo(&self) -> (res: bool)
        ensures
            res == self.deep_view().has_userinfo(),
            res <==> self.username@.len() > 0 || self.password is Some,
    {
        !self.username.as_str().is_empty() || self.password.is_some()
    }
}

/// What the URL parser makes of a text.
pub uninterp spec fn parsed_url(input: Seq<char>) -> Result<UrlModel, Seq<char>>;

/// Calls `reqwest::Url::parse` and reads `scheme`, `username`, `password` and `host_str` of the
/// URL, or the text of the error. The outcome is a function of the input alone; the URL grammar
/// and the normalisation of the parts are left unsaid, and with them which parts two spellings of
/// one host, or a host written into a URL again, give.
#[verifier::external_body]
pub(crate) fn parse_url(input: &str) -> (res: ParsedUrl)
    ensures
        parsed_model(res) == parsed_url(input@),
{
    match reqwest::Url::parse(input) {
        Ok(url) => Ok(UrlParts {
            scheme: url.scheme().to_owned(),
            username: url.username().to_owned(),
            password: url.password().map(|password| password.to_owned()),
            host: url.host_str().map(|host| host.to_owned()),
        }),
        Err(error) => Err(error.to_string()),
    }
}

} // verus!
