//! The requests that a verification makes.
use vstd::prelude::*;

use crate::config::{AzureVerifyConfig, ConfigModel};
use crate::percent::{
    encode_path_segment, encoded_segment, encoding_is_injective, encoding_stands_for_its_text,
    stands_for,
};
use crate::text::joined;

verus! {

/// The scope of the token that is asked for.
pub const MANAGEMENT_SCOPE: &'static str = "https://management.azure.com/.default";

/// Where every management request goes.
pub const MANAGEMENT_ROOT: &'static str = "https://management.azure.com/";

/// Where the token request goes.
pub const LOGIN_ROOT: &'static str = "https://login.microsoftonline.com/";

/// The version of the account API, as a query.
pub const ARM_API_QUERY: &'static str = "?api-version=2024-10-01";

/// The version of the diagnostic settings API, as a query.
pub const DIAGNOSTIC_SETTINGS_API_QUERY: &'static str = "?api-version=2021-05-01-preview";

/// The request for an access token: a form that is posted.
#[derive(Debug, PartialEq, Eq)]
pub struct TokenRequest {
    pub url: String,
    pub form: Vec<(String, String)>,
}

/// The mathematical model of [`TokenRequest`].
pub struct TokenRequestModel {
    pub url: Seq<char>,
    pub form: Seq<(Seq<char>, Seq<char>)>,
}

impl DeepView for TokenRequest {
    type V = TokenRequestModel;

    open spec fn deep_view(&self) -> TokenRequestModel {
        TokenRequestModel { url: self.url@, form: self.form.deep_view() }
    }
}

/// The request for an access token under client credentials.
pub open spec fn token_request(config: ConfigModel) -> TokenRequestModel {
    TokenRequestModel {
        url: LOGIN_ROOT@ + encoded_segment(config.tenant_id) + "/oauth2/v2.0/token"@,
        form: seq![
            ("grant_type"@, "client_credentials"@),
            ("client_id"@, config.client_id),
            ("client_secret"@, config.client_secret),
            ("scope"@, MANAGEMENT_SCOPE@),
        ],
    }
}

/// The URL of an account, without a query.
pub open spec fn account_root(config: ConfigModel, account_name: Seq<char>) -> Seq<char> {
    MANAGEMENT_ROOT@ + "subscriptions/"@ + encoded_segment(config.subscription_id)
        + "/resourceGroups/"@ + encoded_segment(config.resource_group)
        + "/providers/Microsoft.CognitiveServices/accounts/"@ + encoded_segment(account_name)
}

/// The URL under which an account is read.
pub open spec fn account_url(config: ConfigModel, account_name: Seq<char>) -> Seq<char> {
    account_root(config, account_name) + ARM_API_QUERY@
}

/// The URL under which the deployments of an account are listed.
pub open spec fn deployments_url(config: ConfigModel, account_name: Seq<char>) -> Seq<char> {
    account_root(config, account_name) + "/deployments"@ + ARM_API_QUERY@
}

/// The URL under which a Responsible AI policy of an account is read.
pub open spec fn policy_url(
    config: ConfigModel,
    account_name: Seq<char>,
    policy_name: Seq<char>,
) -> Seq<char> {
    account_root(config, account_name) + "/raiPolicies/"@ + encoded_segment(policy_name)
        + ARM_API_QUERY@
}

/// The URL under which the diagnostic settings of a resource are listed. The identifier of a
/// resource is a path from the root; there is no URL for another identifier.
pub open spec fn diagnostics_url(resource_id: Seq<char>) -> Option<Seq<char>> {
    if resource_id.len() > 0 && resource_id[0] == '/' {
        Some(
            MANAGEMENT_ROOT@ + resource_id.skip(1)
                + "/providers/Microsoft.Insights/diagnosticSettings"@
                + DIAGNOSTIC_SETTINGS_API_QUERY@,
        )
    } else {
        None
    }
}

/// Builds the request for an access token.
pub fn entra_token_request(config: &AzureVerifyConfig) -> (res: TokenRequest)
    ensures
        res.deep_view() == token_request(config.deep_view()),
        res.form@.len() == 4,
        res.form@[0].0@ == "grant_type"@ && res.form@[0].1@ == "client_credentials"@,
        res.form@[1].0@ == "client_id"@ && res.form@[1].1@ == config.client_id@,
        res.form@[2].0@ == "client_secret"@ && res.form@[2].1@ == config.client_secret@,
        res.form@[3].0@ == "scope"@ && res.form@[3].1@ == "https://management.azure.com/.default"@,
        exists|tenant: Seq<char>|
            stands_for(tenant, config.tenant_id@) && res.url@
                == #[trigger] ("https://login.microsoftonline.com/"@ + tenant)
                + "/oauth2/v2.0/token"@,
{
    let mut url = joined(LOGIN_ROOT, encode_path_segment(config.tenant_id.as_str()).as_str());
    url.append("/oauth2/v2.0/token");
    let mut form: Vec<(String, String)> = Vec::new();
    form.push(("grant_type".to_owned(), "client_credentials".to_owned()));
    form.push(("client_id".to_owned(), config.client_id.clone()));
    form.push(("client_secret".to_owned(), config.client_secret.clone()));
    form.push(("scope".to_owned(), MANAGEMENT_SCOPE.to_owned()));
    let res = TokenRequest { url, form };
    proof {
        token_request_carries_the_credentials(config.deep_view());
        assert(res.deep_view().form[0] == (res.form@[0].0@, res.form@[0].1@));
    }
    assert(res.deep_view().form =~= token_request(config.deep_view()).form);
    res
}

/// Builds the URL of an account, without a query.
fn build_account_root(config: &AzureVerifyConfig, account_name: &str) -> (res: String)
    ensures
        res@ == account_root(config.deep_view(), account_name@),
{
    let mut url = joined(MANAGEMENT_ROOT, "subscriptions/");
    url.append(encode_path_segment(config.subscription_id.as_str()).as_str());
    url.append("/resourceGroups/");
    url.append(encode_path_segment(config.resource_group.as_str()).as_str());
    url.append("/providers/Microsoft.CognitiveServices/accounts/");
    url.append(encode_path_segment(account_name).as_str());
    url
}

/// Builds the URL under which an account is read.
pub fn arm_account_url(config: &AzureVerifyConfig, account_name: &str) -> (res: String)
    ensures
        res@ == account_url(config.deep_view(), account_name@),
{
    let mut url = build_account_root(config, account_name);
    url.append(ARM_API_QUERY);
    url
}

/// Builds the URL under which the deployments of an account are listed.
pub fn arm_deployments_url(config: &AzureVerifyConfig, account_name: &str) -> (res: String)
    ensures
        res@ == deployments_url(config.deep_view(), account_name@),
{
    let mut url = build_account_root(config, account_name);
    url.append("/deployments");
    url.append(ARM_API_QUERY);
    url
}

/// Builds the URL under which a Responsible AI policy of an account is read.
pub fn arm_policy_url(config: &AzureVerifyConfig, account_name: &str, policy_name: &str) -> (res:
    String)
    ensures
        res@ == policy_url(config.deep_view(), account_name@, policy_name@),
{
    let mut url = build_account_root(config, account_name);
    url.append("/raiPolicies/");
    url.append(encode_path_segment(policy_name).as_str());
    url.append(ARM_API_QUERY);
    url
}

/// Builds the URL under which the diagnostic settings of a resource are listed.
pub fn diagnostic_settings_url(resource_id: &str) -> (res: Option<String>)
    ensures
        res.deep_view() == diagnostics_url(resource_id@),
{
    let n: usize = resource_id.unicode_len();
    if n == 0 || resource_id.get_char(0) != '/' {
        return None;
    }
    assert(resource_id@.subrange(1, n as int) =~= resource_id@.skip(1));
    let mut url = joined(MANAGEMENT_ROOT, resource_id.substring_char(1, n));
    url.append("/providers/Microsoft.Insights/diagnosticSettings");
    url.append(DIAGNOSTIC_SETTINGS_API_QUERY);
    Some(url)
}

/// The token request carries the credentials character for character: a form of four fields, the
/// client id and the client secret among them, posted to the tenant's path at the login service.
pub proof fn token_request_carries_the_credentials(config: ConfigModel)
    ensures
        token_request(config).form.len() == 4,
        token_request(config).form[0] == ("grant_type"@, "client_credentials"@),
        token_request(config).form[1] == ("client_id"@, config.client_id),
        token_request(config).form[2] == ("client_secret"@, config.client_secret),
        token_request(config).form[3] == ("scope"@, "https://management.azure.com/.default"@),
        exists|tenant: Seq<char>|
            stands_for(tenant, config.tenant_id) && token_request(config).url
                == #[trigger] ("https://login.microsoftonline.com/"@ + tenant)
                + "/oauth2/v2.0/token"@,
{
    encoding_stands_for_its_text(config.tenant_id);
    let tenant = encoded_segment(config.tenant_id);
    assert(token_request(config).url == ("https://login.microsoftonline.com/"@ + tenant)
        + "/oauth2/v2.0/token"@);
}

/// Configurations with the same token request have the same tenant, client id and client secret.
pub proof fn token_requests_tell_credentials_apart(a: ConfigModel, b: ConfigModel)
    requires
        token_request(a) == token_request(b),
    ensures
        a.tenant_id == b.tenant_id,
        a.client_id == b.client_id,
        a.client_secret == b.client_secret,
{
    assert(token_request(a).form[1].1 == token_request(b).form[1].1);
    assert(token_request(a).form[2].1 == token_request(b).form[2].1);
    let s = encoded_segment(a.tenant_id);
    let t = encoded_segment(b.tenant_id);
    let n = LOGIN_ROOT@.len() as int;
    assert(token_request(a).url.subrange(n, n + s.len()) =~= s);
    assert(token_request(b).url.subrange(n, n + t.len()) =~= t);
    assert(token_request(a).url.len() == n + s.len() + "/oauth2/v2.0/token"@.len());
    assert(token_request(b).url.len() == n + t.len() + "/oauth2/v2.0/token"@.len());
    encoding_is_injective(a.tenant_id, b.tenant_id);
}

/// Whether a text is the path of an account at the management API, with the subscription, the
/// resource group and the account each in a segment of its own.
pub open spec fn is_account_path(
    path: Seq<char>,
    subscription_id: Seq<char>,
    resource_group: Seq<char>,
    account_name: Seq<char>,
) -> bool {
    exists|subscription: Seq<char>, group: Seq<char>, account: Seq<char>|
        {
            &&& #[trigger] stands_for(subscription, subscription_id)
            &&& #[trigger] stands_for(group, resource_group)
            &&& #[trigger] stands_for(account, account_name)
            &&& path == "https://management.azure.com/"@ + "subscriptions/"@ + subscription
                + "/resourceGroups/"@ + group
                + "/providers/Microsoft.CognitiveServices/accounts/"@ + account
        }
}

/// The account, its deployments and its policies are asked for under the path of the account, in the
/// version `2024-10-01` of the API; a policy in a segment of its own.
pub proof fn account_requests_stay_under_the_account(
    config: ConfigModel,
    account_name: Seq<char>,
    policy_name: Seq<char>,
)
    ensures
        exists|path: Seq<char>, policy: Seq<char>|
            {
                &&& #[trigger] is_account_path(
                    path,
                    config.subscription_id,
                    config.resource_group,
                    account_name,
                )
                &&& #[trigger] stands_for(policy, policy_name)
                &&& account_url(config, account_name) == path + "?api-version=2024-10-01"@
                &&& deployments_url(config, account_name) == path + "/deployments"@
                    + "?api-version=2024-10-01"@
                &&& policy_url(config, account_name, policy_name) == path + "/raiPolicies/"@ + policy
                    + "?api-version=2024-10-01"@
            },
{
    encoding_stands_for_its_text(config.subscription_id);
    encoding_stands_for_its_text(config.resource_group);
    encoding_stands_for_its_text(account_name);
    encoding_stands_for_its_text(policy_name);
    let path = account_root(config, account_name);
    let subscription = encoded_segment(config.subscription_id);
    let group = encoded_segment(config.resource_group);
    let account = encoded_segment(account_name);
    assert(stands_for(subscription, config.subscription_id));
    assert(stands_for(group, config.resource_group));
    assert(stands_for(account, account_name));
    assert(is_account_path(path, config.subscription_id, config.resource_group, account_name));
    assert(stands_for(encoded_segment(policy_name), policy_name));
}

/// The diagnostic settings of a resource are asked for under its identifier, unchanged, exactly when
/// the identifier begins with a slash.
pub proof fn diagnostics_are_asked_for_under_the_resource(resource_id: Seq<char>)
    ensures
        diagnostics_url(resource_id) is Some <==> resource_id.len() > 0 && resource_id[0] == '/',
        diagnostics_url(resource_id) matches Some(url) ==> url == "https://management.azure.com"@
            + resource_id + "/providers/Microsoft.Insights/diagnosticSettings"@
            + "?api-version=2021-05-01-preview"@,
{
    reveal_strlit("https://management.azure.com/");
    reveal_strlit("https://management.azure.com");
    if let Some(url) = diagnostics_url(resource_id) {
        assert(MANAGEMENT_ROOT@ + resource_id.skip(1) =~= "https://management.azure.com"@
            + resource_id);
    }
}

} // verus!
