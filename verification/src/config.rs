//! What the verifier is configured with.
use vstd::prelude::*;

use crate::environment::{
    env_switch, env_u32_at_least, env_u64_at_least, lookup,
    number_is_the_configured_one_or_the_minimum, required_env, required_outcome,
    required_setting_is_what_is_set, switch_is_true_or_false, switch_outcome, u32_outcome,
    u64_outcome, unsigned_value, AtLeast, EnvValueModel, EnvVarModel, Environment, SettingError,
    SettingErrorModel,
};
use crate::text::trimmed;

verus! {

pub const ENDPOINT_ENV: &'static str = "AZURE_OPENAI_ENDPOINT";

pub const TENANT_ID_ENV: &'static str = "AZURE_TENANT_ID";

pub const SUBSCRIPTION_ID_ENV: &'static str = "AZURE_SUBSCRIPTION_ID";

pub const RESOURCE_GROUP_ENV: &'static str = "AZURE_RESOURCE_GROUP";

pub const CLIENT_ID_ENV: &'static str = "AZURE_CLIENT_ID";

pub const CLIENT_SECRET_ENV: &'static str = "AZURE_CLIENT_SECRET";

pub const REQUIRE_ASYNC_FILTER_ENV: &'static str = "GM_AZURE_REQUIRE_ASYNC_FILTER";

pub const VERIFY_INTERVAL_ENV: &'static str = "GM_AZURE_VERIFY_INTERVAL_SECS";

pub const TRANSIENT_FAILURE_LIMIT_ENV: &'static str = "GM_AZURE_VERIFY_TRANSIENT_FAILURE_LIMIT";

pub const DEFAULT_VERIFY_INTERVAL_SECS: u64 = 900;

pub const MIN_VERIFY_INTERVAL_SECS: u64 = 60;

pub const DEFAULT_TRANSIENT_FAILURE_LIMIT: u32 = 3;

pub const MIN_TRANSIENT_FAILURE_LIMIT: u32 = 1;

/// What one verification needs: the endpoint, the account's place in Azure, the credentials, and
/// whether synchronous content filtering fails the verification.
#[derive(Debug, PartialEq, Eq)]
pub struct AzureVerifyConfig {
    pub endpoint: String,
    pub tenant_id: String,
    pub subscription_id: String,
    pub resource_group: String,
    pub client_id: String,
    pub client_secret: String,
    pub require_async_filter: bool,
}

/// The mathematical model of [`AzureVerifyConfig`].
pub struct ConfigModel {
    pub endpoint: Seq<char>,
    pub tenant_id: Seq<char>,
    pub subscription_id: Seq<char>,
    pub resource_group: Seq<char>,
    pub client_id: Seq<char>,
    pub client_secret: Seq<char>,
    pub require_async_filter: bool,
}

impl DeepView for AzureVerifyConfig {
    type V = ConfigModel;

    open spec fn deep_view(&self) -> ConfigModel {
        ConfigModel {
            endpoint: self.endpoint@,
            tenant_id: self.tenant_id@,
            subscription_id: self.subscription_id@,
            resource_group: self.resource_group@,
            client_id: self.client_id@,
            client_secret: self.client_secret@,
            require_async_filter: self.require_async_filter,
        }
    }
}

/// The names of the settings without which nothing is verified, in the order in which they are
/// read.
pub open spec fn required_names() -> Seq<Seq<char>> {
    seq![
        ENDPOINT_ENV@,
        TENANT_ID_ENV@,
        SUBSCRIPTION_ID_ENV@,
        RESOURCE_GROUP_ENV@,
        CLIENT_ID_ENV@,
        CLIENT_SECRET_ENV@,
    ]
}

/// The error of the first required setting, from the `from`-th on, that is refused.
pub open spec fn first_refused(env: Seq<EnvVarModel>, from: int) -> Option<SettingErrorModel>
    decreases required_names().len() - from,
{
    if from >= required_names().len() {
        None
    } else {
        match required_outcome(env, required_names()[from]) {
            Err(error) => Some(error),
            Ok(_) => first_refused(env, from + 1),
        }
    }
}

/// The value of the `k`-th required setting.
pub open spec fn required_value(env: Seq<EnvVarModel>, k: int) -> Seq<char> {
    required_outcome(env, required_names()[k])->Ok_0
}

/// The configuration that an environment holds, or the first setting in it that is refused.
pub open spec fn config_outcome(env: Seq<EnvVarModel>) -> Result<ConfigModel, SettingErrorModel> {
    match (first_refused(env, 0), switch_outcome(env, REQUIRE_ASYNC_FILTER_ENV@, true)) {
        (Some(error), _) => Err(error),
        (None, Err(error)) => Err(error),
        (None, Ok(require_async_filter)) => Ok(
            ConfigModel {
                endpoint: required_value(env, 0),
                tenant_id: required_value(env, 1),
                subscription_id: required_value(env, 2),
                resource_group: required_value(env, 3),
                client_id: required_value(env, 4),
                client_secret: required_value(env, 5),
                require_async_filter,
            },
        ),
    }
}

impl AzureVerifyConfig {
    /// Reads the configuration from an environment.
    pub fn from_env(env: &Environment) -> (res: Result<Self, SettingError>)
        ensures
            match res {
                Ok(config) => config_outcome(env.deep_view()) == Ok::<
                    ConfigModel,
                    SettingErrorModel,
                >(config.deep_view()),
                Err(error) => config_outcome(env.deep_view()) == Err::<
                    ConfigModel,
                    SettingErrorModel,
                >(error.deep_view()),
            },
            res matches Ok(config) ==> {
                &&& is_set_to(env.deep_view(), "AZURE_OPENAI_ENDPOINT"@, config.endpoint@)
                &&& is_set_to(env.deep_view(), "AZURE_TENANT_ID"@, config.tenant_id@)
                &&& is_set_to(env.deep_view(), "AZURE_SUBSCRIPTION_ID"@, config.subscription_id@)
                &&& is_set_to(env.deep_view(), "AZURE_RESOURCE_GROUP"@, config.resource_group@)
                &&& is_set_to(env.deep_view(), "AZURE_CLIENT_ID"@, config.client_id@)
                &&& is_set_to(env.deep_view(), "AZURE_CLIENT_SECRET"@, config.client_secret@)
                &&& config.require_async_filter <==> lookup(
                    env.deep_view(),
                    "GM_AZURE_REQUIRE_ASYNC_FILTER"@,
                ) != Some(EnvValueModel::Text("false"@))
            },
    {
        proof {
            configuration_is_what_is_set(env.deep_view());
            reveal_with_fuel(first_refused, 7);
        }
        let endpoint = match required_env(env, ENDPOINT_ENV) {
            Ok(value) => value,
            Err(error) => return Err(error),
        };
        let tenant_id = match required_env(env, TENANT_ID_ENV) {
            Ok(value) => value,
            Err(error) => return Err(error),
        };
        let subscription_id = match required_env(env, SUBSCRIPTION_ID_ENV) {
            Ok(value) => value,
            Err(error) => return Err(error),
        };
        let resource_group = match required_env(env, RESOURCE_GROUP_ENV) {
            Ok(value) => value,
            Err(error) => return Err(error),
        };
        let client_id = match required_env(env, CLIENT_ID_ENV) {
            Ok(value) => value,
            Err(error) => return Err(error),
        };
        let client_secret = match required_env(env, CLIENT_SECRET_ENV) {
            Ok(value) => value,
            Err(error) => return Err(error),
        };
        let require_async_filter: bool = match env_switch(env, REQUIRE_ASYNC_FILTER_ENV, true) {
            Ok(value) => value,
            Err(error) => return Err(error),
        };
        Ok(
            AzureVerifyConfig {
                endpoint,
                tenant_id,
                subscription_id,
                resource_group,
                client_id,
                client_secret,
                require_async_filter,
            },
        )
    }
}

/// How often the verification is repeated, and how many transient failures in a row are tolerated.
#[derive(Debug, PartialEq, Eq)]
pub struct PeriodicAzureVerifySettings {
    pub interval_secs: AtLeast<u64>,
    pub transient_failure_limit: AtLeast<u32>,
}

/// The mathematical model of [`PeriodicAzureVerifySettings`].
pub struct SettingsModel {
    pub interval_secs: AtLeast<int>,
    pub transient_failure_limit: AtLeast<int>,
}

impl DeepView for PeriodicAzureVerifySettings {
    type V = SettingsModel;

    open spec fn deep_view(&self) -> SettingsModel {
        SettingsModel {
            interval_secs: crate::environment::u64_model(self.interval_secs),
            transient_failure_limit: crate::environment::u32_model(self.transient_failure_limit),
        }
    }
}

/// The periodic settings that an environment holds, or the first one in it that is refused.
pub open spec fn settings_outcome(env: Seq<EnvVarModel>) -> Result<
    SettingsModel,
    SettingErrorModel,
> {
    match (
        u64_outcome(
            env,
            VERIFY_INTERVAL_ENV@,
            DEFAULT_VERIFY_INTERVAL_SECS as int,
            MIN_VERIFY_INTERVAL_SECS as int,
        ),
        u32_outcome(
            env,
            TRANSIENT_FAILURE_LIMIT_ENV@,
            DEFAULT_TRANSIENT_FAILURE_LIMIT as int,
            MIN_TRANSIENT_FAILURE_LIMIT as int,
        ),
    ) {
        (Err(error), _) => Err(error),
        (Ok(_), Err(error)) => Err(error),
        (Ok(interval_secs), Ok(transient_failure_limit)) => Ok(
            SettingsModel { interval_secs, transient_failure_limit },
        ),
    }
}

impl PeriodicAzureVerifySettings {
    /// Reads the periodic settings from an environment.
    pub fn from_env(env: &Environment) -> (res: Result<Self, SettingError>)
        ensures
            match res {
                Ok(settings) => settings_outcome(env.deep_view()) == Ok::<
                    SettingsModel,
                    SettingErrorModel,
                >(settings.deep_view()),
                Err(error) => settings_outcome(env.deep_view()) == Err::<
                    SettingsModel,
                    SettingErrorModel,
                >(error.deep_view()),
            },
            res matches Ok(settings) ==> {
                &&& match lookup(env.deep_view(), "GM_AZURE_VERIFY_INTERVAL_SECS"@) {
                    None => settings.interval_secs.value == 900,
                    Some(EnvValueModel::Text(text)) => unsigned_value(
                        text,
                        u64::MAX as int,
                    ) matches Some(n) && settings.interval_secs.value == (if n < 60 {
                        60
                    } else {
                        n
                    }),
                    Some(EnvValueModel::NotUnicode(_)) => false,
                }
                &&& match lookup(env.deep_view(), "GM_AZURE_VERIFY_TRANSIENT_FAILURE_LIMIT"@) {
                    None => settings.transient_failure_limit.value == 3,
                    Some(EnvValueModel::Text(text)) => unsigned_value(
                        text,
                        u32::MAX as int,
                    ) matches Some(n) && settings.transient_failure_limit.value == (if n < 1 {
                        1
                    } else {
                        n
                    }),
                    Some(EnvValueModel::NotUnicode(_)) => false,
                }
            },
    {
        let interval_secs = match env_u64_at_least(
            env,
            VERIFY_INTERVAL_ENV,
            DEFAULT_VERIFY_INTERVAL_SECS,
            MIN_VERIFY_INTERVAL_SECS,
        ) {
            Ok(setting) => setting,
            Err(error) => return Err(error),
        };
        let transient_failure_limit = match env_u32_at_least(
            env,
            TRANSIENT_FAILURE_LIMIT_ENV,
            DEFAULT_TRANSIENT_FAILURE_LIMIT,
            MIN_TRANSIENT_FAILURE_LIMIT,
        ) {
            Ok(setting) => setting,
            Err(error) => return Err(error),
        };
        Ok(PeriodicAzureVerifySettings { interval_secs, transient_failure_limit })
    }
}

/// A configuration is complete exactly when all required settings are there and not blank and the
/// switch, where it is set, is `true` or `false`.
pub proof fn config_is_complete_iff(env: Seq<EnvVarModel>)
    ensures
        config_outcome(env) is Ok <==> {
            &&& forall|k: int|
                0 <= k < required_names().len() ==> required_outcome(
                    env,
                    #[trigger] required_names()[k],
                ) is Ok
            &&& switch_outcome(env, REQUIRE_ASYNC_FILTER_ENV@, true) is Ok
        },
{
    reveal_with_fuel(first_refused, 7);
    if first_refused(env, 0) is None {
        assert forall|k: int| 0 <= k < required_names().len() implies required_outcome(
            env,
            #[trigger] required_names()[k],
        ) is Ok by {
            assert(k == 0 || k == 1 || k == 2 || k == 3 || k == 4 || k == 5);
        }
    } else {
        assert(required_outcome(env, required_names()[0]) is Err || required_outcome(
            env,
            required_names()[1],
        ) is Err || required_outcome(env, required_names()[2]) is Err || required_outcome(
            env,
            required_names()[3],
        ) is Err || required_outcome(env, required_names()[4]) is Err || required_outcome(
            env,
            required_names()[5],
        ) is Err);
    }
}

/// Whatever the environment holds, verifications are at least a minute apart and the limit on
/// transient failures is at least one.
pub proof fn periodic_settings_keep_their_minimum(env: Seq<EnvVarModel>)
    requires
        settings_outcome(env) is Ok,
    ensures
        settings_outcome(env)->Ok_0.interval_secs.value >= 60,
        settings_outcome(env)->Ok_0.transient_failure_limit.value >= 1,
{
}

/// Without settings of their own, verifications are 900 seconds apart, three transient failures in
/// a row are tolerated, and asynchronous filtering is required.
pub proof fn defaults_without_settings(env: Seq<EnvVarModel>)
    requires
        lookup(env, VERIFY_INTERVAL_ENV@) is None,
        lookup(env, TRANSIENT_FAILURE_LIMIT_ENV@) is None,
        lookup(env, REQUIRE_ASYNC_FILTER_ENV@) is None,
    ensures
        settings_outcome(env) == Ok::<SettingsModel, SettingErrorModel>(
            SettingsModel {
                interval_secs: AtLeast { value: 900, raised_from: None },
                transient_failure_limit: AtLeast { value: 3, raised_from: None },
            },
        ),
        config_outcome(env) is Ok ==> config_outcome(env)->Ok_0.require_async_filter,
{
}

/// Asynchronous filtering is required unless the switch is set to `false`.
pub proof fn async_filter_is_waived_only_explicitly(env: Seq<EnvVarModel>)
    requires
        config_outcome(env) is Ok,
        !config_outcome(env)->Ok_0.require_async_filter,
    ensures
        lookup(env, REQUIRE_ASYNC_FILTER_ENV@) == Some(
            EnvValueModel::Text("false"@),
        ),
{
}

/// Whether a variable is set to a text, and the text is not blank.
pub open spec fn is_set_to(env: Seq<EnvVarModel>, name: Seq<char>, text: Seq<char>) -> bool {
    lookup(env, name) == Some(EnvValueModel::Text(text)) && trimmed(text).len() > 0
}

/// Every field of a configuration is what the variable of its name is set to, unchanged, and
/// asynchronous filtering is required unless the switch says `false`.
pub proof fn configuration_is_what_is_set(env: Seq<EnvVarModel>)
    ensures
        config_outcome(env) matches Ok(config) ==> {
            &&& is_set_to(env, "AZURE_OPENAI_ENDPOINT"@, config.endpoint)
            &&& is_set_to(env, "AZURE_TENANT_ID"@, config.tenant_id)
            &&& is_set_to(env, "AZURE_SUBSCRIPTION_ID"@, config.subscription_id)
            &&& is_set_to(env, "AZURE_RESOURCE_GROUP"@, config.resource_group)
            &&& is_set_to(env, "AZURE_CLIENT_ID"@, config.client_id)
            &&& is_set_to(env, "AZURE_CLIENT_SECRET"@, config.client_secret)
            &&& config.require_async_filter <==> lookup(env, "GM_AZURE_REQUIRE_ASYNC_FILTER"@)
                != Some(EnvValueModel::Text("false"@))
        },
{
    reveal_with_fuel(first_refused, 7);
    required_setting_is_what_is_set(env, "AZURE_OPENAI_ENDPOINT"@);
    required_setting_is_what_is_set(env, "AZURE_TENANT_ID"@);
    required_setting_is_what_is_set(env, "AZURE_SUBSCRIPTION_ID"@);
    required_setting_is_what_is_set(env, "AZURE_RESOURCE_GROUP"@);
    required_setting_is_what_is_set(env, "AZURE_CLIENT_ID"@);
    required_setting_is_what_is_set(env, "AZURE_CLIENT_SECRET"@);
    switch_is_true_or_false(env, "GM_AZURE_REQUIRE_ASYNC_FILTER"@, true);
}

/// An environment gives a configuration where every required variable is set to a text that is not
/// blank and the switch is not set or says `true` or `false`.
pub proof fn configuration_is_owed(
    env: Seq<EnvVarModel>,
    endpoint: Seq<char>,
    tenant_id: Seq<char>,
    subscription_id: Seq<char>,
    resource_group: Seq<char>,
    client_id: Seq<char>,
    client_secret: Seq<char>,
)
    requires
        is_set_to(env, "AZURE_OPENAI_ENDPOINT"@, endpoint),
        is_set_to(env, "AZURE_TENANT_ID"@, tenant_id),
        is_set_to(env, "AZURE_SUBSCRIPTION_ID"@, subscription_id),
        is_set_to(env, "AZURE_RESOURCE_GROUP"@, resource_group),
        is_set_to(env, "AZURE_CLIENT_ID"@, client_id),
        is_set_to(env, "AZURE_CLIENT_SECRET"@, client_secret),
        match lookup(env, "GM_AZURE_REQUIRE_ASYNC_FILTER"@) {
            None => true,
            Some(EnvValueModel::Text(text)) => text == "true"@ || text == "false"@,
            Some(EnvValueModel::NotUnicode(_)) => false,
        },
    ensures
        config_outcome(env) is Ok,
{
    reveal_with_fuel(first_refused, 7);
    required_setting_is_what_is_set(env, "AZURE_OPENAI_ENDPOINT"@);
    required_setting_is_what_is_set(env, "AZURE_TENANT_ID"@);
    required_setting_is_what_is_set(env, "AZURE_SUBSCRIPTION_ID"@);
    required_setting_is_what_is_set(env, "AZURE_RESOURCE_GROUP"@);
    required_setting_is_what_is_set(env, "AZURE_CLIENT_ID"@);
    required_setting_is_what_is_set(env, "AZURE_CLIENT_SECRET"@);
    switch_is_true_or_false(env, "GM_AZURE_REQUIRE_ASYNC_FILTER"@, true);
}

/// The settings are read in one order: the error is that of the first required setting that is
/// refused, and that of the switch only where all of them are in order.
pub proof fn first_refused_setting_is_reported(env: Seq<EnvVarModel>, k: int)
    requires
        0 <= k <= 6,
        forall|j: int|
            0 <= j < k ==> required_outcome(env, #[trigger] required_names()[j]) is Ok,
    ensures
        required_names() == seq![
            "AZURE_OPENAI_ENDPOINT"@,
            "AZURE_TENANT_ID"@,
            "AZURE_SUBSCRIPTION_ID"@,
            "AZURE_RESOURCE_GROUP"@,
            "AZURE_CLIENT_ID"@,
            "AZURE_CLIENT_SECRET"@,
        ],
        k < 6 ==> (required_outcome(env, required_names()[k]) matches Err(error)
            ==> config_outcome(env) == Err::<ConfigModel, _>(error)),
        k == 6 ==> (switch_outcome(env, "GM_AZURE_REQUIRE_ASYNC_FILTER"@, true) matches Err(error)
            ==> config_outcome(env) == Err::<ConfigModel, _>(error)),
{
    reveal_with_fuel(first_refused, 7);
    assert(0 < k ==> required_outcome(env, required_names()[0]) is Ok);
    assert(1 < k ==> required_outcome(env, required_names()[1]) is Ok);
    assert(2 < k ==> required_outcome(env, required_names()[2]) is Ok);
    assert(3 < k ==> required_outcome(env, required_names()[3]) is Ok);
    assert(4 < k ==> required_outcome(env, required_names()[4]) is Ok);
    assert(5 < k ==> required_outcome(env, required_names()[5]) is Ok);
}

/// Whether a variable is not set, or set to a text that writes down a number of at most `max`.
pub open spec fn is_readable_number(env: Seq<EnvVarModel>, name: Seq<char>, max: int) -> bool {
    match lookup(env, name) {
        None => true,
        Some(EnvValueModel::Text(text)) => unsigned_value(text, max) is Some,
        Some(EnvValueModel::NotUnicode(_)) => false,
    }
}

/// The periodic settings are read exactly when both variables, as far as they are set, write down
/// numbers that fit.
pub proof fn periodic_settings_are_read_iff(env: Seq<EnvVarModel>)
    ensures
        settings_outcome(env) is Ok <==> {
            &&& is_readable_number(env, "GM_AZURE_VERIFY_INTERVAL_SECS"@, u64::MAX as int)
            &&& is_readable_number(
                env,
                "GM_AZURE_VERIFY_TRANSIENT_FAILURE_LIMIT"@,
                u32::MAX as int,
            )
        },
        u64_outcome(env, "GM_AZURE_VERIFY_INTERVAL_SECS"@, 900, 60) matches Err(error)
            ==> settings_outcome(env) == Err::<SettingsModel, _>(error),
        is_readable_number(env, "GM_AZURE_VERIFY_INTERVAL_SECS"@, u64::MAX as int) ==> (
        u32_outcome(env, "GM_AZURE_VERIFY_TRANSIENT_FAILURE_LIMIT"@, 3, 1) matches Err(error)
            ==> settings_outcome(env) == Err::<SettingsModel, _>(error)),
{
}

/// Where the interval variable writes down a number `n`, the interval is the larger of `n` and 60,
/// so it is `n` for every `n` of at least 60; where it is not set, the interval is 900.
pub proof fn interval_is_the_larger_of_the_number_and_sixty(
    env: Seq<EnvVarModel>,
    text: Seq<char>,
    n: int,
)
    requires
        settings_outcome(env) is Ok,
    ensures
        ({
            let interval = settings_outcome(env)->Ok_0.interval_secs;
            let set = lookup(env, "GM_AZURE_VERIFY_INTERVAL_SECS"@);
            &&& set == Some(EnvValueModel::Text(text)) && unsigned_value(text, u64::MAX as int)
                == Some(n) ==> {
                &&& interval.value >= n
                &&& interval.value >= 60
                &&& interval.value == n || interval.value == 60
                &&& interval.raised_from is Some <==> n < 60
                &&& n < 60 ==> interval.raised_from == Some(n)
            }
            &&& set is None ==> interval.value == 900 && interval.raised_from is None
        }),
{
    number_is_the_configured_one_or_the_minimum(
        env,
        "GM_AZURE_VERIFY_INTERVAL_SECS"@,
        900,
        60,
        text,
    );
}

/// Where the limit variable writes down a number `n`, the limit is the larger of `n` and 1, so it is
/// `n` for every `n` of at least 1; where it is not set, the limit is 3.
pub proof fn limit_is_the_larger_of_the_number_and_one(
    env: Seq<EnvVarModel>,
    text: Seq<char>,
    n: int,
)
    requires
        settings_outcome(env) is Ok,
    ensures
        ({
            let limit = settings_outcome(env)->Ok_0.transient_failure_limit;
            let set = lookup(env, "GM_AZURE_VERIFY_TRANSIENT_FAILURE_LIMIT"@);
            &&& set == Some(EnvValueModel::Text(text)) && unsigned_value(text, u32::MAX as int)
                == Some(n) ==> {
                &&& limit.value >= n
                &&& limit.value >= 1
                &&& limit.value == n || limit.value == 1
                &&& limit.raised_from is Some <==> n < 1
                &&& n < 1 ==> limit.raised_from == Some(n)
            }
            &&& set is None ==> limit.value == 3 && limit.raised_from is None
        }),
{
    number_is_the_configured_one_or_the_minimum(
        env,
        "GM_AZURE_VERIFY_TRANSIENT_FAILURE_LIMIT"@,
        3,
        1,
        text,
    );
}

} // verus!
