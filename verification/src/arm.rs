//! The documents that Azure's management API answers with, as far as they are read.
use vstd::prelude::*;

verus! {

/// A JSON value. A number keeps its notation.
#[derive(Debug, PartialEq, Eq)]
pub enum JsonValue {
    Null,
    Bool(bool),
    Number(String),
    Text(String),
    Array(Vec<JsonValue>),
    Object(Vec<(String, JsonValue)>),
}

/// The answer of the token endpoint.
#[derive(Debug, PartialEq, Eq)]
pub struct TokenResponse {
    pub access_token: String,
}

/// A Cognitive Services account.
#[derive(Debug, PartialEq, Eq)]
pub struct ArmAccount {
    pub id: String,
    pub kind: String,
    pub properties: ArmAccountProperties,
}

/// The properties of an account; `None` stands for one that is absent or null, except that a null
/// in the last two may also be kept as [`JsonValue::Null`].
#[derive(Debug, PartialEq, Eq)]
pub struct ArmAccountProperties {
    pub custom_sub_domain_name: Option<String>,
    pub endpoint: Option<String>,
    pub rai_monitor_config: Option<JsonValue>,
    pub user_owned_storage: Option<JsonValue>,
}

/// The mathematical model of [`ArmAccount`].
pub struct AccountModel {
    pub id: Seq<char>,
    pub kind: Seq<char>,
    pub custom_sub_domain_name: Option<Seq<char>>,
    pub endpoint: Option<Seq<char>>,
    pub rai_monitor_config: Option<JsonValue>,
    pub user_owned_storage: Option<JsonValue>,
}

impl DeepView for ArmAccount {
    type V = AccountModel;

    open spec fn deep_view(&self) -> AccountModel {
        AccountModel {
            id: self.id@,
            kind: self.kind@,
            custom_sub_domain_name: self.properties.custom_sub_domain_name.deep_view(),
            endpoint: self.properties.endpoint.deep_view(),
            rai_monitor_config: self.properties.rai_monitor_config,
            user_owned_storage: self.properties.user_owned_storage,
        }
    }
}

/// The diagnostic settings of a resource.
#[derive(Debug, PartialEq, Eq)]
pub struct DiagnosticSettingsList {
    pub value: Vec<DiagnosticSetting>,
}

/// One diagnostic setting.
#[derive(Debug, PartialEq, Eq)]
pub struct DiagnosticSetting {
    pub properties: DiagnosticProperties,
}

/// The logs of a diagnostic setting and the places that they go to.
#[derive(Debug, PartialEq, Eq)]
pub struct DiagnosticProperties {
    pub logs: Vec<DiagnosticLog>,
    pub workspace_id: Option<String>,
    pub storage_account_id: Option<String>,
    pub event_hub_authorization_rule_id: Option<String>,
    pub marketplace_partner_id: Option<String>,
}

/// One log of a diagnostic setting.
#[derive(Debug, PartialEq, Eq)]
pub struct DiagnosticLog {
    pub category: Option<String>,
    pub category_group: Option<String>,
    pub enabled: bool,
}

/// The mathematical model of [`DiagnosticLog`].
pub struct LogModel {
    pub category: Option<Seq<char>>,
    pub category_group: Option<Seq<char>>,
    pub enabled: bool,
}

/// The mathematical model of [`DiagnosticSetting`].
pub struct SettingModel {
    pub logs: Seq<LogModel>,
    pub destinations: nat,
}

impl DeepView for DiagnosticLog {
    type V = LogModel;

    open spec fn deep_view(&self) -> LogModel {
        LogModel {
            category: self.category.deep_view(),
            category_group: self.category_group.deep_view(),
            enabled: self.enabled,
        }
    }
}

/// One for a destination that is there, nothing for one that is not.
pub open spec fn present(destination: Option<String>) -> nat {
    if destination is Some {
        1
    } else {
        0
    }
}

impl DiagnosticProperties {
    /// How many of the four destinations are there.
    pub open spec fn destinations(self) -> nat {
        present(self.workspace_id) + present(self.storage_account_id) + present(
            self.event_hub_authorization_rule_id,
        ) + present(self.marketplace_partner_id)
    }

    /// How many of the four destinations are there.
    pub fn destination_count(&self) -> (res: usize)
        ensures
            res == self.destinations(),
            res == (if self.workspace_id is Some { 1int } else { 0 }) + (
            if self.storage_account_id is Some { 1int } else { 0 }) + (
            if self.event_hub_authorization_rule_id is Some { 1int } else { 0 }) + (
            if self.marketplace_partner_id is Some { 1int } else { 0 }),
    {
        let mut count: usize = 0;
        if self.workspace_id.is_some() {
            count = count + 1;
        }
        if self.storage_account_id.is_some() {
            count = count + 1;
        }
        if self.event_hub_authorization_rule_id.is_some() {
            count = count + 1;
        }
        if self.marketplace_partner_id.is_some() {
            count = count + 1;
        }
        count
    }
}

impl DeepView for DiagnosticSetting {
    type V = SettingModel;

    open spec fn deep_view(&self) -> SettingModel {
        SettingModel {
            logs: self.properties.logs.deep_view(),
            destinations: self.properties.destinations(),
        }
    }
}

impl DeepView for DiagnosticSettingsList {
    type V = Seq<SettingModel>;

    open spec fn deep_view(&self) -> Seq<SettingModel> {
        self.value.deep_view()
    }
}

/// The model deployments of an account.
#[derive(Debug, PartialEq, Eq)]
pub struct DeploymentList {
    pub value: Vec<Deployment>,
}

/// One model deployment.
#[derive(Debug, PartialEq, Eq)]
pub struct Deployment {
    pub name: Option<String>,
    pub rai_policy_name: Option<String>,
}

/// The mathematical model of [`Deployment`].
pub struct DeploymentModel {
    pub name: Option<Seq<char>>,
    pub rai_policy_name: Option<Seq<char>>,
}

impl DeepView for Deployment {
    type V = DeploymentModel;

    open spec fn deep_view(&self) -> DeploymentModel {
        DeploymentModel {
            name: self.name.deep_view(),
            rai_policy_name: self.rai_policy_name.deep_view(),
        }
    }
}

impl DeepView for DeploymentList {
    type V = Seq<DeploymentModel>;

    open spec fn deep_view(&self) -> Seq<DeploymentModel> {
        self.value.deep_view()
    }
}

/// A Responsible AI policy.
#[derive(Debug, PartialEq, Eq)]
pub struct RaiPolicy {
    pub mode: Option<String>,
}

} // verus!
