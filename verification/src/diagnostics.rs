//! Diagnostic settings: which enabled logs are not known to carry metadata only.
use vstd::prelude::*;

use crate::arm::{DiagnosticLog, DiagnosticSettingsList, LogModel, SettingModel};
use crate::text::{shown, shown_text, text_eq};

verus! {

/// The log categories that carry metadata only.
pub open spec fn is_allowed_category(category: Seq<char>) -> bool {
    ||| category == "Audit"@
    ||| category == "RequestResponse"@
    ||| category == "Trace"@
    ||| category == "AzureOpenAIRequestUsage"@
}

/// The log category groups that carry metadata only.
pub open spec fn is_allowed_group(group: Seq<char>) -> bool {
    group == "allLogs"@ || group == "audit"@
}

impl LogModel {
    /// Whether the category or the category group of a log is an allowed one.
    pub open spec fn is_allowed(self) -> bool {
        ||| self.category matches Some(category) && is_allowed_category(category)
        ||| self.category_group matches Some(group) && is_allowed_group(group)
    }

    /// Whether a log is enabled and not an allowed one.
    pub open spec fn is_unexpected(self) -> bool {
        self.enabled && !self.is_allowed()
    }
}

/// Whether the category or the category group of a log is an allowed one.
pub fn diagnostic_log_is_allowed(log: &DiagnosticLog) -> (res: bool)
    ensures
        res == log.deep_view().is_allowed(),
        res <==> {
            ||| log.category matches Some(category) && {
                ||| category@ == "Audit"@
                ||| category@ == "RequestResponse"@
                ||| category@ == "Trace"@
                ||| category@ == "AzureOpenAIRequestUsage"@
            }
            ||| log.category_group matches Some(group) && {
                ||| group@ == "allLogs"@
                ||| group@ == "audit"@
            }
        },
{
    let by_category: bool = match &log.category {
        Some(category) => {
            let category = category.as_str();
            text_eq(category, "Audit") || text_eq(category, "RequestResponse") || text_eq(
                category,
                "Trace",
            ) || text_eq(category, "AzureOpenAIRequestUsage")
        },
        None => false,
    };
    let by_group: bool = match &log.category_group {
        Some(group) => text_eq(group.as_str(), "allLogs") || text_eq(group.as_str(), "audit"),
        None => false,
    };
    by_category || by_group
}

/// An enabled log of an unknown category, and the number of places that it goes to.
#[derive(Debug, PartialEq, Eq)]
pub struct DiagnosticWarning {
    pub category: String,
    pub category_group: String,
    pub destinations: usize,
}

/// The mathematical model of [`DiagnosticWarning`].
pub struct WarningModel {
    pub category: Seq<char>,
    pub category_group: Seq<char>,
    pub destinations: nat,
}

impl DeepView for DiagnosticWarning {
    type V = WarningModel;

    open spec fn deep_view(&self) -> WarningModel {
        WarningModel {
            category: self.category@,
            category_group: self.category_group@,
            destinations: self.destinations as nat,
        }
    }
}

/// The warning on a log.
pub open spec fn warning_on(log: LogModel, destinations: nat) -> WarningModel {
    WarningModel {
        category: shown(log.category),
        category_group: shown(log.category_group),
        destinations,
    }
}

/// The warnings on the logs of one setting, in their order.
pub open spec fn log_warnings(logs: Seq<LogModel>, destinations: nat) -> Seq<WarningModel>
    decreases logs.len(),
{
    if logs.len() == 0 {
        seq![]
    } else {
        let before = log_warnings(logs.drop_last(), destinations);
        if logs.last().is_unexpected() {
            before.push(warning_on(logs.last(), destinations))
        } else {
            before
        }
    }
}

/// The warnings on all settings, in their order.
pub open spec fn setting_warnings(settings: Seq<SettingModel>) -> Seq<WarningModel>
    decreases settings.len(),
{
    if settings.len() == 0 {
        seq![]
    } else {
        setting_warnings(settings.drop_last()) + log_warnings(
            settings.last().logs,
            settings.last().destinations,
        )
    }
}

/// The warnings on enabled logs of unknown categories: one for each, in the order of the settings
/// and of the logs in them.
pub fn warn_on_unexpected_diagnostic_logs(settings: &DiagnosticSettingsList) -> (res: Vec<
    DiagnosticWarning,
>)
    ensures
        res.deep_view() == setting_warnings(settings.deep_view()),
{
    let ghost model = settings.deep_view();
    let mut warnings: Vec<DiagnosticWarning> = Vec::new();
    let mut i: usize = 0;
    assert(warnings.deep_view() =~= setting_warnings(model.take(0)));
    while i < settings.value.len()
        invariant
            0 <= i <= settings.value@.len(),
            model == settings.deep_view(),
            warnings.deep_view() == setting_warnings(model.take(i as int)),
        decreases settings.value@.len() - i,
    {
        let properties = &settings.value[i].properties;
        let destinations: usize = properties.destination_count();
        let ghost logs = model[i as int].logs;
        let ghost earlier = warnings.deep_view();
        let mut j: usize = 0;
        assert(earlier + log_warnings(logs.take(0), destinations as nat) =~= earlier);
        while j < properties.logs.len()
            invariant
                0 <= j <= properties.logs@.len(),
                logs == properties.logs.deep_view(),
                warnings.deep_view() == earlier + log_warnings(
                    logs.take(j as int),
                    destinations as nat,
                ),
            decreases properties.logs@.len() - j,
        {
            let log = &properties.logs[j];
            let ghost before = warnings.deep_view();
            proof {
                assert(logs.take(j + 1).drop_last() =~= logs.take(j as int));
                assert(logs.take(j + 1).last() == log.deep_view());
            }
            if log.enabled && !diagnostic_log_is_allowed(log) {
                warnings.push(
                    DiagnosticWarning {
                        category: shown_text(&log.category),
                        category_group: shown_text(&log.category_group),
                        destinations,
                    },
                );
                assert(warnings.deep_view() =~= before.push(
                    warning_on(log.deep_view(), destinations as nat),
                ));
            }
            assert(warnings.deep_view() =~= earlier + log_warnings(
                logs.take(j + 1),
                destinations as nat,
            ));
            j = j + 1;
        }
        proof {
            assert(logs.take(j as int) =~= logs);
            assert(model.take(i + 1).drop_last() =~= model.take(i as int));
            assert(model.take(i + 1).last() == model[i as int]);
        }
        i = i + 1;
    }
    assert(model.take(i as int) =~= model);
    warnings
}

/// There is no warning exactly when every enabled log is an allowed one.
pub proof fn no_warning_iff_every_enabled_log_is_allowed(settings: Seq<SettingModel>)
    ensures
        setting_warnings(settings).len() == 0 <==> forall|i: int, j: int|
            0 <= i < settings.len() && 0 <= j < settings[i].logs.len()
                ==> !(#[trigger] settings[i].logs[j]).is_unexpected(),
    decreases settings.len(),
{
    if settings.len() > 0 {
        let front = settings.drop_last();
        let last = settings.last();
        no_warning_iff_every_enabled_log_is_allowed(front);
        lemma_log_warnings(last.logs, last.destinations);
        if setting_warnings(settings).len() == 0 {
            assert forall|i: int, j: int|
                0 <= i < settings.len() && 0 <= j < settings[i].logs.len() implies !(
            #[trigger] settings[i].logs[j]).is_unexpected() by {
                if i < front.len() {
                    assert(front[i].logs[j] == settings[i].logs[j]);
                }
            }
        } else if setting_warnings(front).len() > 0 {
            let (i, j) = choose|i: int, j: int|
                0 <= i < front.len() && 0 <= j < front[i].logs.len() && (
                #[trigger] front[i].logs[j]).is_unexpected();
            assert(settings[i].logs[j].is_unexpected());
        } else {
            let j = choose|j: int|
                0 <= j < last.logs.len() && (#[trigger] last.logs[j]).is_unexpected();
            assert(settings[settings.len() - 1].logs[j].is_unexpected());
        }
    }
}

proof fn lemma_log_warnings(logs: Seq<LogModel>, destinations: nat)
    ensures
        log_warnings(logs, destinations).len() == 0 <==> forall|j: int|
            0 <= j < logs.len() ==> !(#[trigger] logs[j]).is_unexpected(),
    decreases logs.len(),
{
    if logs.len() > 0 {
        let front = logs.drop_last();
        lemma_log_warnings(front, destinations);
        if log_warnings(logs, destinations).len() == 0 {
            assert forall|j: int| 0 <= j < logs.len() implies !(
            #[trigger] logs[j]).is_unexpected() by {
                if j < front.len() {
                    assert(front[j] == logs[j]);
                }
            }
        } else if logs.last().is_unexpected() {
            assert(logs[logs.len() - 1].is_unexpected());
        } else {
            let j = choose|j: int| 0 <= j < front.len() && (#[trigger] front[j]).is_unexpected();
            assert(logs[j].is_unexpected());
        }
    }
}

/// A log is allowed exactly when its category is `Audit`, `RequestResponse`, `Trace` or
/// `AzureOpenAIRequestUsage`, or its group is `allLogs` or `audit`.
pub proof fn log_is_allowed_iff(log: LogModel)
    ensures
        log.is_allowed() <==> {
            ||| log.category == Some("Audit"@)
            ||| log.category == Some("RequestResponse"@)
            ||| log.category == Some("Trace"@)
            ||| log.category == Some("AzureOpenAIRequestUsage"@)
            ||| log.category_group == Some("allLogs"@)
            ||| log.category_group == Some("audit"@)
        },
{
}

/// A single log gives one warning where it is enabled and not allowed, which shows its category and
/// group unchanged, or `<none>`, and the number of destinations; otherwise it gives none.
pub proof fn single_log_warns_iff_enabled_and_unknown(log: LogModel, destinations: nat)
    ensures
        log.enabled && !log.is_allowed() ==> log_warnings(seq![log], destinations) == seq![
            WarningModel {
                category: match log.category {
                    Some(category) => category,
                    None => "<none>"@,
                },
                category_group: match log.category_group {
                    Some(group) => group,
                    None => "<none>"@,
                },
                destinations,
            },
        ],
        !log.enabled || log.is_allowed() ==> log_warnings(seq![log], destinations).len() == 0,
{
    reveal_with_fuel(log_warnings, 2);
    assert(seq![log].drop_last() =~= seq![]);
    assert(seq![log].last() == log);
}

/// Logs are looked at one by one: the warnings on two lists of logs, one after the other, are those
/// on the first and then those on the second.
pub proof fn logs_warn_one_by_one(a: Seq<LogModel>, b: Seq<LogModel>, destinations: nat)
    ensures
        log_warnings(a + b, destinations) == log_warnings(a, destinations) + log_warnings(
            b,
            destinations,
        ),
    decreases b.len(),
{
    if b.len() == 0 {
        assert(a + b =~= a);
        assert(log_warnings(a, destinations) + log_warnings(b, destinations) =~= log_warnings(
            a,
            destinations,
        ));
    } else {
        logs_warn_one_by_one(a, b.drop_last(), destinations);
        assert((a + b).drop_last() =~= a + b.drop_last());
        assert((a + b).last() == b.last());
        assert(log_warnings(a + b, destinations) =~= log_warnings(a, destinations) + log_warnings(
            b,
            destinations,
        ));
    }
}

/// Settings are looked at one by one, and a single one gives the warnings on its logs with the
/// number of its own destinations.
pub proof fn settings_warn_one_by_one(a: Seq<SettingModel>, b: Seq<SettingModel>, one: SettingModel)
    ensures
        setting_warnings(a + b) == setting_warnings(a) + setting_warnings(b),
        setting_warnings(seq![one]) == log_warnings(one.logs, one.destinations),
    decreases b.len(),
{
    reveal_with_fuel(setting_warnings, 2);
    assert(seq![one].drop_last() =~= seq![]);
    assert(setting_warnings(seq![one]) =~= log_warnings(one.logs, one.destinations));
    if b.len() == 0 {
        assert(a + b =~= a);
        assert(setting_warnings(a) + setting_warnings(b) =~= setting_warnings(a));
    } else {
        settings_warn_one_by_one(a, b.drop_last(), one);
        assert((a + b).drop_last() =~= a + b.drop_last());
        assert((a + b).last() == b.last());
        assert(setting_warnings(a + b) =~= setting_warnings(a) + setting_warnings(b));
    }
}

} // verus!
