//! Settings read from the process environment.
//!
//! The environment is handed in as a list of variables, so every rule on a setting is a function of
//! that list.
use vstd::prelude::*;

use crate::text::{
    joined, is_blank, lemma_trim_empty, text_eq, trimmed, trims_to_nothing,
};

verus! {

/// The value of an environment variable.
#[derive(Debug, PartialEq, Eq)]
pub enum EnvValue {
    /// A value that is Unicode text.
    Text(String),
    /// A value that is not, with the words that the platform has for that.
    NotUnicode(String),
}

/// The mathematical model of [`EnvValue`].
pub enum EnvValueModel {
    Text(Seq<char>),
    NotUnicode(Seq<char>),
}

impl DeepView for EnvValue {
    type V = EnvValueModel;

    open spec fn deep_view(&self) -> EnvValueModel {
        match self {
            EnvValue::Text(text) => EnvValueModel::Text(text@),
            EnvValue::NotUnicode(reason) => EnvValueModel::NotUnicode(reason@),
        }
    }
}

/// One environment variable.
#[derive(Debug, PartialEq, Eq)]
pub struct EnvVar {
    pub name: String,
    pub value: EnvValue,
}

/// The mathematical model of [`EnvVar`].
pub struct EnvVarModel {
    pub name: Seq<char>,
    pub value: EnvValueModel,
}

impl DeepView for EnvVar {
    type V = EnvVarModel;

    open spec fn deep_view(&self) -> EnvVarModel {
        EnvVarModel { name: self.name@, value: self.value.deep_view() }
    }
}

/// The variables of an environment.
#[derive(Debug, PartialEq, Eq)]
pub struct Environment {
    pub vars: Vec<EnvVar>,
}

impl DeepView for Environment {
    type V = Seq<EnvVarModel>;

    open spec fn deep_view(&self) -> Seq<EnvVarModel> {
        self.vars.deep_view()
    }
}

/// The value of the first variable that is called `name`.
pub open spec fn lookup(env: Seq<EnvVarModel>, name: Seq<char>) -> Option<EnvValueModel>
    decreases env.len(),
{
    if env.len() == 0 {
        None
    } else if env[0].name == name {
        Some(env[0].value)
    } else {
        lookup(env.drop_first(), name)
    }
}

impl Environment {
    /// The value of the variable that is called `name`.
    pub fn var(&self, name: &str) -> (res: Option<&EnvValue>)
        ensures
            res.deep_view() == lookup(self.deep_view(), name@),
    {
        let ghost model = self.deep_view();
        let mut i: usize = 0;
        assert(model.skip(0) =~= model);
        while i < self.vars.len()
            invariant
                0 <= i <= self.vars@.len(),
                model == self.deep_view(),
                lookup(model.skip(i as int), name@) == lookup(model, name@),
            decreases self.vars@.len() - i,
        {
            assert(model.skip(i as int)[0] == self.vars@[i as int].deep_view());
            assert(model.skip(i as int).drop_first() =~= model.skip(i + 1));
            if text_eq(self.vars[i].name.as_str(), name) {
                return Some(&self.vars[i].value);
            }
            i = i + 1;
        }
        None
    }
}

/// What is wrong with a setting.
#[derive(Debug, PartialEq, Eq, Clone, Copy)]
pub enum SettingProblem {
    /// It is required and not set.
    NotSet,
    /// It is required and blank.
    Empty,
    /// It is not a number of seconds.
    NotSeconds,
    /// It is not a positive integer.
    NotPositiveInteger,
    /// It is neither `true` nor `false`.
    NotBoolean,
    /// It cannot be read.
    Unreadable,
}

/// A setting that is refused, and the cause, where another error is behind it.
#[derive(Debug, PartialEq, Eq)]
pub struct SettingError {
    pub name: String,
    pub problem: SettingProblem,
    pub cause: Option<String>,
}

/// The mathematical model of [`SettingError`].
pub struct SettingErrorModel {
    pub name: Seq<char>,
    pub problem: SettingProblem,
    pub cause: Option<Seq<char>>,
}

impl DeepView for SettingError {
    type V = SettingErrorModel;

    open spec fn deep_view(&self) -> SettingErrorModel {
        SettingErrorModel {
            name: self.name@,
            problem: self.problem,
            cause: self.cause.deep_view(),
        }
    }
}

/// The model of an error without a cause.
pub open spec fn plain_error(name: Seq<char>, problem: SettingProblem) -> SettingErrorModel {
    SettingErrorModel { name, problem, cause: None }
}

/// The model of an error with a cause.
pub open spec fn caused_error(
    name: Seq<char>,
    problem: SettingProblem,
    cause: Seq<char>,
) -> SettingErrorModel {
    SettingErrorModel { name, problem, cause: Some(cause) }
}

/// The message of a refused setting.
pub open spec fn setting_message(error: SettingErrorModel) -> Seq<char> {
    match error.problem {
        SettingProblem::NotSet => error.name + " must be set"@,
        SettingProblem::Empty => error.name + " must not be empty"@,
        SettingProblem::NotSeconds => error.name + " must be an integer number of seconds"@,
        SettingProblem::NotPositiveInteger => error.name + " must be a positive integer"@,
        SettingProblem::NotBoolean => error.name + " must be true or false"@,
        SettingProblem::Unreadable => "read "@ + error.name,
    }
}

/// The message of a refused setting with its cause, where it has one.
pub open spec fn setting_detail(error: SettingErrorModel) -> Seq<char> {
    match error.cause {
        Some(cause) => setting_message(error) + ": "@ + cause,
        None => setting_message(error),
    }
}

impl SettingError {
    /// What is wrong, in words.
    pub fn message(&self) -> (res: String)
        ensures
            res@ == setting_message(self.deep_view()),
    {
        let name = self.name.as_str();
        match self.problem {
            SettingProblem::NotSet => joined(name, " must be set"),
            SettingProblem::Empty => joined(name, " must not be empty"),
            SettingProblem::NotSeconds => joined(name, " must be an integer number of seconds"),
            SettingProblem::NotPositiveInteger => joined(name, " must be a positive integer"),
            SettingProblem::NotBoolean => joined(name, " must be true or false"),
            SettingProblem::Unreadable => joined("read ", name),
        }
    }

    /// What is wrong and why, in words.
    pub fn detail(&self) -> (res: String)
        ensures
            res@ == setting_detail(self.deep_view()),
    {
        let mut res = self.message();
        match &self.cause {
            Some(cause) => {
                res.append(": ");
                res.append(cause.as_str());
            },
            None => {},
        }
        res
    }
}

/// The words for a variable that is not set.
pub const NOT_PRESENT: &'static str = "environment variable not found";

/// What a required setting is, or why it is refused.
pub open spec fn required_outcome(env: Seq<EnvVarModel>, name: Seq<char>) -> Result<
    Seq<char>,
    SettingErrorModel,
> {
    match lookup(env, name) {
        None => Err(caused_error(name, SettingProblem::NotSet, NOT_PRESENT@)),
        Some(EnvValueModel::NotUnicode(reason)) => Err(
            caused_error(name, SettingProblem::NotSet, reason),
        ),
        Some(EnvValueModel::Text(text)) => if is_blank(text) {
            Err(plain_error(name, SettingProblem::Empty))
        } else {
            Ok(text)
        },
    }
}

/// Reads a setting that must be there and must not be blank. The value is not trimmed.
pub fn required_env(env: &Environment, name: &str) -> (res: Result<String, SettingError>)
    ensures
        match res {
            Ok(value) => required_outcome(env.deep_view(), name@) == Ok::<
                Seq<char>,
                SettingErrorModel,
            >(value@),
            Err(error) => required_outcome(env.deep_view(), name@) == Err::<
                Seq<char>,
                SettingErrorModel,
            >(error.deep_view()),
        },
{
    match env.var(name) {
        None => Err(
            SettingError {
                name: name.to_owned(),
                problem: SettingProblem::NotSet,
                cause: Some(NOT_PRESENT.to_owned()),
            },
        ),
        Some(EnvValue::NotUnicode(reason)) => Err(
            SettingError {
                name: name.to_owned(),
                problem: SettingProblem::NotSet,
                cause: Some(reason.clone()),
            },
        ),
        Some(EnvValue::Text(text)) => if trims_to_nothing(text.as_str()) {
            Err(
                SettingError {
                    name: name.to_owned(),
                    problem: SettingProblem::Empty,
                    cause: None,
                },
            )
        } else {
            Ok(text.clone())
        },
    }
}

/// The value of a decimal digit.
pub open spec fn digit_value(c: char) -> int {
    c as int - '0' as int
}

/// Whether `s` is a decimal number: at least one character, and nothing but digits.
pub open spec fn is_digits(s: Seq<char>) -> bool {
    s.len() > 0 && forall|i: int| 0 <= i < s.len() ==> '0' <= #[trigger] s[i] <= '9'
}

/// The value of a text of decimal digits.
pub open spec fn digits_value(s: Seq<char>) -> int
    decreases s.len(),
{
    if s.len() == 0 {
        0
    } else {
        10 * digits_value(s.drop_last()) + digit_value(s.last())
    }
}

/// The unsigned integer that `s` writes down: an optional `+` and digits, with a value of at most
/// `max`.
pub open spec fn unsigned_value(s: Seq<char>, max: int) -> Option<int> {
    let digits = if s.len() > 0 && s[0] == '+' {
        s.skip(1)
    } else {
        s
    };
    if is_digits(digits) && digits_value(digits) <= max {
        Some(digits_value(digits))
    } else {
        None
    }
}

/// The words in which the parser of 64-bit integers refuses a text.
pub uninterp spec fn u64_refusal(s: Seq<char>) -> Seq<char>;

/// The words in which the parser of 32-bit integers refuses a text.
pub uninterp spec fn u32_refusal(s: Seq<char>) -> Seq<char>;

/// Calls `str::parse::<u64>`. It accepts an optional `+` followed by decimal digits whose value
/// fits; the words of a refusal are a function of the text, and are left unsaid.
#[verifier::external_body]
fn parse_u64(s: &str) -> (res: Result<u64, String>)
    ensures
        match res {
            Ok(n) => unsigned_value(s@, u64::MAX as int) == Some(n as int),
            Err(words) => unsigned_value(s@, u64::MAX as int) is None && words@ == u64_refusal(s@),
        },
{
    s.parse::<u64>().map_err(|error| error.to_string())
}

/// Calls `str::parse::<u32>`. It accepts an optional `+` followed by decimal digits whose value
/// fits; the words of a refusal are a function of the text, and are left unsaid.
#[verifier::external_body]
fn parse_u32(s: &str) -> (res: Result<u32, String>)
    ensures
        match res {
            Ok(n) => unsigned_value(s@, u32::MAX as int) == Some(n as int),
            Err(words) => unsigned_value(s@, u32::MAX as int) is None && words@ == u32_refusal(s@),
        },
{
    s.parse::<u32>().map_err(|error| error.to_string())
}

/// A numeric setting that has a minimum. Where the configured number was below the minimum, the
/// value is the minimum and `raised_from` keeps what was configured.
#[derive(Debug, PartialEq, Eq)]
pub struct AtLeast<T> {
    pub value: T,
    pub raised_from: Option<T>,
}

/// A configured number held to its minimum.
pub open spec fn held_to_minimum(configured: int, minimum: int) -> AtLeast<int> {
    if configured < minimum {
        AtLeast { value: minimum, raised_from: Some(configured) }
    } else {
        AtLeast { value: configured, raised_from: None }
    }
}

/// What a numeric setting is, or why it is refused. `refusal` gives the words of the parser.
pub open spec fn at_least_outcome(
    env: Seq<EnvVarModel>,
    name: Seq<char>,
    default: int,
    minimum: int,
    max: int,
    problem: SettingProblem,
    refusal: spec_fn(Seq<char>) -> Seq<char>,
) -> Result<AtLeast<int>, SettingErrorModel> {
    match lookup(env, name) {
        None => Ok(AtLeast { value: default, raised_from: None }),
        Some(EnvValueModel::NotUnicode(reason)) => Err(
            caused_error(name, SettingProblem::Unreadable, reason),
        ),
        Some(EnvValueModel::Text(text)) => match unsigned_value(text, max) {
            None => Err(caused_error(name, problem, refusal(text))),
            Some(configured) => Ok(held_to_minimum(configured, minimum)),
        },
    }
}

/// What a 64-bit setting is, or why it is refused.
pub open spec fn u64_outcome(
    env: Seq<EnvVarModel>,
    name: Seq<char>,
    default: int,
    minimum: int,
) -> Result<AtLeast<int>, SettingErrorModel> {
    at_least_outcome(
        env,
        name,
        default,
        minimum,
        u64::MAX as int,
        SettingProblem::NotSeconds,
        |text: Seq<char>| u64_refusal(text),
    )
}

/// What a 32-bit setting is, or why it is refused.
pub open spec fn u32_outcome(
    env: Seq<EnvVarModel>,
    name: Seq<char>,
    default: int,
    minimum: int,
) -> Result<AtLeast<int>, SettingErrorModel> {
    at_least_outcome(
        env,
        name,
        default,
        minimum,
        u32::MAX as int,
        SettingProblem::NotPositiveInteger,
        |text: Seq<char>| u32_refusal(text),
    )
}

/// The model of a 64-bit setting.
pub open spec fn u64_model(setting: AtLeast<u64>) -> AtLeast<int> {
    AtLeast {
        value: setting.value as int,
        raised_from: match setting.raised_from {
            Some(n) => Some(n as int),
            None => None,
        },
    }
}

/// The model of a 32-bit setting.
pub open spec fn u32_model(setting: AtLeast<u32>) -> AtLeast<int> {
    AtLeast {
        value: setting.value as int,
        raised_from: match setting.raised_from {
            Some(n) => Some(n as int),
            None => None,
        },
    }
}

/// Reads a number of seconds: `default` where the variable is not set, otherwise the configured
/// number, held to `minimum`.
pub fn env_u64_at_least(env: &Environment, name: &str, default: u64, minimum: u64) -> (res: Result<
    AtLeast<u64>,
    SettingError,
>)
    ensures
        match res {
            Ok(setting) => u64_outcome(
                env.deep_view(),
                name@,
                default as int,
                minimum as int,
            ) == Ok::<AtLeast<int>, SettingErrorModel>(u64_model(setting)),
            Err(error) => u64_outcome(
                env.deep_view(),
                name@,
                default as int,
                minimum as int,
            ) == Err::<AtLeast<int>, SettingErrorModel>(error.deep_view()),
        },
        match lookup(env.deep_view(), name@) {
            None => res matches Ok(setting) && setting.value == default && setting.raised_from
                is None,
            Some(EnvValueModel::NotUnicode(_)) => res is Err,
            Some(EnvValueModel::Text(text)) => match unsigned_value(text, u64::MAX as int) {
                None => res is Err,
                Some(n) => res matches Ok(setting) && setting.value == (if n < minimum {
                    minimum as int
                } else {
                    n
                }) && setting.raised_from == (if n < minimum {
                    Some(n as u64)
                } else {
                    None
                }),
            },
        },
{
    match env.var(name) {
        None => Ok(AtLeast { value: default, raised_from: None }),
        Some(EnvValue::NotUnicode(reason)) => Err(
            SettingError {
                name: name.to_owned(),
                problem: SettingProblem::Unreadable,
                cause: Some(reason.clone()),
            },
        ),
        Some(EnvValue::Text(text)) => match parse_u64(text.as_str()) {
            Err(words) => Err(
                SettingError {
                    name: name.to_owned(),
                    problem: SettingProblem::NotSeconds,
                    cause: Some(words),
                },
            ),
            Ok(configured) => if configured < minimum {
                Ok(AtLeast { value: minimum, raised_from: Some(configured) })
            } else {
                Ok(AtLeast { value: configured, raised_from: None })
            },
        },
    }
}

/// Reads a count: `default` where the variable is not set, otherwise the configured number, held
/// to `minimum`.
pub fn env_u32_at_least(env: &Environment, name: &str, default: u32, minimum: u32) -> (res: Result<
    AtLeast<u32>,
    SettingError,
>)
    ensures
        match res {
            Ok(setting) => u32_outcome(
                env.deep_view(),
                name@,
                default as int,
                minimum as int,
            ) == Ok::<AtLeast<int>, SettingErrorModel>(u32_model(setting)),
            Err(error) => u32_outcome(
                env.deep_view(),
                name@,
                default as int,
                minimum as int,
            ) == Err::<AtLeast<int>, SettingErrorModel>(error.deep_view()),
        },
        match lookup(env.deep_view(), name@) {
            None => res matches Ok(setting) && setting.value == default && setting.raised_from
                is None,
            Some(EnvValueModel::NotUnicode(_)) => res is Err,
            Some(EnvValueModel::Text(text)) => match unsigned_value(text, u32::MAX as int) {
                None => res is Err,
                Some(n) => res matches Ok(setting) && setting.value == (if n < minimum {
                    minimum as int
                } else {
                    n
                }) && setting.raised_from == (if n < minimum {
                    Some(n as u32)
                } else {
                    None
                }),
            },
        },
{
    match env.var(name) {
        None => Ok(AtLeast { value: default, raised_from: None }),
        Some(EnvValue::NotUnicode(reason)) => Err(
            SettingError {
                name: name.to_owned(),
                problem: SettingProblem::Unreadable,
                cause: Some(reason.clone()),
            },
        ),
        Some(EnvValue::Text(text)) => match parse_u32(text.as_str()) {
            Err(words) => Err(
                SettingError {
                    name: name.to_owned(),
                    problem: SettingProblem::NotPositiveInteger,
                    cause: Some(words),
                },
            ),
            Ok(configured) => if configured < minimum {
                Ok(AtLeast { value: minimum, raised_from: Some(configured) })
            } else {
                Ok(AtLeast { value: configured, raised_from: None })
            },
        },
    }
}

/// What a switch is, or why it is refused.
pub open spec fn switch_outcome(env: Seq<EnvVarModel>, name: Seq<char>, default: bool) -> Result<
    bool,
    SettingErrorModel,
> {
    match lookup(env, name) {
        None => Ok(default),
        Some(EnvValueModel::NotUnicode(reason)) => Err(
            caused_error(name, SettingProblem::Unreadable, reason),
        ),
        Some(EnvValueModel::Text(text)) => if text == "true"@ {
            Ok(true)
        } else if text == "false"@ {
            Ok(false)
        } else {
            Err(plain_error(name, SettingProblem::NotBoolean))
        },
    }
}

/// Reads a switch: `default` where the variable is not set, otherwise `true` or `false`.
pub fn env_switch(env: &Environment, name: &str, default: bool) -> (res: Result<
    bool,
    SettingError,
>)
    ensures
        match res {
            Ok(value) => switch_outcome(env.deep_view(), name@, default) == Ok::<
                bool,
                SettingErrorModel,
            >(value),
            Err(error) => switch_outcome(env.deep_view(), name@, default) == Err::<
                bool,
                SettingErrorModel,
            >(error.deep_view()),
        },
{
    match env.var(name) {
        None => Ok(default),
        Some(EnvValue::NotUnicode(reason)) => Err(
            SettingError {
                name: name.to_owned(),
                problem: SettingProblem::Unreadable,
                cause: Some(reason.clone()),
            },
        ),
        Some(EnvValue::Text(text)) => if text_eq(text.as_str(), "true") {
            Ok(true)
        } else if text_eq(text.as_str(), "false") {
            Ok(false)
        } else {
            Err(
                SettingError {
                    name: name.to_owned(),
                    problem: SettingProblem::NotBoolean,
                    cause: None,
                },
            )
        },
    }
}

/// A variable has the value that stands with its name for the first time, and none where its name
/// does not occur.
pub proof fn lookup_finds_the_first(env: Seq<EnvVarModel>, name: Seq<char>)
    ensures
        lookup(env, name) is None <==> forall|k: int|
            0 <= k < env.len() ==> (#[trigger] env[k]).name != name,
        forall|k: int|
            0 <= k < env.len() && (#[trigger] env[k]).name == name && (forall|j: int|
                0 <= j < k ==> (#[trigger] env[j]).name != name) ==> lookup(env, name) == Some(
                env[k].value,
            ),
    decreases env.len(),
{
    if env.len() > 0 {
        let rest = env.drop_first();
        lookup_finds_the_first(rest, name);
        assert forall|k: int|
            0 <= k < env.len() && (#[trigger] env[k]).name == name && (forall|j: int|
                0 <= j < k ==> (#[trigger] env[j]).name != name) implies lookup(env, name) == Some(
            env[k].value,
        ) by {
            if k > 0 {
                assert(env[0].name != name);
                assert(rest[k - 1] == env[k]);
                assert forall|j: int| 0 <= j < k - 1 implies (#[trigger] rest[j]).name != name by {
                    assert(rest[j] == env[j + 1]);
                }
            }
        }
        if lookup(env, name) is None {
            assert forall|k: int| 0 <= k < env.len() implies (#[trigger] env[k]).name != name by {
                if k > 0 {
                    assert(rest[k - 1] == env[k]);
                }
            }
        }
        if forall|k: int| 0 <= k < env.len() ==> (#[trigger] env[k]).name != name {
            assert(env[0].name != name);
            assert forall|k: int| 0 <= k < rest.len() implies (#[trigger] rest[k]).name != name by {
                assert(rest[k] == env[k + 1]);
            }
        }
    }
}

/// A required setting is what its variable holds, unchanged, and there exactly when the variable is
/// set to a text that is not blank. Otherwise it is not set, with the words for that, or empty.
pub proof fn required_setting_is_what_is_set(env: Seq<EnvVarModel>, name: Seq<char>)
    ensures
        match lookup(env, name) {
            None => required_outcome(env, name) == Err::<Seq<char>, _>(
                SettingErrorModel {
                    name,
                    problem: SettingProblem::NotSet,
                    cause: Some("environment variable not found"@),
                },
            ),
            Some(EnvValueModel::NotUnicode(reason)) => required_outcome(env, name) == Err::<
                Seq<char>,
                _,
            >(SettingErrorModel { name, problem: SettingProblem::NotSet, cause: Some(reason) }),
            Some(EnvValueModel::Text(text)) => {
                &&& trimmed(text).len() > 0 ==> required_outcome(env, name) == Ok::<
                    _,
                    SettingErrorModel,
                >(text)
                &&& trimmed(text).len() == 0 ==> required_outcome(env, name) == Err::<Seq<char>, _>(
                    SettingErrorModel { name, problem: SettingProblem::Empty, cause: None },
                )
            },
        },
{
    if let Some(EnvValueModel::Text(text)) = lookup(env, name) {
        lemma_trim_empty(text);
    }
}

/// A numeric setting is the default where its variable is not set, and the larger of the configured
/// number and the minimum where its text writes down a number that fits; what was configured is
/// kept where the minimum is the larger. Any other text is refused.
pub proof fn number_is_the_configured_one_or_the_minimum(
    env: Seq<EnvVarModel>,
    name: Seq<char>,
    default: int,
    minimum: int,
    text: Seq<char>,
)
    ensures
        lookup(env, name) is None ==> {
            &&& u64_outcome(env, name, default, minimum) matches Ok(setting) && setting.value
                == default && setting.raised_from is None
            &&& u32_outcome(env, name, default, minimum) matches Ok(setting) && setting.value
                == default && setting.raised_from is None
        },
        lookup(env, name) == Some(EnvValueModel::Text(text)) ==> {
            &&& match unsigned_value(text, u64::MAX as int) {
                Some(n) => u64_outcome(env, name, default, minimum) matches Ok(setting)
                    && setting.value >= n && setting.value >= minimum && (setting.value == n
                    || setting.value == minimum) && setting.raised_from == (if n < minimum {
                    Some(n)
                } else {
                    None
                }),
                None => u64_outcome(env, name, default, minimum) == Err::<AtLeast<int>, _>(
                    SettingErrorModel {
                        name,
                        problem: SettingProblem::NotSeconds,
                        cause: Some(u64_refusal(text)),
                    },
                ),
            }
            &&& match unsigned_value(text, u32::MAX as int) {
                Some(n) => u32_outcome(env, name, default, minimum) matches Ok(setting)
                    && setting.value >= n && setting.value >= minimum && (setting.value == n
                    || setting.value == minimum) && setting.raised_from == (if n < minimum {
                    Some(n)
                } else {
                    None
                }),
                None => u32_outcome(env, name, default, minimum) == Err::<AtLeast<int>, _>(
                    SettingErrorModel {
                        name,
                        problem: SettingProblem::NotPositiveInteger,
                        cause: Some(u32_refusal(text)),
                    },
                ),
            }
        },
        lookup(env, name) == Some(EnvValueModel::NotUnicode(text)) ==> {
            &&& u64_outcome(env, name, default, minimum) == Err::<AtLeast<int>, _>(
                SettingErrorModel { name, problem: SettingProblem::Unreadable, cause: Some(text) },
            )
            &&& u32_outcome(env, name, default, minimum) == Err::<AtLeast<int>, _>(
                SettingErrorModel { name, problem: SettingProblem::Unreadable, cause: Some(text) },
            )
        },
{
}

/// A switch is on for `true` and off for `false`, as it is by default where it is not set, and any
/// other value is refused.
pub proof fn switch_is_true_or_false(env: Seq<EnvVarModel>, name: Seq<char>, default: bool)
    ensures
        switch_outcome(env, name, default) is Ok <==> {
            ||| lookup(env, name) is None
            ||| lookup(env, name) == Some(EnvValueModel::Text("true"@))
            ||| lookup(env, name) == Some(EnvValueModel::Text("false"@))
        },
        lookup(env, name) is None ==> switch_outcome(env, name, default)->Ok_0 == default,
        lookup(env, name) == Some(EnvValueModel::Text("true"@)) ==> switch_outcome(
            env,
            name,
            default,
        )->Ok_0,
        lookup(env, name) == Some(EnvValueModel::Text("false"@)) ==> !switch_outcome(
            env,
            name,
            default,
        )->Ok_0,
        switch_outcome(env, name, default) matches Err(error) ==> error.name == name && match lookup(
            env,
            name,
        ) {
            Some(EnvValueModel::NotUnicode(reason)) => error.problem == SettingProblem::Unreadable
                && error.cause == Some(reason),
            _ => error.problem == SettingProblem::NotBoolean && error.cause is None,
        },
{
    lemma_true_is_not_false();
}

proof fn lemma_true_is_not_false()
    ensures
        "true"@ != "false"@,
{
    reveal_strlit("true");
    reveal_strlit("false");
    assert("true"@.len() != "false"@.len());
}

/// The message of a refused setting names the setting, and the cause follows it unchanged.
pub proof fn setting_messages_name_the_setting(name: Seq<char>, cause: Seq<char>)
    ensures
        setting_message(plain_error(name, SettingProblem::NotSet)) == name + " must be set"@,
        setting_message(plain_error(name, SettingProblem::Empty)) == name + " must not be empty"@,
        setting_message(plain_error(name, SettingProblem::NotSeconds)) == name
            + " must be an integer number of seconds"@,
        setting_message(plain_error(name, SettingProblem::NotPositiveInteger)) == name
            + " must be a positive integer"@,
        setting_message(plain_error(name, SettingProblem::NotBoolean)) == name
            + " must be true or false"@,
        setting_message(plain_error(name, SettingProblem::Unreadable)) == "read "@ + name,
        forall|problem: SettingProblem|
            {
                &&& #[trigger] setting_detail(
                    SettingErrorModel { name, problem, cause: None },
                ) == setting_message(SettingErrorModel { name, problem, cause: None })
                &&& setting_detail(SettingErrorModel { name, problem, cause: Some(cause) })
                    == setting_message(SettingErrorModel { name, problem, cause: None }) + ": "@
                    + cause
            },
{
}

} // verus!
