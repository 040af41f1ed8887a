//! Whether the deployments of an account stream: a content filter that runs synchronously buffers
//! completions.
use vstd::prelude::*;

use crate::arm::{Deployment, DeploymentList, DeploymentModel};
use crate::text::{
    joined, is_blank, lemma_trim_empty, shown, shown_text, text_eq, trimmed, trims_to_nothing,
};

verus! {

/// The filter modes under which a deployment streams.
pub open spec fn is_async_mode(mode: Option<Seq<char>>) -> bool {
    mode == Some("Asynchronous_filter"@) || mode == Some("Deferred"@)
}

/// The Responsible AI policy that a deployment references. A blank name is no reference.
pub open spec fn policy_of(deployment: DeploymentModel) -> Option<Seq<char>> {
    match deployment.rai_policy_name {
        Some(name) => if is_blank(name) {
            None
        } else {
            Some(name)
        },
        None => None,
    }
}

/// The policies that the deployments reference, each once, in the order of first reference.
pub open spec fn policies_of(deployments: Seq<DeploymentModel>) -> Seq<Seq<char>>
    decreases deployments.len(),
{
    if deployments.len() == 0 {
        seq![]
    } else {
        let before = policies_of(deployments.drop_last());
        match policy_of(deployments.last()) {
            Some(name) => if before.contains(name) {
                before
            } else {
                before.push(name)
            },
            None => before,
        }
    }
}

/// The mode that was read of a policy.
#[derive(Debug, PartialEq, Eq)]
pub struct PolicyReading {
    pub policy_name: String,
    pub mode: Option<String>,
}

/// The mathematical model of [`PolicyReading`].
pub struct ReadingModel {
    pub policy_name: Seq<char>,
    pub mode: Option<Seq<char>>,
}

impl DeepView for PolicyReading {
    type V = ReadingModel;

    open spec fn deep_view(&self) -> ReadingModel {
        ReadingModel { policy_name: self.policy_name@, mode: self.mode.deep_view() }
    }
}

/// The mode that was first read of the policy `name`; `None` where it has no mode or was not read.
pub open spec fn mode_of(readings: Seq<ReadingModel>, name: Seq<char>) -> Option<Seq<char>>
    decreases readings.len(),
{
    if readings.len() == 0 {
        None
    } else if readings[0].policy_name == name {
        readings[0].mode
    } else {
        mode_of(readings.drop_first(), name)
    }
}

/// The mode under which a deployment filters.
pub open spec fn deployment_mode(
    deployment: DeploymentModel,
    readings: Seq<ReadingModel>,
) -> Option<Seq<char>> {
    match policy_of(deployment) {
        Some(name) => mode_of(readings, name),
        None => None,
    }
}

/// Whether a deployment streams: it references a policy whose mode is asynchronous.
pub open spec fn streams(deployment: DeploymentModel, readings: Seq<ReadingModel>) -> bool {
    is_async_mode(deployment_mode(deployment, readings))
}

/// A deployment that buffers completions, with its policy and mode as far as they are there.
#[derive(Debug, PartialEq, Eq)]
pub struct SynchronousDeployment {
    pub name: Option<String>,
    pub policy: Option<String>,
    pub mode: Option<String>,
}

/// The mathematical model of [`SynchronousDeployment`].
pub struct SynchronousModel {
    pub name: Option<Seq<char>>,
    pub policy: Option<Seq<char>>,
    pub mode: Option<Seq<char>>,
}

impl DeepView for SynchronousDeployment {
    type V = SynchronousModel;

    open spec fn deep_view(&self) -> SynchronousModel {
        SynchronousModel {
            name: self.name.deep_view(),
            policy: self.policy.deep_view(),
            mode: self.mode.deep_view(),
        }
    }
}

/// The deployments that do not stream, in their order.
pub open spec fn synchronous(
    deployments: Seq<DeploymentModel>,
    readings: Seq<ReadingModel>,
) -> Seq<SynchronousModel>
    decreases deployments.len(),
{
    if deployments.len() == 0 {
        seq![]
    } else {
        let before = synchronous(deployments.drop_last(), readings);
        let last = deployments.last();
        if streams(last, readings) {
            before
        } else {
            before.push(
                SynchronousModel {
                    name: last.name,
                    policy: policy_of(last),
                    mode: deployment_mode(last, readings),
                },
            )
        }
    }
}

/// How many deployments an account has, and which of them do not stream.
#[derive(Debug, PartialEq, Eq)]
pub struct StreamingAssessment {
    pub deployment_count: usize,
    pub synchronous: Vec<SynchronousDeployment>,
}

/// The mathematical model of [`StreamingAssessment`].
pub struct AssessmentModel {
    pub deployment_count: nat,
    pub synchronous: Seq<SynchronousModel>,
}

impl DeepView for StreamingAssessment {
    type V = AssessmentModel;

    open spec fn deep_view(&self) -> AssessmentModel {
        AssessmentModel {
            deployment_count: self.deployment_count as nat,
            synchronous: self.synchronous.deep_view(),
        }
    }
}

/// The assessment of deployments, given the policies that were read.
pub open spec fn assessment_of(
    deployments: Seq<DeploymentModel>,
    readings: Seq<ReadingModel>,
) -> AssessmentModel {
    AssessmentModel {
        deployment_count: deployments.len(),
        synchronous: synchronous(deployments, readings),
    }
}

/// The policy that a deployment references.
fn referenced_policy(deployment: &Deployment) -> (res: Option<&String>)
    ensures
        res.deep_view() == policy_of(deployment.deep_view()),
{
    match &deployment.rai_policy_name {
        Some(name) => if trims_to_nothing(name.as_str()) {
            None
        } else {
            Some(name)
        },
        None => None,
    }
}

/// Whether `names` holds `name`.
fn holds_name(names: &Vec<String>, name: &str) -> (res: bool)
    ensures
        res == names.deep_view().contains(name@),
{
    let mut i: usize = 0;
    while i < names.len()
        invariant
            0 <= i <= names@.len(),
            forall|k: int| 0 <= k < i ==> #[trigger] names.deep_view()[k] != name@,
        decreases names@.len() - i,
    {
        if text_eq(names[i].as_str(), name) {
            assert(names.deep_view()[i as int] == name@);
            return true;
        }
        i = i + 1;
    }
    false
}

/// The policies that the deployments reference, each once, in the order of first reference.
pub fn referenced_policies(deployments: &DeploymentList) -> (res: Vec<String>)
    ensures
        res.deep_view() == policies_of(deployments.deep_view()),
{
    let ghost model = deployments.deep_view();
    let mut names: Vec<String> = Vec::new();
    let mut i: usize = 0;
    assert(names.deep_view() =~= policies_of(model.take(0)));
    while i < deployments.value.len()
        invariant
            0 <= i <= deployments.value@.len(),
            model == deployments.deep_view(),
            names.deep_view() == policies_of(model.take(i as int)),
        decreases deployments.value@.len() - i,
    {
        let ghost before = names.deep_view();
        proof {
            assert(model.take(i + 1).drop_last() =~= model.take(i as int));
            assert(model.take(i + 1).last() == deployments.value@[i as int].deep_view());
        }
        match referenced_policy(&deployments.value[i]) {
            Some(name) => if !holds_name(&names, name.as_str()) {
                names.push(name.clone());
                assert(names.deep_view() =~= before.push(name@));
            },
            None => {},
        }
        i = i + 1;
    }
    assert(model.take(i as int) =~= model);
    names
}

/// The mode that was first read of the policy `name`.
fn read_mode(readings: &Vec<PolicyReading>, name: &str) -> (res: Option<String>)
    ensures
        res.deep_view() == mode_of(readings.deep_view(), name@),
{
    let ghost model = readings.deep_view();
    let mut i: usize = 0;
    assert(model.skip(0) =~= model);
    while i < readings.len()
        invariant
            0 <= i <= readings@.len(),
            model == readings.deep_view(),
            mode_of(model.skip(i as int), name@) == mode_of(model, name@),
        decreases readings@.len() - i,
    {
        assert(model.skip(i as int)[0] == readings@[i as int].deep_view());
        assert(model.skip(i as int).drop_first() =~= model.skip(i + 1));
        if text_eq(readings[i].policy_name.as_str(), name) {
            return match &readings[i].mode {
                Some(mode) => Some(mode.clone()),
                None => None,
            };
        }
        i = i + 1;
    }
    None
}

/// Whether a mode is asynchronous.
fn async_mode(mode: &Option<String>) -> (res: bool)
    ensures
        res == is_async_mode(mode.deep_view()),
{
    match mode {
        Some(mode) => text_eq(mode.as_str(), "Asynchronous_filter") || text_eq(
            mode.as_str(),
            "Deferred",
        ),
        None => false,
    }
}

/// Assesses all deployments of an account, given the policies that were read.
pub fn assess_streaming_configuration(
    deployments: &DeploymentList,
    readings: &Vec<PolicyReading>,
) -> (res: StreamingAssessment)
    ensures
        res.deep_view() == assessment_of(deployments.deep_view(), readings.deep_view()),
        res.deployment_count == deployments.value@.len(),
{
    let ghost model = deployments.deep_view();
    let ghost read = readings.deep_view();
    let mut found: Vec<SynchronousDeployment> = Vec::new();
    let mut i: usize = 0;
    assert(found.deep_view() =~= synchronous(model.take(0), read));
    while i < deployments.value.len()
        invariant
            0 <= i <= deployments.value@.len(),
            model == deployments.deep_view(),
            read == readings.deep_view(),
            found.deep_view() == synchronous(model.take(i as int), read),
        decreases deployments.value@.len() - i,
    {
        let deployment = &deployments.value[i];
        let ghost before = found.deep_view();
        proof {
            assert(model.take(i + 1).drop_last() =~= model.take(i as int));
            assert(model.take(i + 1).last() == deployment.deep_view());
        }
        let policy: Option<String> = match referenced_policy(deployment) {
            Some(name) => Some(name.clone()),
            None => None,
        };
        let mode: Option<String> = match &policy {
            Some(name) => read_mode(readings, name.as_str()),
            None => None,
        };
        if !async_mode(&mode) {
            let name: Option<String> = match &deployment.name {
                Some(name) => Some(name.clone()),
                None => None,
            };
            let entry = SynchronousDeployment { name, policy, mode };
            let ghost entry_model = entry.deep_view();
            found.push(entry);
            assert(found.deep_view() =~= before.push(entry_model));
        }
        i = i + 1;
    }
    assert(model.take(i as int) =~= model);
    StreamingAssessment { deployment_count: deployments.value.len(), synchronous: found }
}

/// The assessment fails a verification: asynchronous filtering is required and some deployment
/// does not have it.
pub open spec fn is_refused(assessment: AssessmentModel, require_async_filter: bool) -> bool {
    require_async_filter && assessment.synchronous.len() > 0
}

/// The refusal of deployments that do not stream.
#[derive(Debug, PartialEq, Eq)]
pub struct StreamingError {
    pub synchronous: Vec<SynchronousDeployment>,
}

impl DeepView for StreamingError {
    type V = Seq<SynchronousModel>;

    open spec fn deep_view(&self) -> Seq<SynchronousModel> {
        self.synchronous.deep_view()
    }
}

/// Holds an assessment against the configured posture. Where asynchronous filtering is not
/// required, deployments without it pass and stay listed in the assessment.
pub fn require_streaming(
    assessment: StreamingAssessment,
    require_async_filter: bool,
) -> (res: Result<StreamingAssessment, StreamingError>)
    ensures
        match res {
            Ok(passed) => !is_refused(assessment.deep_view(), require_async_filter)
                && passed.deep_view() == assessment.deep_view(),
            Err(error) => is_refused(assessment.deep_view(), require_async_filter)
                && error.deep_view() == assessment.deep_view().synchronous,
        },
        res is Err <==> require_async_filter && assessment.synchronous@.len() > 0,
        res matches Ok(passed) ==> passed == assessment,
        res matches Err(error) ==> error.synchronous == assessment.synchronous,
{
    if require_async_filter && assessment.synchronous.len() > 0 {
        Err(StreamingError { synchronous: assessment.synchronous })
    } else {
        Ok(assessment)
    }
}

/// How a message names a deployment that does not stream.
pub open spec fn synchronous_text(deployment: SynchronousModel) -> Seq<char> {
    shown(deployment.name) + " (policy "@ + shown(deployment.policy) + ", mode "@ + shown(
        deployment.mode,
    ) + ")"@
}

/// The names of deployments that do not stream, each after a blank.
pub open spec fn synchronous_list(deployments: Seq<SynchronousModel>) -> Seq<char>
    decreases deployments.len(),
{
    if deployments.len() == 0 {
        seq![]
    } else {
        synchronous_list(deployments.drop_last()) + " "@ + synchronous_text(deployments.last())
    }
}

/// The message of a refusal.
pub open spec fn streaming_message(deployments: Seq<SynchronousModel>) -> Seq<char> {
    "Azure deployments must use asynchronous content filtering:"@ + synchronous_list(deployments)
}

impl SynchronousDeployment {
    /// How a message names the deployment.
    pub fn text(&self) -> (res: String)
        ensures
            res@ == synchronous_text(self.deep_view()),
    {
        let mut res = shown_text(&self.name);
        res.append(" (policy ");
        res.append(shown_text(&self.policy).as_str());
        res.append(", mode ");
        res.append(shown_text(&self.mode).as_str());
        res.append(")");
        res
    }
}

impl StreamingError {
    /// What is wrong, in words.
    pub fn message(&self) -> (res: String)
        ensures
            res@ == streaming_message(self.deep_view()),
    {
        let ghost model = self.deep_view();
        let mut list = String::new();
        let mut i: usize = 0;
        assert(model.take(0) =~= seq![]);
        while i < self.synchronous.len()
            invariant
                0 <= i <= self.synchronous@.len(),
                model == self.deep_view(),
                list@ == synchronous_list(model.take(i as int)),
            decreases self.synchronous@.len() - i,
        {
            proof {
                assert(model.take(i + 1).drop_last() =~= model.take(i as int));
                assert(model.take(i + 1).last() == self.synchronous@[i as int].deep_view());
            }
            list.append(" ");
            list.append(self.synchronous[i].text().as_str());
            i = i + 1;
        }
        assert(model.take(i as int) =~= model);
        joined(
            "Azure deployments must use asynchronous content filtering:",
            list.as_str(),
        )
    }
}

/// No deployment is listed exactly when every deployment streams.
pub proof fn none_synchronous_iff_all_stream(
    deployments: Seq<DeploymentModel>,
    readings: Seq<ReadingModel>,
)
    ensures
        synchronous(deployments, readings).len() == 0 <==> forall|i: int|
            0 <= i < deployments.len() ==> streams(#[trigger] deployments[i], readings),
    decreases deployments.len(),
{
    if deployments.len() > 0 {
        let front = deployments.drop_last();
        none_synchronous_iff_all_stream(front, readings);
        if synchronous(deployments, readings).len() == 0 {
            assert forall|i: int| 0 <= i < deployments.len() implies streams(
                #[trigger] deployments[i],
                readings,
            ) by {
                if i < front.len() {
                    assert(front[i] == deployments[i]);
                }
            }
        } else if streams(deployments.last(), readings) {
            let i = choose|i: int|
                0 <= i < front.len() && !streams(#[trigger] front[i], readings);
            assert(!streams(deployments[i], readings));
        } else {
            assert(!streams(deployments[deployments.len() - 1], readings));
        }
    }
}

/// An account without deployments passes, whatever the posture.
pub proof fn no_deployments_pass(readings: Seq<ReadingModel>, require_async_filter: bool)
    ensures
        !is_refused(assessment_of(seq![], readings), require_async_filter),
{
}

/// Under the default posture an account passes exactly when every one of its deployments
/// references a policy whose mode is `Asynchronous_filter` or `Deferred`.
pub proof fn default_posture_passes_iff_all_stream(
    deployments: Seq<DeploymentModel>,
    readings: Seq<ReadingModel>,
)
    ensures
        !is_refused(assessment_of(deployments, readings), true) <==> forall|i: int|
            0 <= i < deployments.len() ==> streams(#[trigger] deployments[i], readings),
{
    none_synchronous_iff_all_stream(deployments, readings);
}

/// A policy is read once, and the policies that are read are those that some deployment
/// references.
pub proof fn each_referenced_policy_once(deployments: Seq<DeploymentModel>)
    ensures
        policies_of(deployments).no_duplicates(),
        forall|i: int|
            0 <= i < deployments.len() && policy_of(#[trigger] deployments[i]) is Some
                ==> policies_of(deployments).contains(policy_of(deployments[i])->Some_0),
        forall|k: int|
            0 <= k < policies_of(deployments).len() ==> exists|i: int|
                0 <= i < deployments.len() && policy_of(#[trigger] deployments[i]) == Some(
                    #[trigger] policies_of(deployments)[k],
                ),
    decreases deployments.len(),
{
    if deployments.len() > 0 {
        let front = deployments.drop_last();
        let last = deployments.last();
        let before = policies_of(front);
        let names = policies_of(deployments);
        each_referenced_policy_once(front);
        assert forall|i: int|
            0 <= i < deployments.len() && policy_of(
                #[trigger] deployments[i],
            ) is Some implies names.contains(policy_of(deployments[i])->Some_0) by {
            let name = policy_of(deployments[i])->Some_0;
            if i < front.len() {
                assert(front[i] == deployments[i]);
                assert(before.contains(name));
                let k = choose|k: int| 0 <= k < before.len() && before[k] == name;
                assert(names[k] == name);
            } else if !before.contains(name) {
                assert(names[before.len() as int] == name);
            }
        }
        assert forall|k: int| 0 <= k < names.len() implies exists|i: int|
            0 <= i < deployments.len() && policy_of(#[trigger] deployments[i]) == Some(
                #[trigger] names[k],
            ) by {
            if k < before.len() {
                assert(names[k] == before[k]);
                let i = choose|i: int|
                    0 <= i < front.len() && policy_of(#[trigger] front[i]) == Some(before[k]);
                assert(deployments[i] == front[i]);
            } else {
                assert(policy_of(deployments[deployments.len() - 1]) == Some(names[k]));
            }
        }
    }
}

/// Where asynchronous filtering is waived, no assessment is refused, whatever deployments it lists;
/// where it is required, an assessment is refused exactly when it lists some.
pub proof fn refused_iff_required_and_listed(assessment: AssessmentModel)
    ensures
        !is_refused(assessment, false),
        is_refused(assessment, true) <==> assessment.synchronous.len() > 0,
{
}

/// A deployment references the policy that it names, unless the name is blank.
pub proof fn referenced_iff_named(deployment: DeploymentModel, name: Seq<char>)
    ensures
        policy_of(deployment) == Some(name) <==> deployment.rai_policy_name == Some(name) && trimmed(
            name,
        ).len() > 0,
        policy_of(deployment) is None <==> (deployment.rai_policy_name matches Some(given)
            ==> trimmed(given).len() == 0),
{
    lemma_trim_empty(name);
    if let Some(given) = deployment.rai_policy_name {
        lemma_trim_empty(given);
    }
}

/// The mode of a policy is that of the first reading of the policy, and none where there is no
/// reading of it.
pub proof fn mode_is_that_of_the_first_reading(readings: Seq<ReadingModel>, name: Seq<char>)
    ensures
        forall|k: int|
            0 <= k < readings.len() && (#[trigger] readings[k]).policy_name == name && (forall|j: int|
                0 <= j < k ==> (#[trigger] readings[j]).policy_name != name) ==> mode_of(
                readings,
                name,
            ) == readings[k].mode,
        (forall|k: int| 0 <= k < readings.len() ==> (#[trigger] readings[k]).policy_name != name)
            ==> mode_of(readings, name) is None,
    decreases readings.len(),
{
    if readings.len() > 0 {
        let rest = readings.drop_first();
        mode_is_that_of_the_first_reading(rest, name);
        assert forall|k: int|
            0 <= k < readings.len() && (#[trigger] readings[k]).policy_name == name && (forall|j: int|
                0 <= j < k ==> (#[trigger] readings[j]).policy_name != name) implies mode_of(
            readings,
            name,
        ) == readings[k].mode by {
            if k > 0 {
                assert(readings[0].policy_name != name);
                assert(rest[k - 1] == readings[k]);
                assert forall|j: int| 0 <= j < k - 1 implies (#[trigger] rest[j]).policy_name
                    != name by {
                    assert(rest[j] == readings[j + 1]);
                }
            }
        }
        if forall|k: int| 0 <= k < readings.len() ==> (#[trigger] readings[k]).policy_name != name {
            assert(readings[0].policy_name != name);
            assert forall|k: int| 0 <= k < rest.len() implies (#[trigger] rest[k]).policy_name
                != name by {
                assert(rest[k] == readings[k + 1]);
            }
        }
    }
}

/// A deployment streams exactly when it names a policy, not a blank one, whose mode, as first read,
/// is `Asynchronous_filter` or `Deferred`.
pub proof fn streams_iff_policy_is_asynchronous(
    deployment: DeploymentModel,
    readings: Seq<ReadingModel>,
)
    ensures
        streams(deployment, readings) <==> {
            &&& deployment.rai_policy_name matches Some(name)
            &&& trimmed(name).len() > 0
            &&& exists|k: int|
                0 <= k < readings.len() && {
                    &&& (#[trigger] readings[k]).policy_name == name
                    &&& forall|j: int| 0 <= j < k ==> (#[trigger] readings[j]).policy_name != name
                    &&& readings[k].mode == Some("Asynchronous_filter"@) || readings[k].mode == Some(
                        "Deferred"@,
                    )
                }
        },
{
    if let Some(name) = deployment.rai_policy_name {
        referenced_iff_named(deployment, name);
        mode_is_that_of_the_first_reading(readings, name);
        lemma_first_reading(readings, name);
    }
}

/// A policy with a mode has a first reading.
proof fn lemma_first_reading(readings: Seq<ReadingModel>, name: Seq<char>)
    ensures
        mode_of(readings, name) is Some ==> exists|k: int|
            0 <= k < readings.len() && {
                &&& (#[trigger] readings[k]).policy_name == name
                &&& forall|j: int| 0 <= j < k ==> (#[trigger] readings[j]).policy_name != name
                &&& readings[k].mode == mode_of(readings, name)
            },
    decreases readings.len(),
{
    if readings.len() > 0 && mode_of(readings, name) is Some {
        let rest = readings.drop_first();
        if readings[0].policy_name == name {
            assert(readings[0].mode == mode_of(readings, name));
        } else {
            lemma_first_reading(rest, name);
            let k = choose|k: int|
                0 <= k < rest.len() && {
                    &&& (#[trigger] rest[k]).policy_name == name
                    &&& forall|j: int| 0 <= j < k ==> (#[trigger] rest[j]).policy_name != name
                    &&& rest[k].mode == mode_of(rest, name)
                };
            assert(readings[k + 1] == rest[k]);
            assert forall|j: int| 0 <= j < k + 1 implies (#[trigger] readings[j]).policy_name
                != name by {
                if j > 0 {
                    assert(readings[j] == rest[j - 1]);
                }
            }
        }
    }
}

/// Deployments are assessed one by one: those listed of two lists, one after the other, are those
/// of the first and then those of the second.
pub proof fn deployments_are_assessed_one_by_one(
    a: Seq<DeploymentModel>,
    b: Seq<DeploymentModel>,
    readings: Seq<ReadingModel>,
)
    ensures
        synchronous(a + b, readings) == synchronous(a, readings) + synchronous(b, readings),
        assessment_of(a + b, readings).deployment_count == a.len() + b.len(),
        assessment_of(a + b, readings).synchronous == synchronous(a, readings) + synchronous(
            b,
            readings,
        ),
    decreases b.len(),
{
    if b.len() == 0 {
        assert(a + b =~= a);
        assert(synchronous(a, readings) + synchronous(b, readings) =~= synchronous(a, readings));
    } else {
        deployments_are_assessed_one_by_one(a, b.drop_last(), readings);
        assert((a + b).drop_last() =~= a + b.drop_last());
        assert((a + b).last() == b.last());
        assert(synchronous(a + b, readings) =~= synchronous(a, readings) + synchronous(
            b,
            readings,
        ));
    }
}

/// A single deployment is listed exactly when it does not stream, under its own name, with the
/// policy that it names, unless that is blank, and the mode that was first read of the policy.
pub proof fn single_deployment_is_listed_iff_it_does_not_stream(
    deployment: DeploymentModel,
    readings: Seq<ReadingModel>,
)
    ensures
        ({
            let listed = synchronous(seq![deployment], readings);
            let named = deployment.rai_policy_name is Some && trimmed(
                deployment.rai_policy_name->Some_0,
            ).len() > 0;
            let mode = mode_of(readings, deployment.rai_policy_name->Some_0);
            let asynchronous = named && (mode == Some("Asynchronous_filter"@) || mode == Some(
                "Deferred"@,
            ));
            &&& asynchronous ==> listed.len() == 0
            &&& !asynchronous ==> listed.len() == 1 && listed[0].name == deployment.name
            &&& !asynchronous && named ==> listed[0].policy == deployment.rai_policy_name
                && listed[0].mode == mode
            &&& !asynchronous && !named ==> listed[0].policy is None && listed[0].mode is None
        }),
{
    reveal_with_fuel(synchronous, 2);
    assert(seq![deployment].drop_last() =~= seq![]);
    assert(seq![deployment].last() == deployment);
    if let Some(name) = deployment.rai_policy_name {
        referenced_iff_named(deployment, name);
    }
}

/// The policies of more deployments begin with those of the first ones, so they come in the order
/// of first reference; and they are the names, not blank ones, that the deployments hold.
pub proof fn policies_come_in_the_order_of_first_reference(
    a: Seq<DeploymentModel>,
    b: Seq<DeploymentModel>,
)
    ensures
        policies_of(a).len() <= policies_of(a + b).len(),
        policies_of(a + b).take(policies_of(a).len() as int) == policies_of(a),
        policies_of(a).no_duplicates(),
        forall|name: Seq<char>| #[trigger]
            policies_of(a).contains(name) <==> trimmed(name).len() > 0 && exists|i: int|
                0 <= i < a.len() && (#[trigger] a[i]).rai_policy_name == Some(name),
    decreases b.len(),
{
    each_referenced_policy_once(a);
    assert forall|name: Seq<char>| #[trigger]
        policies_of(a).contains(name) <==> trimmed(name).len() > 0 && exists|i: int|
            0 <= i < a.len() && (#[trigger] a[i]).rai_policy_name == Some(name) by {
        if policies_of(a).contains(name) {
            let k = choose|k: int| 0 <= k < policies_of(a).len() && policies_of(a)[k] == name;
            let i = choose|i: int|
                0 <= i < a.len() && policy_of(#[trigger] a[i]) == Some(policies_of(a)[k]);
            referenced_iff_named(a[i], name);
        }
        if trimmed(name).len() > 0 && exists|i: int|
            0 <= i < a.len() && (#[trigger] a[i]).rai_policy_name == Some(name) {
            let i = choose|i: int|
                0 <= i < a.len() && (#[trigger] a[i]).rai_policy_name == Some(name);
            referenced_iff_named(a[i], name);
        }
    }
    if b.len() == 0 {
        assert(a + b =~= a);
        assert(policies_of(a).take(policies_of(a).len() as int) =~= policies_of(a));
    } else {
        policies_come_in_the_order_of_first_reference(a, b.drop_last());
        assert((a + b).drop_last() =~= a + b.drop_last());
        assert(policies_of(a + b).take(policies_of(a).len() as int) =~= policies_of(
            a + b.drop_last(),
        ).take(policies_of(a).len() as int));
    }
}

/// The message of a refusal names the refused deployments one by one, each with its name, policy
/// and mode, unchanged, or `<none>` for what is not there.
pub proof fn refusal_names_every_deployment(front: Seq<SynchronousModel>, last: SynchronousModel)
    ensures
        streaming_message(front.push(last)) == streaming_message(front) + " "@ + synchronous_text(
            last,
        ),
        streaming_message(seq![]) == "Azure deployments must use asynchronous content filtering:"@,
        synchronous_text(last) == (match last.name {
            Some(name) => name,
            None => "<none>"@,
        }) + " (policy "@ + (match last.policy {
            Some(policy) => policy,
            None => "<none>"@,
        }) + ", mode "@ + (match last.mode {
            Some(mode) => mode,
            None => "<none>"@,
        }) + ")"@,
{
    assert(front.push(last).drop_last() =~= front);
    assert(streaming_message(front.push(last)) =~= streaming_message(front) + " "@
        + synchronous_text(last));
    assert(streaming_message(seq![])
        =~= "Azure deployments must use asynchronous content filtering:"@);
}

} // verus!
