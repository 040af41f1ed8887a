use azure_verify::arm::{Deployment, DeploymentList};
use azure_verify::streaming::{
    assess_streaming_configuration, referenced_policies, require_streaming, PolicyReading,
    StreamingAssessment, SynchronousDeployment,
};

fn deployments(entries: &[(&str, Option<&str>)]) -> DeploymentList {
    DeploymentList {
        value: entries
            .iter()
            .map(|(name, policy)| Deployment {
                name: Some((*name).to_owned()),
                rai_policy_name: policy.map(|policy| policy.to_owned()),
            })
            .collect(),
    }
}

fn reading(name: &str, mode: Option<&str>) -> PolicyReading {
    PolicyReading {
        policy_name: name.to_owned(),
        mode: mode.map(|mode| mode.to_owned()),
    }
}

fn synchronous(name: &str, policy: Option<&str>, mode: Option<&str>) -> SynchronousDeployment {
    SynchronousDeployment {
        name: Some(name.to_owned()),
        policy: policy.map(|policy| policy.to_owned()),
        mode: mode.map(|mode| mode.to_owned()),
    }
}

#[test]
fn each_policy_is_read_once() {
    let list = deployments(&[
        ("a", Some("p")),
        ("b", Some("q")),
        ("c", None),
        ("d", Some("p")),
        ("e", Some(" ")),
        ("f", Some("P")),
    ]);
    assert_eq!(referenced_policies(&list), vec!["p", "q", "P"]);
    assert!(referenced_policies(&deployments(&[])).is_empty());
}

#[test]
fn asynchronous_modes_stream() {
    for mode in ["Asynchronous_filter", "Deferred"] {
        let assessment = assess_streaming_configuration(
            &deployments(&[("a", Some("p"))]),
            &vec![reading("p", Some(mode))],
        );
        assert_eq!(
            assessment,
            StreamingAssessment {
                deployment_count: 1,
                synchronous: vec![],
            }
        );
        assert!(require_streaming(assessment, true).is_ok());
    }
}

#[test]
fn other_modes_buffer() {
    let list = deployments(&[
        ("a", Some("blocking")),
        ("b", Some("default")),
        ("c", Some("absent")),
        ("d", None),
        ("e", Some("good")),
        ("f", Some("unread")),
        ("g", Some("case")),
    ]);
    let readings = vec![
        reading("blocking", Some("Blocking")),
        reading("default", Some("Default")),
        reading("absent", None),
        reading("good", Some("Deferred")),
        reading("case", Some("deferred")),
    ];
    let assessment = assess_streaming_configuration(&list, &readings);
    assert_eq!(assessment.deployment_count, 7);
    assert_eq!(
        assessment.synchronous,
        vec![
            synchronous("a", Some("blocking"), Some("Blocking")),
            synchronous("b", Some("default"), Some("Default")),
            synchronous("c", Some("absent"), None),
            synchronous("d", None, None),
            synchronous("f", Some("unread"), None),
            synchronous("g", Some("case"), Some("deferred")),
        ]
    );
    assert!(require_streaming(assessment, true).is_err());
}

#[test]
fn synchronous_deployments_pass_when_waived() {
    let assessment = assess_streaming_configuration(&deployments(&[("a", None)]), &vec![]);
    let passed = require_streaming(assessment, false).unwrap();
    assert_eq!(passed.synchronous, vec![synchronous("a", None, None)]);
    let err = require_streaming(passed, true).unwrap_err();
    assert_eq!(
        err.message(),
        "Azure deployments must use asynchronous content filtering: a (policy <none>, mode <none>)"
    );
}

#[test]
fn message_lists_every_deployment() {
    let assessment = assess_streaming_configuration(
        &deployments(&[("a", Some("p")), ("b", Some("p"))]),
        &vec![reading("p", Some("Blocking"))],
    );
    assert_eq!(
        require_streaming(assessment, true).unwrap_err().message(),
        "Azure deployments must use asynchronous content filtering: a (policy p, mode Blocking) b (policy p, mode Blocking)"
    );
}

#[test]
fn no_deployments_pass() {
    let assessment = assess_streaming_configuration(&deployments(&[]), &vec![]);
    assert_eq!(assessment.deployment_count, 0);
    assert!(require_streaming(assessment, true).is_ok());
}
