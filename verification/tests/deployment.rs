use greengrass_nucleus::arn::{parse, ParseError};
use greengrass_nucleus::json::{ComponentEntry, FleetConfigDocument};
use greengrass_nucleus::mqtt::QualityOfService;
use greengrass_nucleus::services::deployment::{
    acknowledge, assemble_payload, assemble_publish_content, build_message, components_to_fetch,
    inbound_topic, process, shadow_deployment, DeployStates, DeploymentError,
    DeploymentState, DeploymentStatus, Route, DEPLOYMENT_SHADOW_NAME,
};
use greengrass_nucleus::services::resolver::{
    component_deploy, ComponentFetch, FetchAction, FetchError, FetchEvent,
};
use greengrass_nucleus::topic::TopicError;

const ARN: &str = "arn:aws:greengrass:us-east-1:1234:configuration:thing/dev1:3";

const DELTA: &str = r#"{"version":7,"state":{"fleetConfig":"{\"configurationArn\":\"arn:aws:greengrass:us-east-1:1234:configuration:thing/dev1:3\"}"}}"#;

const DELTA_WITH_COMPONENTS: &str = r#"{"version":8,"state":{"fleetConfig":"{\"configurationArn\":\"arn:aws:greengrass:us-east-1:1234:configuration:thing/dev1:3\",\"components\":{\"com.example.Hello\":{\"version\":\"1.0.0\"},\"aws.greengrass.Cli\":{\"version\":\"2.5.6\",\"configurationUpdate\":{}}}}"}}"#;

fn config(arn: Option<&str>, components: Option<Vec<(&str, Option<&str>)>>) -> FleetConfigDocument {
    FleetConfigDocument {
        configuration_arn: arn.map(String::from),
        components: components.map(|entries| {
            Some(
                entries
                    .into_iter()
                    .map(|(name, version)| ComponentEntry {
                        name: name.to_string(),
                        version: version.map(String::from),
                    })
                    .collect(),
            )
        }),
    }
}

fn reported(payload: &str) -> serde_json::Value {
    let v: serde_json::Value = serde_json::from_str(payload).unwrap();
    v["state"]["reported"].clone()
}

#[test]
fn it_works() {
    let result = 2 + 2;
    assert_eq!(result, 4);
}

#[test]
fn received_delta_is_acknowledged_in_progress() {
    let mut states = DeployStates::new();
    let step = shadow_deployment(&mut states, DELTA.as_bytes()).unwrap();
    let publish = step.publish.unwrap();
    assert_eq!(
        publish.topic,
        "$aws/things/dev1/shadow/name/AWSManagedGreengrassV2Deployment/update"
    );
    assert_eq!(publish.qos, QualityOfService::AtMostOnce);
    assert!(!publish.retain);
    let v: serde_json::Value = serde_json::from_str(&publish.payload).unwrap();
    assert_eq!(v["state"]["reported"]["status"], "IN_PROGRESS");
    assert_eq!(v["thingName"], "dev1");
    assert_eq!(v["state"]["reported"]["fleetConfigurationArnForStatus"], ARN);
    assert_eq!(v["shadowName"], "AWSManagedGreengrassV2Deployment");
    assert_eq!(v["version"], 7);
    assert!(step.fetch.is_empty());
    assert_eq!(states.get(), DeploymentState::InProgress);
}

#[test]
fn delta_after_success_is_absorbed() {
    let mut states = DeployStates::new();
    shadow_deployment(&mut states, DELTA.as_bytes()).unwrap();
    shadow_deployment(&mut states, DELTA.as_bytes()).unwrap();
    assert_eq!(states.get(), DeploymentState::Succeeded);
    let step = shadow_deployment(&mut states, DELTA.as_bytes()).unwrap();
    assert!(step.publish.is_none());
    assert!(step.fetch.is_empty());
    assert_eq!(states.get(), DeploymentState::Received);
}

#[test]
fn delta_after_success_is_absorbed_without_a_look_at_its_configuration() {
    let mut states = DeployStates::new();
    states.next();
    states.next();
    let step = shadow_deployment(&mut states, br#"{"version":"x","state":{}}"#).unwrap();
    assert!(step.publish.is_none());
    assert_eq!(states.get(), DeploymentState::Received);
}

#[test]
fn fetch_failure_does_not_hold_the_acknowledgment_up() {
    let mut states = DeployStates::new();
    states.next();
    let step = shadow_deployment(&mut states, DELTA_WITH_COMPONENTS.as_bytes()).unwrap();
    assert_eq!(states.get(), DeploymentState::Succeeded);
    let publish = step.publish.unwrap();
    let r = reported(&publish.payload);
    assert_eq!(r["status"], "SUCCEEDED");
    assert_eq!(r["statusDetails"]["detailedStatus"], "SUCCESSFUL");
    assert_eq!(step.fetch.len(), 2);
    let mut fetch = ComponentFetch::new(step.fetch[0].clone());
    assert!(matches!(
        component_deploy(&mut fetch, FetchEvent::Begin),
        FetchAction::ListComponents
    ));
    match component_deploy(&mut fetch, FetchEvent::Components(vec![])) {
        FetchAction::Finished { outcome } => {
            assert_eq!(outcome.unwrap_err(), FetchError::ComponentNotFound)
        }
        other => panic!("unexpected action {:?}", other),
    }
    assert_eq!(states.get(), DeploymentState::Succeeded);
}

#[test]
fn every_component_of_the_configuration_is_fetched() {
    let mut states = DeployStates::new();
    states.next();
    let step = shadow_deployment(&mut states, DELTA_WITH_COMPONENTS.as_bytes()).unwrap();
    let mut fetch: Vec<(String, String)> =
        step.fetch.iter().map(|c| (c.name.clone(), c.version.clone())).collect();
    fetch.sort();
    assert_eq!(
        fetch,
        vec![
            ("aws.greengrass.Cli".to_string(), "2.5.6".to_string()),
            ("com.example.Hello".to_string(), "1.0.0".to_string()),
        ]
    );
}

#[test]
fn received_delta_plans_no_fetch() {
    let mut states = DeployStates::new();
    let step = shadow_deployment(&mut states, DELTA_WITH_COMPONENTS.as_bytes()).unwrap();
    assert!(step.fetch.is_empty());
    assert_eq!(reported(&step.publish.unwrap().payload)["status"], "IN_PROGRESS");
}

#[test]
fn states_are_visited_in_round_robin_order() {
    let mut states = DeployStates::new();
    let expected = [
        DeploymentState::InProgress,
        DeploymentState::Succeeded,
        DeploymentState::Received,
    ];
    for n in 0..9 {
        let payload = if n % 2 == 0 { DELTA } else { DELTA_WITH_COMPONENTS };
        shadow_deployment(&mut states, payload.as_bytes()).unwrap();
        assert_eq!(states.get(), expected[n % 3]);
    }
}

#[test]
fn cursor_starts_at_received_and_can_be_reset() {
    let mut states = DeployStates::new();
    assert_eq!(states.get(), DeploymentState::Received);
    states.next();
    assert_eq!(states.get(), DeploymentState::InProgress);
    states.next();
    assert_eq!(states.get(), DeploymentState::Succeeded);
    states.reset();
    assert_eq!(states.get(), DeploymentState::Received);
    states.next();
    states.next();
    states.next();
    assert_eq!(states.get(), DeploymentState::Received);
}

#[test]
fn payload_that_is_no_json_is_dropped() {
    let mut states = DeployStates::new();
    let r = shadow_deployment(&mut states, b"not json");
    assert_eq!(r.unwrap_err(), DeploymentError::InvalidDelta);
    assert_eq!(states.get(), DeploymentState::Received);
    states.next();
    states.next();
    let r = shadow_deployment(&mut states, b"{");
    assert_eq!(r.unwrap_err(), DeploymentError::InvalidDelta);
    assert_eq!(states.get(), DeploymentState::Succeeded);
}

#[test]
fn delta_without_fleet_config_is_dropped() {
    let mut states = DeployStates::new();
    let r = shadow_deployment(&mut states, br#"{"version":7,"state":{}}"#);
    assert_eq!(r.unwrap_err(), DeploymentError::MissingFleetConfig);
    let r = shadow_deployment(&mut states, br#"{"version":7,"state":{"fleetConfig":3}}"#);
    assert_eq!(r.unwrap_err(), DeploymentError::MissingFleetConfig);
    assert_eq!(states.get(), DeploymentState::Received);
}

#[test]
fn fleet_config_that_is_no_json_is_dropped() {
    let mut states = DeployStates::new();
    let r = shadow_deployment(&mut states, br#"{"version":7,"state":{"fleetConfig":"{oops"}}"#);
    assert_eq!(r.unwrap_err(), DeploymentError::InvalidFleetConfig);
    assert_eq!(states.get(), DeploymentState::Received);
}

#[test]
fn fleet_config_without_arn_is_dropped() {
    let mut states = DeployStates::new();
    let r = shadow_deployment(&mut states, br#"{"version":7,"state":{"fleetConfig":"{}"}}"#);
    assert_eq!(r.unwrap_err(), DeploymentError::MissingConfigurationArn);
    assert_eq!(states.get(), DeploymentState::Received);
}

#[test]
fn malformed_arn_is_dropped() {
    let mut states = DeployStates::new();
    let payload = br#"{"version":7,"state":{"fleetConfig":"{\"configurationArn\":\"thing/dev1\"}"}}"#;
    let r = shadow_deployment(&mut states, payload);
    assert_eq!(r.unwrap_err(), DeploymentError::Parse(ParseError::MissingVersion));
    let payload = br#"{"version":7,"state":{"fleetConfig":"{\"configurationArn\":\"dev1:3\"}"}}"#;
    let r = shadow_deployment(&mut states, payload);
    assert_eq!(r.unwrap_err(), DeploymentError::Parse(ParseError::MissingThingSegment));
    assert_eq!(states.get(), DeploymentState::Received);
}

#[test]
fn thing_name_that_no_topic_takes_is_dropped() {
    let mut states = DeployStates::new();
    let payload =
        br#"{"version":7,"state":{"fleetConfig":"{\"configurationArn\":\"arn:thing/dev 1:3\"}"}}"#;
    let r = shadow_deployment(&mut states, payload);
    assert_eq!(r.unwrap_err(), DeploymentError::Topic(TopicError::InvalidThingName));
    assert_eq!(states.get(), DeploymentState::Received);
}

#[test]
fn shadow_version_that_is_no_number_is_dropped() {
    let mut states = DeployStates::new();
    for version in ["\"7\"", "7.5", "-1", "18446744073709551616", "null", "true", "[7]"] {
        let payload = format!(
            r#"{{"version":{},"state":{{"fleetConfig":"{{\"configurationArn\":\"arn:thing/dev1:3\"}}"}}}}"#,
            version
        );
        let r = shadow_deployment(&mut states, payload.as_bytes());
        assert_eq!(r.unwrap_err(), DeploymentError::Parse(ParseError::InvalidShadowVersion));
    }
    let r = shadow_deployment(&mut states, br#"{"state":{"fleetConfig":"{\"configurationArn\":\"arn:thing/dev1:3\"}"}}"#);
    assert_eq!(r.unwrap_err(), DeploymentError::Parse(ParseError::InvalidShadowVersion));
    assert_eq!(states.get(), DeploymentState::Received);
}

#[test]
fn largest_shadow_version_is_acknowledged() {
    let mut states = DeployStates::new();
    let payload = br#"{"version":18446744073709551615,"state":{"fleetConfig":"{\"configurationArn\":\"arn:thing/dev1:3\"}"}}"#;
    let step = shadow_deployment(&mut states, payload).unwrap();
    let v: serde_json::Value = serde_json::from_str(&step.publish.unwrap().payload).unwrap();
    assert_eq!(v["version"], u64::MAX);
    let payload = br#"{"version":256,"state":{"fleetConfig":"{\"configurationArn\":\"arn:thing/dev1:3\"}"}}"#;
    let step = shadow_deployment(&mut states, payload).unwrap();
    let v: serde_json::Value = serde_json::from_str(&step.publish.unwrap().payload).unwrap();
    assert_eq!(v["version"], 256);
}

#[test]
fn component_without_version_is_dropped() {
    let mut states = DeployStates::new();
    states.next();
    let payload = br#"{"version":7,"state":{"fleetConfig":"{\"configurationArn\":\"arn:thing/dev1:3\",\"components\":{\"a\":{\"version\":\"1\"},\"b\":{}}}"}}"#;
    let r = shadow_deployment(&mut states, payload);
    assert_eq!(r.unwrap_err(), DeploymentError::MissingComponentVersion);
    assert_eq!(states.get(), DeploymentState::InProgress);
}

#[test]
fn components_to_fetch_lists_every_entry() {
    let c = config(Some(ARN), Some(vec![("a", Some("\"1.0.0\"")), ("b", Some("2"))]));
    let fetch = components_to_fetch(&c).unwrap();
    assert_eq!(fetch.len(), 2);
    assert_eq!((fetch[0].name.as_str(), fetch[0].version.as_str()), ("a", "1.0.0"));
    assert_eq!((fetch[1].name.as_str(), fetch[1].version.as_str()), ("b", "2"));
    assert!(components_to_fetch(&config(Some(ARN), None)).unwrap().is_empty());
    assert!(components_to_fetch(&config(Some(ARN), Some(vec![]))).unwrap().is_empty());
    let c = config(Some(ARN), Some(vec![("a", Some("1")), ("b", None)]));
    assert_eq!(components_to_fetch(&c).unwrap_err(), DeploymentError::MissingComponentVersion);
    let c = FleetConfigDocument { configuration_arn: Some(ARN.to_string()), components: Some(None) };
    assert_eq!(components_to_fetch(&c).unwrap_err(), DeploymentError::InvalidComponents);
}

#[test]
fn components_that_are_no_object_are_rejected() {
    for components in ["[1,2]", "null", "\\\"a\\\"", "7", "true"] {
        let mut states = DeployStates::new();
        states.next();
        let payload = format!(
            r#"{{"version":7,"state":{{"fleetConfig":"{{\"configurationArn\":\"arn:thing/dev1:3\",\"components\":{}}}"}}}}"#,
            components
        );
        let r = shadow_deployment(&mut states, payload.as_bytes());
        assert_eq!(r.unwrap_err(), DeploymentError::InvalidComponents, "{}", components);
        assert_eq!(states.get(), DeploymentState::InProgress);
    }
}

#[test]
fn components_are_not_looked_at_when_a_delta_is_received() {
    let mut states = DeployStates::new();
    let payload = br#"{"version":7,"state":{"fleetConfig":"{\"configurationArn\":\"arn:thing/dev1:3\",\"components\":[1,2]}"}}"#;
    let step = shadow_deployment(&mut states, payload).unwrap();
    assert!(step.fetch.is_empty());
    assert_eq!(states.get(), DeploymentState::InProgress);
}

#[test]
fn configuration_without_components_plans_no_fetch() {
    let mut states = DeployStates::new();
    states.next();
    let step = shadow_deployment(&mut states, DELTA.as_bytes()).unwrap();
    assert!(step.fetch.is_empty());
    assert!(step.publish.is_some());
    assert_eq!(states.get(), DeploymentState::Succeeded);
    let payload = br#"{"version":7,"state":{"fleetConfig":"{\"configurationArn\":\"arn:thing/dev1:3\",\"components\":{}}"}}"#;
    states.reset();
    states.next();
    let step = shadow_deployment(&mut states, payload).unwrap();
    assert!(step.fetch.is_empty());
}

#[test]
fn acknowledge_follows_the_state() {
    let c = config(Some(ARN), Some(vec![("a", Some("\"1\""))]));
    let step = acknowledge(DeploymentState::Received, "7", &c).unwrap();
    assert!(step.fetch.is_empty());
    assert_eq!(reported(&step.publish.unwrap().payload)["status"], "IN_PROGRESS");
    let step = acknowledge(DeploymentState::InProgress, "7", &c).unwrap();
    assert_eq!(step.fetch.len(), 1);
    assert_eq!(reported(&step.publish.unwrap().payload)["status"], "SUCCEEDED");
    let step = acknowledge(DeploymentState::Succeeded, "junk", &config(None, None)).unwrap();
    assert!(step.publish.is_none() && step.fetch.is_empty());
    let broken = config(Some(ARN), Some(vec![("a", None)]));
    assert!(acknowledge(DeploymentState::Received, "7", &broken).is_ok());
    assert_eq!(
        acknowledge(DeploymentState::InProgress, "7", &broken).unwrap_err(),
        DeploymentError::MissingComponentVersion
    );
}

#[test]
fn assemble_publish_content_addresses_the_thing_of_the_arn() {
    let c = config(Some("arn:aws:greengrass:eu-west-1:99:configuration:thing/pump-7:12"), None);
    let p = assemble_publish_content(DeploymentState::Received, "3", &c).unwrap().unwrap();
    assert_eq!(
        p.topic,
        "$aws/things/pump-7/shadow/name/AWSManagedGreengrassV2Deployment/update"
    );
    let v: serde_json::Value = serde_json::from_str(&p.payload).unwrap();
    assert_eq!(v["thingName"], "pump-7");
    assert!(assemble_publish_content(DeploymentState::Succeeded, "3", &c).unwrap().is_none());
    assert_eq!(
        assemble_publish_content(DeploymentState::Received, "3", &config(None, None)).unwrap_err(),
        DeploymentError::MissingConfigurationArn
    );
    assert_eq!(
        assemble_publish_content(DeploymentState::Received, "x", &c).unwrap_err(),
        DeploymentError::Parse(ParseError::InvalidShadowVersion)
    );
    let long = format!("arn:thing/{}:1", "a".repeat(127));
    assert!(assemble_publish_content(DeploymentState::Received, "3", &config(Some(&long), None))
        .is_ok());
    let too_long = format!("arn:thing/{}:1", "a".repeat(128));
    assert_eq!(
        assemble_publish_content(DeploymentState::Received, "3", &config(Some(&too_long), None))
            .unwrap_err(),
        DeploymentError::Topic(TopicError::InvalidThingName)
    );
}

#[test]
fn assemble_payload_follows_the_state() {
    let arn = parse(ARN).unwrap();
    let m = assemble_payload(DeploymentState::Received, &arn, "7").unwrap().unwrap();
    assert_eq!(m.status, DeploymentStatus::InProgress);
    assert_eq!(m.detailed_status, None);
    assert_eq!(m.version, 7);
    let m = assemble_payload(DeploymentState::InProgress, &arn, "007").unwrap().unwrap();
    assert_eq!(m.status, DeploymentStatus::Succeeded);
    assert_eq!(m.detailed_status.as_deref(), Some("SUCCESSFUL"));
    assert_eq!(m.version, 7);
    assert!(assemble_payload(DeploymentState::Succeeded, &arn, "7").unwrap().is_none());
    for bad in ["", "+7", " 7", "7 ", "7.0", "1e2", "0x10", "18446744073709551616"] {
        assert_eq!(
            assemble_payload(DeploymentState::Received, &arn, bad).unwrap_err(),
            ParseError::InvalidShadowVersion
        );
        assert_eq!(
            assemble_payload(DeploymentState::Succeeded, &arn, bad).unwrap_err(),
            ParseError::InvalidShadowVersion
        );
    }
}

#[test]
fn build_message_fills_every_member() {
    let arn = parse(ARN).unwrap();
    let m = build_message(&arn, 7, DeploymentStatus::InProgress);
    assert_eq!(m.shadow_name, DEPLOYMENT_SHADOW_NAME);
    assert_eq!(m.thing_name, "dev1");
    assert_eq!(m.ggc_version, "2.5.6");
    assert_eq!(m.fleet_configuration_arn_for_status, ARN);
    assert_eq!(m.detailed_status, None);
    assert_eq!(m.status, DeploymentStatus::InProgress);
    assert_eq!(m.version, 7);
    assert_eq!(build_message(&arn, 0, DeploymentStatus::Canceled).detailed_status, None);
    assert_eq!(
        build_message(&arn, 0, DeploymentStatus::Succeeded).detailed_status.as_deref(),
        Some("SUCCESSFUL")
    );
}

#[test]
fn update_is_written_as_json_member_by_member() {
    let arn = parse(ARN).unwrap();
    assert_eq!(
        build_message(&arn, 7, DeploymentStatus::InProgress).to_json(),
        r#"{"shadowName":"AWSManagedGreengrassV2Deployment","thingName":"dev1","state":{"reported":{"ggcVersion":"2.5.6","fleetConfigurationArnForStatus":"arn:aws:greengrass:us-east-1:1234:configuration:thing/dev1:3","statusDetails":{},"status":"IN_PROGRESS"}},"version":7}"#
    );
    assert_eq!(
        build_message(&arn, 1234567890123, DeploymentStatus::Succeeded).to_json(),
        r#"{"shadowName":"AWSManagedGreengrassV2Deployment","thingName":"dev1","state":{"reported":{"ggcVersion":"2.5.6","fleetConfigurationArnForStatus":"arn:aws:greengrass:us-east-1:1234:configuration:thing/dev1:3","statusDetails":{"detailedStatus":"SUCCESSFUL"},"status":"SUCCEEDED"}},"version":1234567890123}"#
    );
    let v: serde_json::Value =
        serde_json::from_str(&build_message(&arn, 1, DeploymentStatus::Canceled).to_json())
            .unwrap();
    assert_eq!(v["state"]["reported"]["status"], "CANCELED");
}

#[test]
fn strings_of_an_update_are_escaped() {
    let arn = parse("arn:\"quoted\\path\"\n/a \"b\":3").unwrap();
    assert_eq!(arn.thing_name, "a \"b\"");
    let text = build_message(&arn, 1, DeploymentStatus::InProgress).to_json();
    assert!(text.contains(r#""thingName":"a \"b\"""#));
    let v: serde_json::Value = serde_json::from_str(&text).unwrap();
    assert_eq!(v["thingName"], "a \"b\"");
    assert_eq!(
        v["state"]["reported"]["fleetConfigurationArnForStatus"],
        "arn:\"quoted\\path\"\n/a \"b\":3"
    );
}

#[test]
fn status_words() {
    assert_eq!(DeploymentStatus::InProgress.as_str(), "IN_PROGRESS");
    assert_eq!(DeploymentStatus::Succeeded.as_str(), "SUCCEEDED");
    assert_eq!(DeploymentStatus::Canceled.as_str(), "CANCELED");
}

#[test]
fn deltas_of_the_deployment_shadow_are_subscribed() {
    assert_eq!(
        inbound_topic("dev1").unwrap(),
        "$aws/things/dev1/shadow/name/AWSManagedGreengrassV2Deployment/update/delta"
    );
    let longest = "a".repeat(127);
    assert_eq!(
        inbound_topic(&longest).unwrap(),
        format!(
            "$aws/things/{}/shadow/name/AWSManagedGreengrassV2Deployment/update/delta",
            longest
        )
    );
}

#[test]
fn no_topic_is_subscribed_for_a_name_that_is_no_thing_name() {
    for name in ["", "dev 1", "a/b", "#", "+", &"a".repeat(128)] {
        assert_eq!(inbound_topic(name).unwrap_err(), TopicError::InvalidThingName, "{:?}", name);
    }
}

#[test]
fn what_is_subscribed_is_routed_to_the_deployment_service() {
    for name in ["dev1", "pump-7", "a:b_c"] {
        assert_eq!(process(&inbound_topic(name).unwrap()), Route::Deployment);
    }
}

#[test]
fn deltas_of_named_shadows_are_routed_to_the_deployment_service() {
    assert_eq!(
        process("$aws/things/dev1/shadow/name/AWSManagedGreengrassV2Deployment/update/delta"),
        Route::Deployment
    );
    assert_eq!(process("$aws/things/dev1/shadow/name/other/update/delta"), Route::Deployment);
    for topic in [
        "$aws/things/dev1/shadow/name/AWSManagedGreengrassV2Deployment/update",
        "$aws/things/dev1/shadow/name/AWSManagedGreengrassV2Deployment/update/accepted",
        "$aws/things/dev1/shadow/name/AWSManagedGreengrassV2Deployment/bogus",
        "$aws/things/dev1/shadow/update/delta",
        "$aws/things/dev1/shadow/tag/common/update/delta",
        "$aws/things/dev1/jobs/notify",
        "$aws/things/dev 1/shadow/name/common/update/delta",
        "hello/world",
        "",
    ] {
        assert_eq!(process(topic), Route::Ignore, "{}", topic);
    }
}
