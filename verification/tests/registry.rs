use greengrass_nucleus::config::init;
use greengrass_nucleus::dependency::State;
use greengrass_nucleus::services::deployment::Deployments;
use greengrass_nucleus::services::kernel::Kernel;
use greengrass_nucleus::services::main::Main;
use greengrass_nucleus::services::policy::Policy;
use greengrass_nucleus::services::status::{
    deployment_status_changed, fss_data, health_topic, FleetStatusDetails, OverallStatus, Status,
};
use greengrass_nucleus::services::telemetry::Telemetry;
use greengrass_nucleus::services::{Service, ServiceRegistry, ServiceStatus};

fn record(name: &str, version: &str, arns: &[&str]) -> ServiceStatus {
    ServiceStatus {
        component_name: name.to_string(),
        version: version.to_string(),
        fleetconfig_arns: arns.iter().map(|a| a.to_string()).collect(),
        status_details: "{}".to_string(),
        is_root: true,
        status: State::Running,
    }
}

fn names(registry: &ServiceRegistry) -> Vec<String> {
    let mut names: Vec<String> = registry.list().into_iter().map(|(name, _)| name).collect();
    names.sort();
    names
}

#[test]
fn new_registry_is_empty() {
    assert!(ServiceRegistry::new().list().is_empty());
}

#[test]
fn service_enters_the_registry_under_its_name() {
    let mut registry = ServiceRegistry::new();
    Kernel::enable(&mut registry);
    let listing = registry.list();
    assert_eq!(listing.len(), 1);
    let (name, status) = &listing[0];
    assert_eq!(name, "aws.greengrass.Nucleus");
    assert_eq!(status.component_name, "aws.greengrass.Nucleus");
    assert_eq!(status.version, "2.5.6");
    assert!(status.fleetconfig_arns.is_empty());
    assert_eq!(status.status_details, "null");
    assert!(!status.is_root);
    assert_eq!(status.status, State::Finished);
}

#[test]
fn every_service_enters_the_registry() {
    let mut registry = ServiceRegistry::new();
    Kernel::enable(&mut registry);
    Main::enable(&mut registry);
    Policy::enable(&mut registry);
    Deployments::enable(&mut registry);
    Telemetry::enable(&mut registry);
    Status::enable(&mut registry);
    assert_eq!(
        names(&registry),
        vec![
            "DeploymentService",
            "FleetStatusService",
            "TelemetryAgent",
            "UpdateSystemPolicyService",
            "aws.greengrass.Nucleus",
            "main",
        ]
    );
    let versions: Vec<(String, String)> = {
        let mut v: Vec<(String, String)> =
            registry.list().into_iter().map(|(n, s)| (n, s.version)).collect();
        v.sort();
        v
    };
    assert_eq!(versions[0], ("DeploymentService".to_string(), "0.0.0".to_string()));
    assert_eq!(versions[1], ("FleetStatusService".to_string(), "".to_string()));
    assert_eq!(versions[5], ("main".to_string(), "".to_string()));
}

#[test]
fn service_that_enters_twice_is_listed_once() {
    let mut registry = ServiceRegistry::new();
    Policy::enable(&mut registry);
    Policy::enable(&mut registry);
    assert_eq!(names(&registry), vec!["UpdateSystemPolicyService"]);
}

#[test]
fn later_record_takes_the_place_of_the_earlier_one() {
    let mut registry = ServiceRegistry::new();
    registry.insert("a".to_string(), record("a", "1", &[]));
    registry.insert("b".to_string(), record("b", "1", &[]));
    registry.insert("a".to_string(), record("a", "2", &["arn:x"]));
    let mut listing = registry.list();
    listing.sort_by(|x, y| x.0.cmp(&y.0));
    assert_eq!(listing.len(), 2);
    assert_eq!(listing[0].1.version, "2");
    assert_eq!(listing[0].1.fleetconfig_arns, vec!["arn:x"]);
    assert_eq!(listing[1].0, "b");
}

#[test]
fn initial_record_of_a_service() {
    let status = <Main as Service>::new("n", "v");
    assert_eq!(status.component_name, "n");
    assert_eq!(status.version, "v");
    assert!(status.fleetconfig_arns.is_empty());
    assert_eq!(status.status_details, "null");
    assert!(!status.is_root);
    assert_eq!(status.status, State::Finished);
}

#[test]
fn record_is_copied_member_by_member() {
    let record_a = record("a", "1.2.3", &["arn:x", "arn:y"]);
    let copy = record_a.duplicate();
    assert_eq!(copy.component_name, "a");
    assert_eq!(copy.version, "1.2.3");
    assert_eq!(copy.fleetconfig_arns, vec!["arn:x", "arn:y"]);
    assert_eq!(copy.status_details, "{}");
    assert!(copy.is_root);
    assert_eq!(copy.status, State::Running);
}

#[test]
fn report_of_a_new_device() {
    let details = FleetStatusDetails::new("dev1");
    assert_eq!(details.ggc_version, "2.5.6");
    assert_eq!(details.platform, "linux");
    assert_eq!(details.architecture, "x86_64");
    assert_eq!(details.thing, "dev1");
    assert_eq!(details.overall_device_status, OverallStatus::Healthy);
    assert_eq!(details.sequence_number, 9);
    assert!(details.components.is_empty());
}

#[test]
fn report_lists_every_component_once() {
    let mut registry = ServiceRegistry::new();
    assert!(fss_data("dev1", &registry).components.is_empty());
    Kernel::enable(&mut registry);
    Main::enable(&mut registry);
    registry.insert("extra".to_string(), record("extra", "9", &["arn:x"]));
    let details = fss_data("dev1", &registry);
    assert_eq!(details.thing, "dev1");
    assert_eq!(details.ggc_version, "2.5.6");
    assert_eq!(details.sequence_number, 9);
    let mut components: Vec<(String, String)> =
        details.components.iter().map(|c| (c.component_name.clone(), c.version.clone())).collect();
    components.sort();
    assert_eq!(
        components,
        vec![
            ("aws.greengrass.Nucleus".to_string(), "2.5.6".to_string()),
            ("extra".to_string(), "9".to_string()),
            ("main".to_string(), "".to_string()),
        ]
    );
    let extra = details.components.iter().find(|c| c.component_name == "extra").unwrap();
    assert_eq!(extra.fleetconfig_arns, vec!["arn:x"]);
    assert_eq!(extra.status, State::Running);
}

#[test]
fn report_is_always_due() {
    assert!(deployment_status_changed("dev1"));
    assert!(deployment_status_changed(""));
}

#[test]
fn health_topic_of_a_thing() {
    assert_eq!(health_topic("dev1"), "$aws/things/dev1/greengrassv2/health/json");
}

#[test]
fn configuration_file_is_the_named_one_or_the_default() {
    assert_eq!(init(&None), "config/config.yaml");
    assert_eq!(init(&Some("/etc/nucleus.yaml".to_string())), "/etc/nucleus.yaml");
    assert_eq!(init(&Some(String::new())), "");
}
