//! The fleet status service.
//!
//! It reports the status of the components on the device to the cloud:
//! after deployments, when a component breaks, and once in every period.
//! Here the report is put together; the caller serialises and sends it.
use vstd::prelude::*;
use crate::dependency::State;
use crate::services::kernel;
use crate::services::{
    listing_views, lists, Service, ServiceRegistry, ServiceStatus, ServiceStatusView,
};

verus! {

/// Version under which the fleet status service is registered.
pub const VERSION: &'static str = "";

/// Name under which the fleet status service is registered.
pub const NAME: &'static str = "FleetStatusService";

/// Seconds between two periodic reports: one day.
pub const DEFAULT_PERIODIC_PUBLISH_INTERVAL_SEC: usize = 86_400;

/// The largest payload that the broker takes, in bytes.
pub const MAX_PAYLOAD_LENGTH_BYTES: usize = 128_000;

/// The sequence number that a report carries.
pub const SEQUENCE_NUMBER: usize = 9;

/// The fleet status service.
pub struct Status {}

impl Service for Status {
    open spec fn service_name() -> Seq<char> {
        NAME@
    }

    open spec fn service_version() -> Seq<char> {
        VERSION@
    }

    fn enable(registry: &mut ServiceRegistry) {
        registry.insert(NAME.to_owned(), Self::new(NAME, VERSION));
    }
}

/// Whether the device as a whole is well.
#[derive(Clone, Copy, Debug, PartialEq, Eq, Structural)]
pub enum OverallStatus {
    Healthy,
    Unhealthy,
}

/// The report on the device and its components.
#[derive(Clone, Debug)]
pub struct FleetStatusDetails {
    pub ggc_version: String,
    pub platform: String,
    pub architecture: String,
    /// Name of the thing that reports.
    pub thing: String,
    pub overall_device_status: OverallStatus,
    pub sequence_number: usize,
    pub components: Vec<ServiceStatus>,
}

/// The mathematical content of a `FleetStatusDetails`.
pub ghost struct FleetStatusDetailsView {
    pub ggc_version: Seq<char>,
    pub platform: Seq<char>,
    pub architecture: Seq<char>,
    pub thing: Seq<char>,
    pub overall_device_status: OverallStatus,
    pub sequence_number: usize,
    pub components: Seq<ServiceStatusView>,
}

impl View for FleetStatusDetails {
    type V = FleetStatusDetailsView;

    open spec fn view(&self) -> FleetStatusDetailsView {
        FleetStatusDetailsView {
            ggc_version: self.ggc_version@,
            platform: self.platform@,
            architecture: self.architecture@,
            thing: self.thing@,
            overall_device_status: self.overall_device_status,
            sequence_number: self.sequence_number,
            components: self.components@.map_values(|c: ServiceStatus| c@),
        }
    }
}

/// The report of the thing `name` on the components `components`.
pub open spec fn report_of(
    name: Seq<char>,
    components: Seq<ServiceStatusView>,
) -> FleetStatusDetailsView {
    FleetStatusDetailsView {
        ggc_version: kernel::VERSION@,
        platform: "linux"@,
        architecture: "x86_64"@,
        thing: name,
        overall_device_status: OverallStatus::Healthy,
        sequence_number: SEQUENCE_NUMBER,
        components,
    }
}

impl FleetStatusDetails {
    /// The report of a healthy device that has no component yet.
    pub fn new(name: &str) -> (details: FleetStatusDetails)
        ensures
            details@ == report_of(name@, Seq::empty()),
    {
        let details = FleetStatusDetails {
            ggc_version: kernel::VERSION.to_owned(),
            platform: "linux".to_owned(),
            architecture: "x86_64".to_owned(),
            thing: name.to_owned(),
            overall_device_status: OverallStatus::Healthy,
            sequence_number: SEQUENCE_NUMBER,
            components: Vec::new(),
        };
        assert(details@.components =~= Seq::empty());
        details
    }
}

/// The details of a status.
#[derive(Clone, Debug)]
pub struct StatusDetails {
    pub detailed_status: String,
    pub failure_cause: String,
}

/// The outcome of a deployment, as a report carries it.
#[derive(Clone, Debug)]
pub struct DeploymentInformation {
    pub status: String,
    pub status_details: StatusDetails,
    pub fleet_configuration_arn_for_status: String,
}

/// The status of one component, as a report carries it.
#[derive(Clone, Debug)]
pub struct ComponentStatusDetails {
    pub component_name: String,
    pub version: String,
    pub fleetconfig_arns: Vec<String>,
    pub status_details: String,
    pub is_root: bool,
    pub status: State,
}

/// What the fleet status service knows of itself.
#[derive(Clone, Debug)]
pub struct FleetStatusService {
    pub update_topic: String,
    pub thing_name: String,
    pub architecture: String,
    pub platform: String,
}

/// The records of a listing, without their keys.
pub open spec fn records_of(
    listing: Seq<(Seq<char>, ServiceStatusView)>,
) -> Seq<ServiceStatusView> {
    listing.map_values(|entry: (Seq<char>, ServiceStatusView)| entry.1)
}

/// Puts the report of the thing `name` together: the record of every
/// component in the registry, once, in no particular order.
pub fn fss_data(name: &str, registry: &ServiceRegistry) -> (details: FleetStatusDetails)
    ensures
        exists|listing: Seq<(Seq<char>, ServiceStatusView)>|
            lists(listing, registry@) && details@ == #[trigger] report_of(
                name@,
                records_of(listing),
            ),
{
    let mut payload = FleetStatusDetails::new(name);
    let listing = registry.list();
    let ghost views = listing_views(listing@);
    assert(records_of(views.subrange(0, 0)) =~= Seq::empty());
    let mut i: usize = 0;
    while i < listing.len()
        invariant
            i <= listing@.len(),
            views == listing_views(listing@),
            payload@ == report_of(name@, records_of(views.subrange(0, i as int))),
        decreases listing@.len() - i,
    {
        let ghost before = payload@.components;
        payload.components.push(listing[i].1.duplicate());
        proof {
            assert(before == records_of(views.subrange(0, i as int)));
            assert(views[i as int].1 == listing@[i as int].1@);
            assert(payload@.components =~= before.push(views[i as int].1));
            assert(records_of(views.subrange(0, i + 1)) =~= before.push(views[i as int].1));
        }
        i = i + 1;
    }
    proof {
        assert(views.subrange(0, i as int) =~= views);
    }
    payload
}

/// Tells whether the status of a deployment has changed, so that a report
/// is due. A report is always due.
pub fn deployment_status_changed(name: &str) -> (changed: bool)
    ensures
        changed,
{
    true
}

/// The topic under which the thing `thing_name` reports its health.
pub open spec fn health_topic_spec(thing_name: Seq<char>) -> Seq<char> {
    "$aws/things/"@ + thing_name + "/greengrassv2/health/json"@
}

/// Builds the topic under which the thing `thing_name` reports its health.
pub fn health_topic(thing_name: &str) -> (topic: String)
    ensures
        topic@ == health_topic_spec(thing_name@),
{
    let mut topic = "$aws/things/".to_owned();
    topic.append(thing_name);
    topic.append("/greengrassv2/health/json");
    topic
}

} // verus!
