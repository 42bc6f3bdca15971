//! The services of the nucleus and the shared record of their status.
//!
//! Every service enters a status record into the registry under its name.
//! The registry is a concurrent map of the `dashmap` crate; what it holds is
//! named by a specification function, and the three calls that the library
//! makes into it are stated over that name.
use vstd::prelude::*;
use crate::dependency::State;
use dashmap::DashMap;

pub mod deployment;
pub mod kernel;
pub mod main;
pub mod policy;
pub mod resolver;
pub mod status;
pub mod telemetry;

verus! {

/// The status record of a component.
#[derive(Clone, Debug)]
pub struct ServiceStatus {
    pub component_name: String,
    pub version: String,
    /// The ARNs of the fleet configurations that deployed the component.
    pub fleetconfig_arns: Vec<String>,
    /// Details of the status, as JSON text.
    pub status_details: String,
    pub is_root: bool,
    pub status: State,
}

/// The mathematical content of a `ServiceStatus`.
pub ghost struct ServiceStatusView {
    pub component_name: Seq<char>,
    pub version: Seq<char>,
    pub fleetconfig_arns: Seq<Seq<char>>,
    pub status_details: Seq<char>,
    pub is_root: bool,
    pub status: State,
}

impl View for ServiceStatus {
    type V = ServiceStatusView;

    open spec fn view(&self) -> ServiceStatusView {
        ServiceStatusView {
            component_name: self.component_name@,
            version: self.version@,
            fleetconfig_arns: self.fleetconfig_arns@.map_values(|arn: String| arn@),
            status_details: self.status_details@,
            is_root: self.is_root,
            status: self.status,
        }
    }
}

impl ServiceStatus {
    /// A copy of the record.
    pub fn duplicate(&self) -> (copy: ServiceStatus)
        ensures
            copy@ == self@,
    {
        let mut arns: Vec<String> = Vec::new();
        let mut i: usize = 0;
        while i < self.fleetconfig_arns.len()
            invariant
                i <= self.fleetconfig_arns@.len(),
                arns@.len() == i,
                forall|j: int| 0 <= j < i ==> (#[trigger] arns@[j])@ == self.fleetconfig_arns@[j]@,
            decreases self.fleetconfig_arns@.len() - i,
        {
            arns.push(self.fleetconfig_arns[i].clone());
            i = i + 1;
        }
        let copy = ServiceStatus {
            component_name: self.component_name.clone(),
            version: self.version.clone(),
            fleetconfig_arns: arns,
            status_details: self.status_details.clone(),
            is_root: self.is_root,
            status: self.status,
        };
        assert(copy@.fleetconfig_arns =~= self@.fleetconfig_arns);
        copy
    }
}

/// The record with which a service of the name `name` and the version
/// `version` enters the registry: deployed by no fleet configuration, no
/// details, not a root, and finished.
pub open spec fn initial_status(name: Seq<char>, version: Seq<char>) -> ServiceStatusView {
    ServiceStatusView {
        component_name: name,
        version,
        fleetconfig_arns: Seq::empty(),
        status_details: "null"@,
        is_root: false,
        status: State::Finished,
    }
}

/// The concurrent map of the `dashmap` crate. Nothing is read from it but
/// through the wrappers below.
#[verifier::external_type_specification]
#[verifier::external_body]
#[verifier::reject_recursive_types(K)]
#[verifier::reject_recursive_types(V)]
#[verifier::reject_recursive_types(S)]
pub struct ExDashMap<K, V, S>(DashMap<K, V, S>);

/// What a map of status records holds: for each key, the record under it.
pub uninterp spec fn registry_entries(
    map: DashMap<String, ServiceStatus>,
) -> Map<Seq<char>, ServiceStatusView>;

/// The content of a registry without entries.
pub open spec fn no_entries() -> Map<Seq<char>, ServiceStatusView> {
    Map::empty()
}

/// The views of a listing.
pub open spec fn listing_views(
    listing: Seq<(String, ServiceStatus)>,
) -> Seq<(Seq<char>, ServiceStatusView)> {
    listing.map_values(|entry: (String, ServiceStatus)| (entry.0@, entry.1@))
}

/// `listing` holds every entry of `entries` once, in some order.
pub open spec fn lists(
    listing: Seq<(Seq<char>, ServiceStatusView)>,
    entries: Map<Seq<char>, ServiceStatusView>,
) -> bool {
    &&& forall|i: int|
        0 <= i < listing.len() ==> entries.contains_pair(
            (#[trigger] listing[i]).0,
            listing[i].1,
        )
    &&& forall|i: int, j: int|
        0 <= i < j < listing.len() ==> (#[trigger] listing[i]).0 != (#[trigger] listing[j]).0
    &&& forall|key: Seq<char>| #[trigger]
        entries.contains_key(key) ==> exists|i: int|
            0 <= i < listing.len() && (#[trigger] listing[i]).0 == key
}

/// Calls `DashMap::new`: a map that holds nothing.
#[verifier::external_body]
fn registry_new() -> (map: DashMap<String, ServiceStatus>)
    ensures
        registry_entries(map) == no_entries(),
{
    DashMap::new()
}

/// Calls `DashMap::insert`: the map then holds `status` under `name`, in
/// the place of what it held there, and everything else as before.
#[verifier::external_body]
fn registry_insert(map: &mut DashMap<String, ServiceStatus>, name: String, status: ServiceStatus)
    ensures
        registry_entries(*final(map)) == registry_entries(*old(map)).insert(name@, status@),
{
    map.insert(name, status);
}

/// Walks the map with `DashMap::iter` and copies each entry out. The walk
/// meets every entry once; the map does not say in which order.
#[verifier::external_body]
fn registry_list(map: &DashMap<String, ServiceStatus>) -> (listing: Vec<(String, ServiceStatus)>)
    ensures
        lists(listing_views(listing@), registry_entries(*map)),
{
    map.iter().map(|entry| (entry.key().clone(), entry.value().clone())).collect()
}

/// The registry of the components on this device and their status.
pub struct ServiceRegistry {
    map: DashMap<String, ServiceStatus>,
}

impl View for ServiceRegistry {
    type V = Map<Seq<char>, ServiceStatusView>;

    closed spec fn view(&self) -> Map<Seq<char>, ServiceStatusView> {
        registry_entries(self.map)
    }
}

impl ServiceRegistry {
    /// A registry without entries.
    pub fn new() -> (registry: ServiceRegistry)
        ensures
            registry@ == no_entries(),
    {
        ServiceRegistry { map: registry_new() }
    }

    /// Enters `status` under `name`, in the place of an earlier record
    /// under that name.
    pub fn insert(&mut self, name: String, status: ServiceStatus)
        ensures
            final(self)@ == old(self)@.insert(name@, status@),
    {
        registry_insert(&mut self.map, name, status);
    }

    /// Every entry of the registry, once, in no particular order.
    pub fn list(&self) -> (listing: Vec<(String, ServiceStatus)>)
        ensures
            lists(listing_views(listing@), self@),
    {
        registry_list(&self.map)
    }
}

/// A service of the nucleus.
pub trait Service {
    /// The name under which the service is registered.
    spec fn service_name() -> Seq<char>;

    /// The version with which the service is registered.
    spec fn service_version() -> Seq<char>;

    /// The record with which a service enters the registry.
    fn new(name: &'static str, ver: &'static str) -> (status: ServiceStatus)
        ensures
            status@ == initial_status(name@, ver@),
    {
        let status = ServiceStatus {
            component_name: name.to_owned(),
            version: ver.to_owned(),
            fleetconfig_arns: Vec::new(),
            status_details: "null".to_owned(),
            is_root: false,
            status: State::Finished,
        };
        assert(status@.fleetconfig_arns =~= Seq::empty());
        status
    }

    /// Enters the service into the registry.
    fn enable(registry: &mut ServiceRegistry)
        ensures
            final(registry)@ == old(registry)@.insert(
                Self::service_name(),
                initial_status(Self::service_name(), Self::service_version()),
            ),
    ;
}

} // verus!
