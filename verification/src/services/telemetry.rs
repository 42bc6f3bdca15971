//! The service that gathers telemetry.
use vstd::prelude::*;
use crate::services::{Service, ServiceRegistry};

verus! {

/// Version under which the telemetry agent is registered.
pub const VERSION: &'static str = "0.0.0";

/// Name under which the telemetry agent is registered.
pub const NAME: &'static str = "TelemetryAgent";

/// The service that gathers telemetry.
pub struct Telemetry {}

impl Service for Telemetry {
    open spec fn service_name() -> Seq<char> {
        NAME@
    }

    open spec fn service_version() -> Seq<char> {
        VERSION@
    }

    fn enable(registry: &mut ServiceRegistry) {
        registry.insert(NAME.to_owned(), Self::new(NAME, VERSION));
    }
}

} // verus!
