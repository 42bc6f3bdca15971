//! The service that applies the policy for system updates.
use vstd::prelude::*;
use crate::services::{Service, ServiceRegistry};

verus! {

/// Version under which the policy service is registered.
pub const VERSION: &'static str = "0.0.0";

/// Name under which the policy service is registered.
pub const NAME: &'static str = "UpdateSystemPolicyService";

/// The service that applies the policy for system updates.
pub struct Policy {}

impl Service for Policy {
    open spec fn service_name() -> Seq<char> {
        NAME@
    }

    open spec fn service_version() -> Seq<char> {
        VERSION@
    }

    fn enable(registry: &mut ServiceRegistry) {
        registry.insert(NAME.to_owned(), Self::new(NAME, VERSION));
    }
}

} // verus!
