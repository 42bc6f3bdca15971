//! The service that stands for the deployment as a whole.
use vstd::prelude::*;
use crate::services::{Service, ServiceRegistry};

verus! {

/// Version under which the main service is registered.
pub const VERSION: &'static str = "";

/// Name under which the main service is registered.
pub const NAME: &'static str = "main";

/// The service that stands for the deployment as a whole.
pub struct Main {}

impl Service for Main {
    open spec fn service_name() -> Seq<char> {
        NAME@
    }

    open spec fn service_version() -> Seq<char> {
        VERSION@
    }

    fn enable(registry: &mut ServiceRegistry) {
        registry.insert(NAME.to_owned(), Self::new(NAME, VERSION));
    }
}

} // verus!
