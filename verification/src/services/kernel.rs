//! The nucleus itself.
use vstd::prelude::*;
use crate::services::{Service, ServiceRegistry};

verus! {

/// Version under which the nucleus is registered.
pub const VERSION: &'static str = "2.5.6";

/// Name under which the nucleus is registered.
pub const NAME: &'static str = "aws.greengrass.Nucleus";

/// The nucleus itself.
pub struct Kernel {}

impl Service for Kernel {
    open spec fn service_name() -> Seq<char> {
        NAME@
    }

    open spec fn service_version() -> Seq<char> {
        VERSION@
    }

    fn enable(registry: &mut ServiceRegistry) {
        registry.insert(NAME.to_owned(), Self::new(NAME, VERSION));
    }
}

} // verus!
