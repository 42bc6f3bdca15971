//! The states in the lifecycle of a service.
use vstd::prelude::*;

verus! {

/// Where a service stands in its lifecycle.
#[derive(Clone, Copy, Debug, PartialEq, Eq, Structural)]
pub enum State {
    /// The object has no state: it is no lifecycle.
    Stateless,
    /// Freshly created, probably being injected.
    New,
    /// The artifacts of the service are installed.
    Installed,
    /// The service has started and has not reported that it runs.
    Starting,
    /// Up and running. The only state that should take long.
    Running,
    /// The service is shutting down.
    Stopping,
    /// Not running; the framework around it may restart it.
    Errored,
    /// Shut down for good, in general after an error that cannot be
    /// resolved.
    Broken,
    /// The service has done its job. It may be started again, as a task
    /// that a timer restarts is.
    Finished,
}

} // verus!
