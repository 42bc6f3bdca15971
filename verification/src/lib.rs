//! Device-side deployment orchestration for an IoT core device.
//!
//! The library keeps a device's deployment state in step with the desired
//! state that the cloud publishes in a device shadow. It classifies shadow
//! topics, reads the configuration ARN out of a shadow delta, drives the
//! deployment through its three states, plans the artifact fetches that a
//! configuration names, and assembles the status updates that acknowledge
//! each step. Everything here computes on plain values; network and disk
//! access are left to the caller.
use vstd::prelude::*;

pub mod arn;
pub mod config;
pub mod dependency;
pub mod json;
pub mod mqtt;
pub mod services;
pub mod text;
pub mod topic;

verus! {

/// Version of the nucleus that status updates report.
pub const GGC_VERSION: &'static str = crate::services::kernel::VERSION;

} // verus!
