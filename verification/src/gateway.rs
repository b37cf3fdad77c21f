//! The request service: task records and their store, the handling of
//! errors on the way out, and the operations themselves.

pub mod error;
pub mod messages;
pub mod service;
pub mod store;

use crate::gateway::service::McpServiceImpl;
use crate::policy::engine::{PolicyEngine, StubPolicyEvaluator};
use crate::sandbox::executor::CommandExecutor;
use vstd::prelude::*;

verus! {

/// The service with the built-in rule set and the default executor,
/// started at `start_time_ms` (milliseconds since the Unix epoch).
pub fn new_service(start_time_ms: u64) -> (service: McpServiceImpl<StubPolicyEvaluator>)
    ensures
        service.wf(),
        service.start_time_ms == start_time_ms,
        service.tasks@ == crate::gateway::store::no_tasks(),
        service.errors@ == crate::gateway::error::no_counters(),
        service.command_executor.default_timeout == 30,
{
    McpServiceImpl::new(PolicyEngine::new(), CommandExecutor::new(), start_time_ms)
}

} // verus!
