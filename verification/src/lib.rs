//! Decision core of an event-driven controller that turns GitHub Actions
//! `workflow_job` webhook deliveries into the lifecycle of ephemeral compute
//! instances: one instance is created when an eligible job is queued and
//! deleted when that job completes.
//!
//! The library performs no I/O. [`webhook::handle_workflow_job_event`] maps
//! the phase a delivery is in and the reply that just arrived to the next
//! phase and the next action; the caller performs the action against the
//! compute and authorization backends and comes back with the reply. Names
//! and zones are recomputed from the job's identity at every step, so no
//! state has to survive between deliveries.

pub mod compute;
pub mod github;
pub mod guarantees;
pub mod instance;
pub mod metadata;
pub mod placement;
pub mod server;
pub mod text;
pub mod utils;
pub mod webhook;
pub mod workflow;
