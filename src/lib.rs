//! Command recording, usage tracking, render-pass caching, bind-state
//! diffing and deferred destruction for an explicit GPU command model.
//!
//! Objects are named by plain `u64` handles. Recording a command log yields
//! a list of native commands that a driver layer replays.

pub mod flags;
pub mod types;
pub mod usage_table;
pub mod pass_resource_usage;
pub mod command;
pub mod native;
pub mod descriptor_set_tracker;
pub mod render_pass;
pub mod serial;
pub mod fenced_deleter;
pub mod device;
pub mod recorder;
pub mod transfers;
pub mod passes;
pub mod fence;
pub mod queue;
