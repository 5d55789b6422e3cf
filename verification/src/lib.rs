//! Native Makepad user interface for an agent runtime.
pub mod adapters;
pub mod chat;
pub mod clock;
pub mod fake;
pub mod host_managed;
pub mod inbound;
pub mod json;
pub mod launch_app;
pub mod launcher;
pub mod laws;
pub mod makepad_channel;
pub mod makepad_host;
pub mod protocol;
pub mod registry;
pub mod text;
