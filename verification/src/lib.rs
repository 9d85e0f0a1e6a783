//! Capability records exchanged while a protocol session is negotiated, and
//! typestate builders that assemble them.
//!
//! A record is a set of optional capabilities: a capability that is present is
//! advertised, one that is absent is not. Records are made by builders whose
//! type tracks, per capability, whether it has been enabled yet, so that a
//! capability is enabled at most once and a sub-flag can only be set on a
//! capability that has been enabled.
pub mod capability;
pub mod client;
pub mod client_builder;
pub mod json;
pub mod server;
pub mod server_builder;

pub use capability::{
    ElicitationCapability, FormElicitationCapability, PromptsCapability, ResourcesCapability,
    RootsCapabilities, TaskRequestMap, TasksCapability, TasksCapabilityView, ToolsCapability,
    UrlElicitationCapability,
};
pub use json::{ExperimentalCapabilities, ExperimentalView, JsonObject, ObjectView};
pub use server::{
    ServerCapabilities, ServerCapabilitiesView, ServerCapability, ServerCapabilityKind,
};
pub use server_builder::{ServerCapabilitiesBuilder, ServerCapabilitiesBuilderState};
pub use client::{
    ClientCapabilities, ClientCapabilitiesView, ClientCapability, ClientCapabilityKind,
};
pub use client_builder::{ClientCapabilitiesBuilder, ClientCapabilitiesBuilderState};
