//! The herdr backend: wire format, control plane, terminal relay and event kernel.

pub mod api;
pub mod api_laws;
pub mod codec;
pub mod control;
pub mod control_laws;
pub mod json;
pub mod layout;
pub mod layout_laws;
pub mod lines;
pub mod lines_laws;
pub mod listing;
pub mod message_laws;
pub mod panes;
pub mod pushed;
pub mod pushed_laws;
pub mod query;
pub mod query_laws;
pub mod registry;
pub mod registry_laws;
pub mod resync;
pub mod resync_laws;
pub mod subscribe;
pub mod subscribe_laws;
pub mod relay;
pub mod relay_laws;
pub mod wire;
pub mod wire_format;
pub mod wire_laws;
