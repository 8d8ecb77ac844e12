//! Verified core of the PumpkinPi hub/spoke/client system.

pub mod proposals;
pub mod records;
pub mod redaction;
pub mod snapshots;
pub mod status;
pub mod text;
pub mod client_config;
pub mod client_link;
pub mod client_order;
pub mod client_state;
pub mod client_view;
pub mod crypto;
pub mod hub_cache;
pub mod hub_links;
pub mod hub_providers;
pub mod hub_requests;
pub mod hub_routing;
pub mod hub_store;
pub mod ids;
pub mod json;
pub mod keyed;
pub mod local_mode;
pub mod messages;
pub mod node_config;
pub mod node_host;
pub mod node_link;
pub mod node_local;
pub mod node_projects;
pub mod node_records;
pub mod node_runtime;
pub mod node_sessions;
pub mod node_store;
pub mod order;
pub mod pi_events;
pub mod pi_session;
pub mod policy;
