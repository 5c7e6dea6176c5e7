//! A unit-management gateway over the service manager's local IPC bus.
//!
//! The library owns one persistent connection to the service-manager
//! daemon, derives short-lived path-scoped proxies from it, issues typed
//! remote calls through them, and assembles the results into stable,
//! immutable data-transfer records. Remote failures are classified into a
//! small error taxonomy, and every record serializes to a pinned-down
//! JSON shape. The round trips themselves are trusted at the transport
//! boundary; everything the gateway decides, maps, classifies and emits
//! is verified.
pub mod api_errors;
pub mod dbus_interface;
pub mod dto;
pub mod gateway;
pub mod journald;
pub mod names;
pub mod json;
pub mod process_info;
