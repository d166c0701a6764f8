//! Verified core of the private gateway edge: route admission, persistent
//! service capacity, bounded log capture, and fenced cleanup decisions.

pub mod ident;
pub mod policy;
pub mod http_checks;
pub mod routes;
pub mod inbound_secret;
pub mod ui_gateway_admission;
pub mod text;
pub mod service_cleanup;
pub mod service_cleanup_driver;
pub mod service_boot_recovery;
pub mod service_instance;
pub mod service_targets;
pub mod service_coordinator;
pub mod service_supervisor;
pub mod service_probe;
pub mod service_preparation;
pub mod service_handler;
pub mod caddy;
pub mod caddy_template;
pub mod service_failure;
pub mod service_capacity;
pub mod service_logs;
pub mod service_log_writer;
