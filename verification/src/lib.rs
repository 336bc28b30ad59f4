//! Client-side event reporting: event records, their normalization against
//! a configuration, severity filtering, and the decisions of the two
//! delivery strategies.
//!
//! The crate decides and never performs I/O. An event is normalized
//! ([`models::Item::normalize`]), filtered ([`models::should_drop`]) and
//! handed to a [`transport::Transport`]. The queued-worker transport
//! ([`threaded::ThreadedTransport`]) keeps a bounded first-in first-out
//! queue and tells its worker what to do next; the async dispatcher
//! ([`dispatch::TokioTransport`]) turns each event into one request to
//! schedule. Whoever embeds the crate runs the worker, schedules the tasks
//! and issues the requests.

pub mod client;
pub mod configuration;
pub mod custom;
pub mod dispatch;
pub mod errors;
pub mod http;
pub mod level;
pub mod models;
pub mod threaded;
pub mod transport;

pub use client::Client;
pub use configuration::{
    set_code_version, set_context, set_custom, set_environment, set_framework, set_host, set_log_level,
    set_platform, set_token, unset_token, Configuration,
};
pub use custom::CustomMap;
pub use dispatch::TokioTransport;
pub use errors::{ConstructionError, ErrorKind};
pub use level::Level;
pub use models::{get_backtrace_frames, get_exception, should_drop, Data, Item, VERSION};
pub use threaded::ThreadedTransport;
pub use transport::{DeliveryRequest, Transport, TransportConfig, TransportEvent};
