//! Polls a photovoltaic invertor's telemetry from the My Autarco service and keeps the most
//! recent reading for a small read endpoint.
//!
//! The library holds the parts with invariants: the reading and its cache, the decisions of
//! the polling and authentication loop, the reading of telemetry values, and the shutdown
//! coordination between the poller and the server. The transport, the HTTP front end and the
//! loading of the configuration file drive these from outside.
pub mod cache;
pub mod config;
pub mod laws;
pub mod poller;
pub mod reading;
pub mod supervisor;
pub mod telemetry;

pub use cache::StatusCache;
pub use config::{Config, DEFAULT_POLL_INTERVAL};
pub use poller::{
    Action, Event, FetchError, Poller, PollerState, PollerView, AUTH_BACKOFF_SECONDS,
    TICK_SECONDS,
};
pub use reading::Reading;
pub use supervisor::{Supervisor, SupervisorAction, TaskEnded};
pub use telemetry::parse_value;
