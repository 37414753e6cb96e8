//! Connectivity bring-up for a station-mode Wi-Fi device, as verified
//! decision machines.
//!
//! Each machine takes the outcome of the last piece of outside work (a driver
//! call, a status read, a sleep) and answers with the next piece of work to
//! do. The caller performs that work and hands back its outcome; nothing in
//! this crate blocks or talks to hardware.
pub mod config;
pub mod credentials;
pub mod executor;
pub mod readiness;
pub mod supervisor;

pub use config::{LogLevel, RuntimeConfig, HEAP_BYTES};
pub use credentials::{ConfigError, Credentials, PASSWORD_MAX_BYTES, SSID_MAX_BYTES};
pub use executor::{
    fill_rx_buffer, summarize_report, ExecAction, ExecEvent, ExecPhase, RequestExecutor,
    RequestOutcome, ResponseSummary, SendReport, TransportError, RX_BUFFER_LEN,
};
pub use readiness::{
    AddressInfo, ReadinessWaiter, StackStatus, WaitAction, WaitEvent, WaitPhase, POLL_INTERVAL_MS,
};
pub use supervisor::{ConnState, SupAction, SupEvent, SupPhase, Supervisor, SETTLE_DELAY_MS};
