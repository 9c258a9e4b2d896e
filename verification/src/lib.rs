//! Lifecycle of the single tunnel device that Android's `VpnService` hands out.
//!
//! The service itself is reached over JNI by the program around this library.
//! The library holds the decisions: when the active tunnel serves a request,
//! when the service has to be asked for a new one, what each answer of the
//! service means, and which descriptor has to be released afterwards.

pub mod config;
pub mod error;
pub mod service;
pub mod tun;
pub mod provider;
pub mod laws;

pub use config::{IpAddress, Route, TunConfig, TunConfigView};
pub use error::{Error, ErrorView, Method};
pub use provider::{ActiveTun, AndroidTunProvider, ProviderState, TunRequest};
pub use service::{CallOutcome, CallOutcomeView, JavaValue};
pub use tun::VpnServiceTun;
