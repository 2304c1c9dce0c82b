//! A loopback harness that brings up a WebSocket listener, optionally behind
//! TLS, and drives a client through the TLS and WebSocket opening handshakes.
//!
//! The crate holds the harness's decisions: how credentials are loaded and
//! checked, how the TLS acceptor and connector are configured, which
//! handshake step follows which, how the run's result follows from what is
//! reported, and how the bind address and connect URL are formed. Sockets and
//! the async runtime stay with the caller, which performs each step and
//! reports how it went.
mod accept_key;
mod credentials;
mod endpoint;
mod error;
mod harness;
mod transport;

pub use accept_key::{accept_matches, client_accepts, lemma_accept_round_trip, server_accept_value};
pub use credentials::{
    check_count, load_certificates, load_trust_roots, server_identity_from_pem,
    server_identity_from_pkcs12, CountRequirement,
};
pub use endpoint::{authority, connect_url, EndpointConfig};
pub use error::HarnessError;
pub use harness::{
    advance, exit_status, first_stage, lemma_done_is_final, lemma_established_iff_all_steps_succeed,
    lemma_handler_outcomes_contained, lemma_result_is_final, settle, Outcome, Role, RunEvent, RunState,
    Stage,
};
pub use transport::{build_acceptor, build_connector, build_platform_connector, modes_compatible, TlsMode};
