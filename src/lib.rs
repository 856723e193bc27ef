//! A minimal secure echo service: the framing, connection lifecycle and
//! driving decisions of a TLS echo server, with their contracts.
//!
//! - `frame`: what a frame is, and the laws of reading one.
//! - `outcome`: how one connection ends, and how read failures are classified.
//! - `echo`: the per-connection state machine (handshake, read, echo).
//! - `identity`: the server identity out of PEM files.
//! - `context`: the server side of the secure transport.
//! - `client`: the client side of the secure transport.
//! - `driver`: the decisions of the accept loop under either strategy.
mod client;
mod context;
mod driver;
mod echo;
mod frame;
mod identity;
mod outcome;

pub use client::{
    accepted_trust_anchor, all_accepted, client_result, valid_server_name, ClientContext, ClientError,
};
pub use context::{start, ServerContext};
pub use driver::{error, exit_code, DriverAction, ServiceError, Strategy};
pub use echo::{EchoAction, EchoSession, Phase};
pub use frame::{frame_of, lemma_frame_append, lemma_frame_of_unterminated, lemma_round_trip, SENTINEL};
pub use identity::{
    bytes_of, chain_result, check_chain, identity_result, key_result, load_identity,
    parse_certificate_chain, parse_private_key, pem_certificates, pem_pkcs8_keys, select_private_key,
    CertificateError, ServerIdentity,
};
pub use outcome::{
    classify_read_failure, read_failure_outcome, ConnectionOutcome, FailureReason, ReadFailure,
};
