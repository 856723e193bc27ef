use vstd::prelude::*;
use std::sync::Arc;
use crate::driver::{error, ServiceError};
use crate::identity::{identity_result, load_identity, bytes_of, ServerIdentity};

verus! {

#[verifier::external_type_specification]
#[verifier::external_body]
pub struct ExServerConfig(rustls::ServerConfig);

/// Relies on rustls's `ServerConfig` builder: safe defaults, no client
/// authentication, and one certificate chain with its private key. Whether
/// the key is accepted is left open here.
#[verifier::external_body]
fn build_server_config(chain: Vec<Vec<u8>>, key: Vec<u8>) -> (r: Result<Arc<rustls::ServerConfig>, String>) {
    rustls::ServerConfig::builder()
        .with_safe_defaults()
        .with_no_client_auth()
        .with_single_cert(chain.into_iter().map(rustls::Certificate).collect(), rustls::PrivateKey(key))
        .map(Arc::new)
        .map_err(|e| e.to_string())
}

/// The server side of the secure transport: built once from the identity,
/// read-only afterwards and shared by every connection.
pub struct ServerContext {
    config: Arc<rustls::ServerConfig>,
}

impl ServerContext {
    /// Builds the context of an identity. A key that the transport refuses is
    /// reported with the transport's description.
    pub fn new(identity: ServerIdentity) -> (r: Result<ServerContext, ServiceError>)
        ensures
            r is Err ==> r->Err_0 is Other,
    {
        match build_server_config(identity.chain, identity.key) {
            Ok(config) => Ok(ServerContext { config }),
            Err(message) => Err(error(message)),
        }
    }

    /// The transport configuration that handshakes are accepted with.
    pub fn config(&self) -> &Arc<rustls::ServerConfig> {
        &self.config
    }
}

/// Brings the service up to the point where it may bind its endpoint: loads
/// the identity out of the two files' contents (`None` for a file that could
/// not be read) and builds the context. A bad identity stops the service
/// before anything is bound.
pub fn start(cert_file: Option<Vec<u8>>, key_file: Option<Vec<u8>>) -> (r: Result<ServerContext, ServiceError>)
    ensures
        match identity_result(bytes_of(cert_file), bytes_of(key_file)) {
            Err(e) => r is Err && r->Err_0 == ServiceError::Identity(e),
            Ok(_) => r is Ok || r->Err_0 is Other,
        },
{
    match load_identity(cert_file, key_file) {
        Err(e) => Err(ServiceError::Identity(e)),
        Ok(identity) => ServerContext::new(identity),
    }
}

} // verus!
