use vstd::prelude::*;
use std::sync::Arc;

verus! {

#[verifier::external_type_specification]
#[verifier::external_body]
pub struct ExClientConfig(rustls::ClientConfig);

#[verifier::external_type_specification]
#[verifier::external_body]
pub struct ExRootCertStore(rustls::RootCertStore);

#[verifier::external_type_specification]
#[verifier::external_body]
pub struct ExServerName(rustls::ServerName);

/// Whether a DER-encoded certificate can serve as a trust anchor.
pub uninterp spec fn accepted_trust_anchor(der: Seq<u8>) -> bool;

/// Whether a text names a server: a DNS name or an IP address.
pub uninterp spec fn valid_server_name(name: Seq<char>) -> bool;

/// Relies on `rustls::RootCertStore::empty`: a store without anchors.
#[verifier::external_body]
fn new_root_store() -> (r: rustls::RootCertStore) {
    rustls::RootCertStore::empty()
}

/// Relies on `rustls::RootCertStore::add`, which succeeds exactly when the
/// certificate's bytes parse as a trust anchor.
#[verifier::external_body]
fn add_trust_anchor(store: &mut rustls::RootCertStore, der: &Vec<u8>) -> (r: bool)
    ensures
        r == accepted_trust_anchor(der@),
{
    store.add(&rustls::Certificate(der.clone())).is_ok()
}

/// Relies on rustls's `ClientConfig` builder: safe defaults, these trusted
/// roots, and no client authentication.
#[verifier::external_body]
fn build_client_config(store: rustls::RootCertStore) -> (r: Arc<rustls::ClientConfig>) {
    Arc::new(
        rustls::ClientConfig::builder()
            .with_safe_defaults()
            .with_root_certificates(store)
            .with_no_client_auth(),
    )
}

/// Relies on `rustls::ServerName::try_from`, which accepts a DNS name or an
/// IP address and depends on the text alone.
#[verifier::external_body]
fn parse_server_name(name: &str) -> (r: Option<rustls::ServerName>)
    ensures
        r is Some == valid_server_name(name@),
{
    rustls::ServerName::try_from(name).ok()
}

/// Why a client context could not be built.
#[derive(Clone, Copy, Debug, PartialEq, Eq, Structural)]
pub enum ClientError {
    /// No trusted root was given.
    NoTrustedRoot,
    /// The expected peer name is neither a DNS name nor an IP address.
    InvalidPeerName,
    /// The trusted root at this index is no usable trust anchor.
    RootRejected(usize),
}

/// Whether the first `n` roots are all usable trust anchors.
pub open spec fn all_accepted(roots: Seq<Seq<u8>>, n: int) -> bool {
    forall|i: int| 0 <= i < n ==> #[trigger] accepted_trust_anchor(roots[i])
}

/// The outcome of building a client context from its inputs: the roots
/// must be non-empty, the peer name valid, and every root usable; the first
/// unusable root is reported.
pub open spec fn client_result(roots: Seq<Seq<u8>>, peer_name: Seq<char>) -> Result<(), ClientError> {
    if roots.len() == 0 {
        Err(ClientError::NoTrustedRoot)
    } else if !valid_server_name(peer_name) {
        Err(ClientError::InvalidPeerName)
    } else if all_accepted(roots, roots.len() as int) {
        Ok(())
    } else {
        let i = choose|i: int| 0 <= i < roots.len() && !accepted_trust_anchor(roots[i])
            && all_accepted(roots, i);
        Err(ClientError::RootRejected(i as usize))
    }
}

/// The client side of the secure transport: the trusted roots and the name
/// that the server's certificate must be valid for.
pub struct ClientContext {
    config: Arc<rustls::ClientConfig>,
    peer_name: rustls::ServerName,
}

impl ClientContext {
    /// Builds the context that trusts `trusted_roots` and expects a peer
    /// named `peer_name`.
    pub fn new(trusted_roots: &Vec<Vec<u8>>, peer_name: &str) -> (r: Result<ClientContext, ClientError>)
        ensures
            match client_result(trusted_roots.deep_view(), peer_name@) {
                Ok(()) => r is Ok,
                Err(e) => r is Err && r->Err_0 == e,
            },
    {
        if trusted_roots.len() == 0 {
            return Err(ClientError::NoTrustedRoot);
        }
        let name = match parse_server_name(peer_name) {
            None => return Err(ClientError::InvalidPeerName),
            Some(name) => name,
        };
        let ghost roots = trusted_roots.deep_view();
        let mut store = new_root_store();
        let mut i: usize = 0;
        while i < trusted_roots.len()
            invariant
                0 <= i <= trusted_roots.len(),
                roots == trusted_roots.deep_view(),
                roots.len() == trusted_roots.len(),
                all_accepted(roots, i as int),
                valid_server_name(peer_name@),
            decreases trusted_roots.len() - i,
        {
            assert(roots[i as int] == trusted_roots[i as int]@);
            if !add_trust_anchor(&mut store, &trusted_roots[i]) {
                proof {
                    let k = i as int;
                    assert(0 <= k < roots.len() && !accepted_trust_anchor(roots[k]) && all_accepted(roots, k));
                    assert(!all_accepted(roots, roots.len() as int));
                    let j = choose|j: int| 0 <= j < roots.len() && !accepted_trust_anchor(roots[j])
                        && all_accepted(roots, j);
                    if j < k {
                        assert(accepted_trust_anchor(roots[j]));
                    } else if j > k {
                        assert(accepted_trust_anchor(roots[k]));
                    }
                    assert(j == k);
                }
                return Err(ClientError::RootRejected(i));
            }
            i = i + 1;
        }
        Ok(ClientContext { config: build_client_config(store), peer_name: name })
    }

    /// The transport configuration that handshakes are initiated with.
    pub fn config(&self) -> &Arc<rustls::ClientConfig> {
        &self.config
    }

    /// The name that the server's certificate must be valid for.
    pub fn peer_name(&self) -> &rustls::ServerName {
        &self.peer_name
    }
}

} // verus!
