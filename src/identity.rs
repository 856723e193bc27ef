use vstd::prelude::*;

verus! {

/// Why a server identity could not be loaded.
#[derive(Clone, Copy, Debug, PartialEq, Eq, Structural)]
pub enum CertificateError {
    /// A file could not be read.
    Unreadable,
    /// The file holds no well-formed PEM, or no certificate at all.
    Malformed,
    /// The key file holds this many private keys, where exactly one is needed.
    KeyCountMismatch(usize),
}

/// A certificate chain, leaf first, and the private key of its leaf, each
/// DER-encoded.
pub struct ServerIdentity {
    pub chain: Vec<Vec<u8>>,
    pub key: Vec<u8>,
}

/// The DER bodies of the certificate sections of a PEM text, in order; `None`
/// where the text is not well-formed PEM.
pub uninterp spec fn pem_certificates(pem: Seq<u8>) -> Option<Seq<Seq<u8>>>;

/// The DER bodies of the PKCS#8 private-key sections of a PEM text, in order;
/// `None` where the text is not well-formed PEM.
pub uninterp spec fn pem_pkcs8_keys(pem: Seq<u8>) -> Option<Seq<Seq<u8>>>;

/// Relies on `rustls_pemfile::certs`, which reads PEM sections from the text
/// alone and keeps the bodies of the certificate sections, in order.
#[verifier::external_body]
fn read_pem_certificates(pem: &[u8]) -> (r: Option<Vec<Vec<u8>>>)
    ensures
        r is Some <==> pem_certificates(pem@) is Some,
        r is Some ==> pem_certificates(pem@) == Some(r->Some_0.deep_view()),
{
    let mut reader: &[u8] = pem;
    rustls_pemfile::certs(&mut reader).ok()
}

/// Relies on `rustls_pemfile::pkcs8_private_keys`, which reads PEM sections
/// from the text alone and keeps the bodies of the PKCS#8 key sections, in
/// order.
#[verifier::external_body]
fn read_pem_pkcs8_keys(pem: &[u8]) -> (r: Option<Vec<Vec<u8>>>)
    ensures
        r is Some <==> pem_pkcs8_keys(pem@) is Some,
        r is Some ==> pem_pkcs8_keys(pem@) == Some(r->Some_0.deep_view()),
{
    let mut reader: &[u8] = pem;
    rustls_pemfile::pkcs8_private_keys(&mut reader).ok()
}

/// The certificate chain that parsed certificate sections give.
pub open spec fn chain_result(parsed: Option<Seq<Seq<u8>>>) -> Result<Seq<Seq<u8>>, CertificateError> {
    match parsed {
        None => Err(CertificateError::Malformed),
        Some(certs) => if certs.len() == 0 {
            Err(CertificateError::Malformed)
        } else {
            Ok(certs)
        },
    }
}

/// The private key that parsed key sections give: there must be exactly one.
pub open spec fn key_result(parsed: Option<Seq<Seq<u8>>>) -> Result<Seq<u8>, CertificateError> {
    match parsed {
        None => Err(CertificateError::Malformed),
        Some(keys) => if keys.len() == 1 {
            Ok(keys[0])
        } else {
            Err(CertificateError::KeyCountMismatch(keys.len() as usize))
        },
    }
}

/// The identity that the contents of a certificate file and of a key file
/// give; `None` stands for a file that could not be read.
pub open spec fn identity_result(cert_file: Option<Seq<u8>>, key_file: Option<Seq<u8>>) -> Result<
    (Seq<Seq<u8>>, Seq<u8>),
    CertificateError,
> {
    match cert_file {
        None => Err(CertificateError::Unreadable),
        Some(cert_pem) => match chain_result(pem_certificates(cert_pem)) {
            Err(e) => Err(e),
            Ok(chain) => match key_file {
                None => Err(CertificateError::Unreadable),
                Some(key_pem) => match key_result(pem_pkcs8_keys(key_pem)) {
                    Err(e) => Err(e),
                    Ok(key) => Ok((chain, key)),
                },
            },
        },
    }
}

/// The contents of a file that may not have been read.
pub open spec fn bytes_of(file: Option<Vec<u8>>) -> Option<Seq<u8>> {
    match file {
        None => None,
        Some(bytes) => Some(bytes@),
    }
}

impl ServerIdentity {
    pub open spec fn view(&self) -> (Seq<Seq<u8>>, Seq<u8>) {
        (self.chain.deep_view(), self.key@)
    }
}

/// Checks parsed certificate sections: at least one certificate is needed.
pub fn check_chain(parsed: Option<Vec<Vec<u8>>>) -> (r: Result<Vec<Vec<u8>>, CertificateError>)
    ensures
        match r {
            Ok(chain) => chain_result(parsed.deep_view()) == Ok::<Seq<Seq<u8>>, CertificateError>(chain.deep_view()),
            Err(e) => chain_result(parsed.deep_view()) == Err::<Seq<Seq<u8>>, CertificateError>(e),
        },
{
    match parsed {
        None => Err(CertificateError::Malformed),
        Some(certs) => {
            if certs.len() == 0 {
                Err(CertificateError::Malformed)
            } else {
                Ok(certs)
            }
        },
    }
}

/// Picks the one private key out of parsed key sections; any other number
/// of keys is refused with that number.
pub fn select_private_key(parsed: Option<Vec<Vec<u8>>>) -> (r: Result<Vec<u8>, CertificateError>)
    ensures
        match r {
            Ok(key) => key_result(parsed.deep_view()) == Ok::<Seq<u8>, CertificateError>(key@),
            Err(e) => key_result(parsed.deep_view()) == Err::<Seq<u8>, CertificateError>(e),
        },
        parsed is Some && parsed->Some_0.len() != 1 ==> r == Err::<Vec<u8>, CertificateError>(
            CertificateError::KeyCountMismatch(parsed->Some_0.len()),
        ),
{
    match parsed {
        None => Err(CertificateError::Malformed),
        Some(keys) => {
            let n = keys.len();
            if n != 1 {
                Err(CertificateError::KeyCountMismatch(n))
            } else {
                let mut keys = keys;
                let ghost all = keys.deep_view();
                let key = keys.remove(0);
                assert(all[0] == key@);
                Ok(key)
            }
        },
    }
}

/// Reads a certificate chain out of a PEM text.
pub fn parse_certificate_chain(pem: &[u8]) -> (r: Result<Vec<Vec<u8>>, CertificateError>)
    ensures
        match r {
            Ok(chain) => chain_result(pem_certificates(pem@)) == Ok::<Seq<Seq<u8>>, CertificateError>(chain.deep_view()),
            Err(e) => chain_result(pem_certificates(pem@)) == Err::<Seq<Seq<u8>>, CertificateError>(e),
        },
{
    check_chain(read_pem_certificates(pem))
}

/// Reads the one private key out of a PEM text.
pub fn parse_private_key(pem: &[u8]) -> (r: Result<Vec<u8>, CertificateError>)
    ensures
        match r {
            Ok(key) => key_result(pem_pkcs8_keys(pem@)) == Ok::<Seq<u8>, CertificateError>(key@),
            Err(e) => key_result(pem_pkcs8_keys(pem@)) == Err::<Seq<u8>, CertificateError>(e),
        },
{
    select_private_key(read_pem_pkcs8_keys(pem))
}

/// Builds the server identity out of the contents of a certificate file and
/// of a key file, `None` standing for a file that could not be read. The
/// certificate file is examined first.
pub fn load_identity(cert_file: Option<Vec<u8>>, key_file: Option<Vec<u8>>) -> (r: Result<ServerIdentity, CertificateError>)
    ensures
        match r {
            Ok(id) => identity_result(bytes_of(cert_file), bytes_of(key_file)) == Ok::<(Seq<Seq<u8>>, Seq<u8>), CertificateError>(id@),
            Err(e) => identity_result(bytes_of(cert_file), bytes_of(key_file)) == Err::<(Seq<Seq<u8>>, Seq<u8>), CertificateError>(e),
        },
        cert_file is None ==> r matches Err(CertificateError::Unreadable),
{
    let cert_pem = match cert_file {
        None => return Err(CertificateError::Unreadable),
        Some(bytes) => bytes,
    };
    let chain = match parse_certificate_chain(cert_pem.as_slice()) {
        Err(e) => return Err(e),
        Ok(chain) => chain,
    };
    let key_pem = match key_file {
        None => return Err(CertificateError::Unreadable),
        Some(bytes) => bytes,
    };
    let key = match parse_private_key(key_pem.as_slice()) {
        Err(e) => return Err(e),
        Ok(key) => key,
    };
    Ok(ServerIdentity { chain, key })
}

} // verus!
