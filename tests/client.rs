use tls_echo::{parse_certificate_chain, ClientContext, ClientError};

/// The GlobalSign Root CA certificate.
const ROOT_PEM: &str = "\
-----BEGIN CERTIFICATE-----\n\
MIIDdTCCAl2gAwIBAgILBAAAAAABFUtaw5QwDQYJKoZIhvcNAQEFBQAwVzELMAkG\n\
A1UEBhMCQkUxGTAXBgNVBAoTEEdsb2JhbFNpZ24gbnYtc2ExEDAOBgNVBAsTB1Jv\n\
b3QgQ0ExGzAZBgNVBAMTEkdsb2JhbFNpZ24gUm9vdCBDQTAeFw05ODA5MDExMjAw\n\
MDBaFw0yODAxMjgxMjAwMDBaMFcxCzAJBgNVBAYTAkJFMRkwFwYDVQQKExBHbG9i\n\
YWxTaWduIG52LXNhMRAwDgYDVQQLEwdSb290IENBMRswGQYDVQQDExJHbG9iYWxT\n\
aWduIFJvb3QgQ0EwggEiMA0GCSqGSIb3DQEBAQUAA4IBDwAwggEKAoIBAQDaDuaZ\n\
jc6j40+Kfvvxi4Mla+pIH/EqsLmVEQS98GPR4mdmzxzdzxtIK+6NiY6arymAZavp\n\
xy0Sy6scTHAHoT0KMM0VjU/43dSMUBUc71DuxC73/OlS8pF94G3VNTCOXkNz8kHp\n\
1Wrjsok6Vjk4bwY8iGlbKk3Fp1S4bInMm/k8yuX9ifUSPJJ4ltbcdG6TRGHRjcdG\n\
snUOhugZitVtbNV4FpWi6cgKOOvyJBNPc1STE4U6G7weNLWLBYy5d4ux2x8gkasJ\n\
U26Qzns3dLlwR5EiUWMWea6xrkEmCMgZK9FGqkjWZCrXgzT/LCrBbBlDSgeF59N8\n\
9iFo7+ryUp9/k5DPAgMBAAGjQjBAMA4GA1UdDwEB/wQEAwIBBjAPBgNVHRMBAf8E\n\
BTADAQH/MB0GA1UdDgQWBBRge2YaRQ2XyolQL30EzTSo//z9SzANBgkqhkiG9w0B\n\
AQUFAAOCAQEA1nPnfE920I2/7LqivjTFKDK1fPxsnCwrvQmeU79rXqoRSLblCKOz\n\
yj1hTdNGCbM+w6DjY1Ub8rrvrTnhQ7k4o+YviiY776BQVvnGCv04zcQLcFGUl5gE\n\
38NflNUVyRRBnMRddWQVDf9VMOyGj/8N7yy5Y0b2qvzfvGn9LhJIZJrglfCm7ymP\n\
AbEVtQwdpf5pLGkkeB6zpxxxYu7KyJesF12KwvhHhm4qxFYxldBniYUr+WymXUad\n\
DKqC5JlR3XC321Y9YeRq4VzW9v493kHMB65jUr9TU/Qr6cf9tveCX4XSQRjbgbME\n\
HMUfpIBvFSDJ3gyICh3WZlXi/EjJKSZp4A==\n\
-----END CERTIFICATE-----\n\
";

fn root_der() -> Vec<u8> {
    let chain = parse_certificate_chain(ROOT_PEM.as_bytes()).unwrap();
    assert_eq!(chain.len(), 1);
    chain[0].clone()
}

#[test]
fn client_needs_a_trusted_root() {
    assert!(matches!(ClientContext::new(&vec![], "hostname"), Err(ClientError::NoTrustedRoot)));
}

#[test]
fn client_needs_a_valid_peer_name() {
    assert!(matches!(ClientContext::new(&vec![root_der()], "not a name!"), Err(ClientError::InvalidPeerName)));
}

#[test]
fn client_reports_first_unusable_root() {
    assert!(matches!(ClientContext::new(&vec![vec![1u8, 2, 3]], "hostname"), Err(ClientError::RootRejected(0))));
    assert!(matches!(
        ClientContext::new(&vec![root_der(), vec![1u8, 2, 3], vec![4u8]], "hostname"),
        Err(ClientError::RootRejected(1))
    ));
}

#[test]
fn client_context_is_built() {
    assert!(ClientContext::new(&vec![root_der()], "hostname").is_ok());
    assert!(ClientContext::new(&vec![root_der()], "127.0.0.1").is_ok());
}
