use vstd::prelude::*;

verus! {

/// The DER contents of the certificates in a PEM text, in order, as
/// `rustls_pemfile::certs` reads them; `None` where it reports an error.
pub uninterp spec fn pem_certs(pem: Seq<u8>) -> Option<Seq<Seq<u8>>>;

/// The DER contents of the PKCS #8 private keys in a PEM text, in order, as
/// `rustls_pemfile::pkcs8_private_keys` reads them; `None` where it reports an
/// error.
pub uninterp spec fn pem_pkcs8_keys(pem: Seq<u8>) -> Option<Seq<Seq<u8>>>;

/// The server configuration of rustls, carried opaquely.
#[verifier::external_type_specification]
#[verifier::external_body]
pub struct ExServerConfig(rustls::ServerConfig);

/// `rustls_pemfile::certs` on the bytes of a PEM file: the certificates'
/// DER contents, in order, or `None` when it reports an error. The result is
/// named by `pem_certs`, a function of the bytes alone.
#[verifier::external_body]
fn parse_pem_certs(pem: &[u8]) -> (r: Option<Vec<Vec<u8>>>)
    ensures
        r is Some <==> pem_certs(pem@) is Some,
        r is Some ==> r->0.deep_view() == pem_certs(pem@)->0,
{
    let mut reader: &[u8] = pem;
    rustls_pemfile::certs(&mut reader).ok()
}

/// `rustls_pemfile::pkcs8_private_keys` on the bytes of a PEM file: the
/// keys' DER contents, in order, or `None` when it reports an error. The
/// result is named by `pem_pkcs8_keys`, a function of the bytes alone.
#[verifier::external_body]
fn parse_pem_pkcs8_keys(pem: &[u8]) -> (r: Option<Vec<Vec<u8>>>)
    ensures
        r is Some <==> pem_pkcs8_keys(pem@) is Some,
        r is Some ==> r->0.deep_view() == pem_pkcs8_keys(pem@)->0,
{
    let mut reader: &[u8] = pem;
    rustls_pemfile::pkcs8_private_keys(&mut reader).ok()
}

/// A rustls server configuration with the certificate chain (DER, in order)
/// and the DER private key it was built from.
pub struct ServerTls {
    pub config: rustls::ServerConfig,
    pub chain: Ghost<Seq<Seq<u8>>>,
    pub key: Ghost<Seq<u8>>,
}

/// rustls's `ServerConfig::builder()` with safe defaults and no client
/// authentication, finished by `with_single_cert` with the given chain and
/// key; `None` when rustls refuses the key. rustls keeps the chain and a
/// signing key made from `key` in the configuration. Whether it refuses is
/// not stated: it depends on the key and, for ECDSA keys, on the system's
/// random number generator, which ring draws from when it loads the key.
#[verifier::external_body]
fn single_cert_config(cert_chain: Vec<Vec<u8>>, key: Vec<u8>) -> (r: Option<ServerTls>)
    ensures
        r matches Some(t) ==> t.chain@ == cert_chain.deep_view() && t.key@ == key@,
{
    let chain = Ghost(cert_chain.deep_view());
    let key_view = Ghost(key@);
    let certs = cert_chain.into_iter().map(rustls::Certificate).collect();
    let config = rustls::ServerConfig::builder()
        .with_safe_defaults()
        .with_no_client_auth()
        .with_single_cert(certs, rustls::PrivateKey(key))
        .ok()?;
    Some(ServerTls { config, chain, key: key_view })
}

/// Why the server's TLS setup failed.
#[derive(Debug, PartialEq, Eq)]
pub enum TlsSetupError {
    /// The certificate file could not be read as PEM.
    UnreadableCertificates,
    /// The key file could not be read as PEM.
    UnreadablePrivateKeys,
    /// The key file holds no PKCS #8 private key.
    NoPrivateKey,
    /// rustls refused the first private key.
    RejectedPrivateKey,
}

/// The private key the server is configured with: the first one read from
/// the key file, or none when the file held no key.
pub fn pick_private_key<K>(keys: Vec<K>) -> (r: Option<K>)
    ensures
        keys@.len() == 0 ==> r is None,
        keys@.len() > 0 ==> r == Some(keys@[0]),
{
    let mut keys = keys;
    if keys.len() == 0 {
        None
    } else {
        Some(keys.remove(0))
    }
}

/// The certificate chain and private key for the server, from the bytes of
/// the certificate file and of the key file: every certificate, in order, and
/// the first PKCS #8 key.
pub fn tls_material(cert_pem: &[u8], key_pem: &[u8]) -> (r: Result<(Vec<Vec<u8>>, Vec<u8>), TlsSetupError>)
    ensures
        match r {
            Ok((chain, key)) => {
                &&& pem_certs(cert_pem@) == Some(chain.deep_view())
                &&& pem_pkcs8_keys(key_pem@) is Some
                &&& pem_pkcs8_keys(key_pem@)->0.len() > 0
                &&& key@ == pem_pkcs8_keys(key_pem@)->0[0]
            },
            Err(TlsSetupError::UnreadableCertificates) => pem_certs(cert_pem@) is None,
            Err(TlsSetupError::UnreadablePrivateKeys) => pem_certs(cert_pem@) is Some
                && pem_pkcs8_keys(key_pem@) is None,
            Err(TlsSetupError::NoPrivateKey) => pem_certs(cert_pem@) is Some
                && pem_pkcs8_keys(key_pem@) == Some(Seq::<Seq<u8>>::empty()),
            Err(TlsSetupError::RejectedPrivateKey) => false,
        },
{
    let chain = match parse_pem_certs(cert_pem) {
        Some(chain) => chain,
        None => return Err(TlsSetupError::UnreadableCertificates),
    };
    let keys = match parse_pem_pkcs8_keys(key_pem) {
        Some(keys) => keys,
        None => return Err(TlsSetupError::UnreadablePrivateKeys),
    };
    let ghost all = keys.deep_view();
    let ghost n = keys@.len();
    assert(all.len() == n);
    match pick_private_key(keys) {
        Some(key) => {
            proof {
                assert(all[0] == key.deep_view());
                assert(key.deep_view() =~= key@);
            }
            Ok((chain, key))
        },
        None => {
            assert(all =~= Seq::<Seq<u8>>::empty());
            Err(TlsSetupError::NoPrivateKey)
        },
    }
}

/// The server's TLS configuration, from the bytes of the certificate file and
/// of the key file: rustls's safe defaults, no client authentication, and the
/// chain and key that `tls_material` gives. When the files are read, whether
/// rustls takes the key is up to rustls (see `single_cert_config`); what holds
/// either way is stated.
pub fn load_rustls_config(cert_pem: &[u8], key_pem: &[u8]) -> (r: Result<ServerTls, TlsSetupError>)
    ensures
        match r {
            Ok(t) => {
                &&& pem_certs(cert_pem@) == Some(t.chain@)
                &&& pem_pkcs8_keys(key_pem@) is Some
                &&& pem_pkcs8_keys(key_pem@)->0.len() > 0
                &&& t.key@ == pem_pkcs8_keys(key_pem@)->0[0]
            },
            Err(TlsSetupError::UnreadableCertificates) => pem_certs(cert_pem@) is None,
            Err(TlsSetupError::UnreadablePrivateKeys) => pem_certs(cert_pem@) is Some
                && pem_pkcs8_keys(key_pem@) is None,
            Err(TlsSetupError::NoPrivateKey) => pem_certs(cert_pem@) is Some
                && pem_pkcs8_keys(key_pem@) == Some(Seq::<Seq<u8>>::empty()),
            Err(TlsSetupError::RejectedPrivateKey) => {
                &&& pem_certs(cert_pem@) is Some
                &&& pem_pkcs8_keys(key_pem@) is Some
                &&& pem_pkcs8_keys(key_pem@)->0.len() > 0
            },
        },
{
    let (chain, key) = match tls_material(cert_pem, key_pem) {
        Ok(material) => material,
        Err(e) => return Err(e),
    };
    match single_cert_config(chain, key) {
        Some(tls) => Ok(tls),
        None => Err(TlsSetupError::RejectedPrivateKey),
    }
}

} // verus!
