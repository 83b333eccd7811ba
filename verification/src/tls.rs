//! What the library takes from rustls: certificates and keys in PEM and DER,
//! root stores, and the two sides' configurations.
use std::sync::Arc;
use tokio_rustls::rustls::crypto::CryptoProvider;
use tokio_rustls::rustls::pki_types::{
    CertificateDer, PrivateKeyDer, PrivatePkcs1KeyDer, PrivatePkcs8KeyDer, PrivateSec1KeyDer,
    ServerName,
};
use tokio_rustls::rustls::server::WebPkiClientVerifier;
use tokio_rustls::rustls::{ClientConfig, RootCertStore, ServerConfig};
use vstd::prelude::*;

verus! {

/// `rustls::pki_types::CertificateDer`, the bytes of one certificate.
#[verifier::external_type_specification]
#[verifier::external_body]
pub struct ExCertificateDer<'a>(CertificateDer<'a>);

/// `rustls::RootCertStore`, a list of trust anchors.
#[verifier::external_type_specification]
#[verifier::external_body]
pub struct ExRootCertStore(RootCertStore);

/// `rustls::ClientConfig`. Nothing is known of a value of it.
#[verifier::external_type_specification]
#[verifier::external_body]
pub struct ExClientConfig(ClientConfig);

/// `rustls::ServerConfig`. Nothing is known of a value of it.
#[verifier::external_type_specification]
#[verifier::external_body]
pub struct ExServerConfig(ServerConfig);

/// `rustls::crypto::CryptoProvider`. Nothing is known of a value of it.
#[verifier::external_type_specification]
#[verifier::external_body]
pub struct ExCryptoProvider(CryptoProvider);

/// `rustls::Error`. Nothing is known of a value of it.
#[verifier::external_type_specification]
#[verifier::external_body]
pub struct ExTlsError(tokio_rustls::rustls::Error);

/// A trust anchor: the subject, the public key and the name constraints, each
/// in DER.
pub type Anchor = (Seq<u8>, Seq<u8>, Option<Seq<u8>>);

/// The bytes that a certificate holds.
pub uninterp spec fn certificate_bytes(certificate: CertificateDer<'static>) -> Seq<u8>;

/// The anchors that a root store holds, in order.
pub uninterp spec fn root_anchors(roots: RootCertStore) -> Seq<Anchor>;

/// What `rustls_pemfile::certs` reads from a PEM file: for each certificate
/// section its contents, or `None` where a section is malformed.
pub uninterp spec fn pem_certificates(pem: Seq<u8>) -> Seq<Option<Seq<u8>>>;

/// The trust anchor that a root store makes of a certificate, or `None` where
/// it skips the certificate.
pub uninterp spec fn trust_anchor(certificate: Seq<u8>) -> Option<Anchor>;

/// What `ServerName::try_from` makes of a name: its kind, and the name in
/// canonical form.
pub uninterp spec fn server_name(name: Seq<char>) -> Option<(PeerKind, Seq<char>)>;

/// The contents of a list of byte strings.
pub open spec fn contents(list: Seq<Vec<u8>>) -> Seq<Seq<u8>> {
    list.map_values(|bytes: Vec<u8>| bytes@)
}

/// The contents of a list of byte strings of which some are missing.
pub open spec fn optional_contents(list: Seq<Option<Vec<u8>>>) -> Seq<Option<Seq<u8>>> {
    list.map_values(
        |bytes: Option<Vec<u8>>|
            match bytes {
                Some(bytes) => Some(bytes@),
                None => None,
            },
    )
}

/// The contents of a list of certificates.
pub open spec fn certificate_contents(list: Seq<CertificateDer<'static>>) -> Seq<Seq<u8>> {
    list.map_values(|certificate: CertificateDer<'static>| certificate_bytes(certificate))
}

/// What is there of a list of which some is missing, in order.
pub open spec fn present<T>(list: Seq<Option<T>>) -> Seq<T>
    decreases list.len(),
{
    if list.len() == 0 {
        seq![]
    } else {
        match list.last() {
            Some(item) => present(list.drop_last()).push(item),
            None => present(list.drop_last()),
        }
    }
}

/// Nothing of the list is missing.
pub open spec fn complete<T>(list: Seq<Option<T>>) -> bool {
    forall|i: int| 0 <= i < list.len() ==> #[trigger] list[i] is Some
}

/// What is there of a list is no longer than the list, and as long just if
/// nothing is missing: then the two agree item by item.
pub proof fn lemma_present<T>(list: Seq<Option<T>>)
    ensures
        present(list).len() <= list.len(),
        present(list).len() == list.len() <==> complete(list),
        complete(list) ==> forall|i: int|
            0 <= i < list.len() ==> Some(#[trigger] present(list)[i]) == list[i],
    decreases list.len(),
{
    if list.len() > 0 {
        let before = list.drop_last();
        lemma_present(before);
        assert forall|i: int| 0 <= i < before.len() implies before[i] == #[trigger] list[i] by {}
        if complete(before) && list.last() is Some {
            assert(complete(list));
        }
        if complete(list) {
            assert forall|i: int| 0 <= i < before.len() implies #[trigger] before[i] is Some by {
                assert(list[i] is Some);
            }
        }
    }
}

/// What a root store makes of each of `certificates`.
pub open spec fn anchors_of(certificates: Seq<Seq<u8>>) -> Seq<Option<Anchor>> {
    certificates.map_values(|certificate: Seq<u8>| trust_anchor(certificate))
}

/// How a server is named.
#[derive(Copy, Clone, Debug, PartialEq, Eq, Structural)]
pub enum PeerKind {
    Dns,
    Ip,
}

/// A private key, by its encoding.
#[derive(Debug)]
pub enum PrivateKey {
    Pkcs1(Vec<u8>),
    Sec1(Vec<u8>),
    Pkcs8(Vec<u8>),
}

/// The encoding of a private key.
pub enum KeyEncoding {
    Pkcs1,
    Sec1,
    Pkcs8,
}

impl PrivateKey {
    pub open spec fn encoding(&self) -> KeyEncoding {
        match self {
            PrivateKey::Pkcs1(_) => KeyEncoding::Pkcs1,
            PrivateKey::Sec1(_) => KeyEncoding::Sec1,
            PrivateKey::Pkcs8(_) => KeyEncoding::Pkcs8,
        }
    }

    pub open spec fn der(&self) -> Seq<u8> {
        match self {
            PrivateKey::Pkcs1(der) => der@,
            PrivateKey::Sec1(der) => der@,
            PrivateKey::Pkcs8(der) => der@,
        }
    }
}

/// The length of the header of the outermost DER value: the tag, the first
/// length byte, and as many more as that one announces.
pub open spec fn header_len(der: Seq<u8>) -> int {
    if der[1] < 128 {
        2
    } else {
        2 + (der[1] - 128)
    }
}

/// `der` is a DER sequence whose first element is a one-byte integer.
pub open spec fn has_version(der: Seq<u8>) -> bool {
    &&& der.len() >= 2
    &&& der[0] == 0x30
    &&& der.len() >= header_len(der) + 3
    &&& der[header_len(der)] == 0x02
    &&& der[header_len(der) + 1] == 0x01
}

/// The encoding that a private key is recognised by, if any: a version that a
/// further sequence follows is PKCS #8, else version 0 is PKCS #1 and version
/// 1 is SEC1.
pub open spec fn key_encoding(der: Seq<u8>) -> Option<KeyEncoding> {
    let at = header_len(der) + 2;
    if !has_version(der) {
        None
    } else if der.len() > at + 1 && der[at + 1] == 0x30 {
        Some(KeyEncoding::Pkcs8)
    } else if der[at] == 0 {
        Some(KeyEncoding::Pkcs1)
    } else if der[at] == 1 {
        Some(KeyEncoding::Sec1)
    } else {
        None
    }
}

/// `rustls_pemfile::certs`, collected. Each item that it yields is the
/// contents of a certificate section, or an error where a section is
/// malformed; which they are is named, not spelled out.
#[verifier::external_body]
pub(crate) fn read_certificates(pem: &[u8]) -> (certificates: Vec<Option<Vec<u8>>>)
    ensures
        optional_contents(certificates@) == pem_certificates(pem@),
{
    let mut reader = pem;
    rustls_pemfile::certs(&mut reader)
        .map(|certificate| certificate.map(|der| der.as_ref().to_vec()).ok())
        .collect()
}

/// `CertificateDer::from`, which takes the bytes as they are.
#[verifier::external_body]
pub(crate) fn certificate_der(bytes: Vec<u8>) -> (certificate: CertificateDer<'static>)
    ensures
        certificate_bytes(certificate) == bytes@,
{
    CertificateDer::from(bytes)
}

/// `PrivateKeyDer::try_from`, which keeps the bytes as they are and looks only
/// at how they begin.
#[verifier::external_body]
pub(crate) fn private_key_der(der: Vec<u8>) -> (key: Option<PrivateKey>)
    ensures
        match key {
            Some(key) => key_encoding(der@) == Some(key.encoding()) && key.der() == der@,
            None => key_encoding(der@) is None,
        },
{
    match PrivateKeyDer::try_from(der) {
        Ok(PrivateKeyDer::Pkcs1(key)) => Some(PrivateKey::Pkcs1(key.secret_pkcs1_der().to_vec())),
        Ok(PrivateKeyDer::Sec1(key)) => Some(PrivateKey::Sec1(key.secret_sec1_der().to_vec())),
        Ok(PrivateKeyDer::Pkcs8(key)) => Some(PrivateKey::Pkcs8(key.secret_pkcs8_der().to_vec())),
        _ => None,
    }
}

/// `ServerName::try_from`. Which names it accepts is named, not spelled out; a
/// DNS name is kept as it is.
#[verifier::external_body]
pub(crate) fn parse_server_name(name: &str) -> (parsed: Option<(PeerKind, String)>)
    ensures
        match parsed {
            Some((kind, text)) => {
                &&& server_name(name@) == Some((kind, text@))
                &&& kind == PeerKind::Dns ==> text@ == name@
            },
            None => server_name(name@) is None,
        },
{
    match ServerName::try_from(name) {
        Ok(ServerName::DnsName(dns)) => Some((PeerKind::Dns, dns.as_ref().to_string())),
        Ok(ip) => Some((PeerKind::Ip, ip.to_str().into_owned())),
        Err(_) => None,
    }
}

/// `RootCertStore::empty`.
#[verifier::external_body]
pub(crate) fn empty_root_store() -> (roots: RootCertStore)
    ensures
        root_anchors(roots) == Seq::<Anchor>::empty(),
{
    RootCertStore::empty()
}

/// `RootCertStore::add_parsable_certificates`. It appends the anchors of those
/// certificates that it can make anchors of, and counts these and the others.
/// What anchor it makes of a certificate is named, not spelled out.
#[verifier::external_body]
pub(crate) fn add_parsable_certificates(
    roots: &mut RootCertStore,
    certificates: Vec<CertificateDer<'static>>,
) -> (counts: (usize, usize))
    ensures
        root_anchors(*final(roots)) == root_anchors(*old(roots)) + present(
            certificate_contents(certificates@).map_values(|der: Seq<u8>| trust_anchor(der)),
        ),
        root_anchors(*final(roots)).len() == root_anchors(*old(roots)).len() + counts.0,
        counts.0 + counts.1 == certificates@.len(),
{
    roots.add_parsable_certificates(certificates)
}

/// Whether a client has to show a certificate. One that is shown is verified
/// either way.
#[derive(Copy, Clone, Debug, PartialEq, Eq, Structural)]
pub enum ClientAuth {
    Optional,
    Required,
}

/// A certificate chain, and the key of its first certificate.
pub type Credentials = (Vec<CertificateDer<'static>>, PrivateKey);

/// `ClientConfig::builder_with_provider` and the builder's steps to a client
/// that trusts `roots` and shows `own`, or no certificate if there is none. They
/// fail where the provider has no usable cipher suites or key exchange groups,
/// or does not take the key, or the key is not that of the first certificate.
/// Which of these holds is for the provider's own parts to say, and a
/// configuration shows nothing of how it was made: so nothing is claimed of the
/// result.
#[verifier::external_body]
pub(crate) fn client_config(
    provider: &Arc<CryptoProvider>,
    roots: &RootCertStore,
    own: Option<Credentials>,
) -> (config: Result<ClientConfig, tokio_rustls::rustls::Error>) {
    let builder = ClientConfig::builder_with_provider(provider.clone())
        .with_safe_default_protocol_versions()?
        .with_root_certificates(roots.clone());
    let (chain, key) = match own {
        None => return Ok(builder.with_no_client_auth()),
        Some((chain, PrivateKey::Pkcs1(der))) => (chain, PrivatePkcs1KeyDer::from(der).into()),
        Some((chain, PrivateKey::Sec1(der))) => (chain, PrivateSec1KeyDer::from(der).into()),
        Some((chain, PrivateKey::Pkcs8(der))) => (chain, PrivatePkcs8KeyDer::from(der).into()),
    };
    builder.with_client_auth_cert(chain, key)
}

/// `ServerConfig::builder_with_provider`, `WebPkiClientVerifier` and their
/// builders' steps to a server that shows `own`, and that verifies a client's
/// certificate against `roots`, letting in a client without one just if `auth`
/// says that it is optional. The verifier needs an anchor; the rest fails where
/// the provider is unusable, or does not take the key, or the key is not that
/// of the first certificate. Which keys it takes is for the provider's own parts
/// to say, and a configuration shows nothing of how it was made: so nothing is
/// claimed of the result.
#[verifier::external_body]
pub(crate) fn server_config(
    provider: &Arc<CryptoProvider>,
    roots: &RootCertStore,
    auth: ClientAuth,
    own: Credentials,
) -> (config: Result<ServerConfig, tokio_rustls::rustls::Error>)
    requires
        root_anchors(*roots).len() > 0,
{
    let (chain, key) = match own {
        (chain, PrivateKey::Pkcs1(der)) => (chain, PrivatePkcs1KeyDer::from(der).into()),
        (chain, PrivateKey::Sec1(der)) => (chain, PrivateSec1KeyDer::from(der).into()),
        (chain, PrivateKey::Pkcs8(der)) => (chain, PrivatePkcs8KeyDer::from(der).into()),
    };
    let roots = Arc::new(roots.clone());
    let verifier = WebPkiClientVerifier::builder_with_provider(roots, provider.clone());
    let verifier = match auth {
        ClientAuth::Optional => verifier.allow_unauthenticated(),
        ClientAuth::Required => verifier,
    }.build().expect("there is an anchor");
    ServerConfig::builder_with_provider(provider.clone())
        .with_safe_default_protocol_versions()?
        .with_client_cert_verifier(verifier)
        .with_single_cert(chain, key)
}

} // verus!
