use linkerd_support::certificates::{Certificates, InvalidPem};
use linkerd_support::controller::{
    answer, Certify, CertifyResponse, Code, Controller, Reply, Timestamp,
};
use linkerd_support::identity::{
    check_files, identity_paths, trusted_roots, AnchorError, ConfigError, EnvVar, FileError,
    Identity, IdentityFiles, TestEnv,
};
use linkerd_support::tls::PrivateKey;
use std::sync::Arc;
use std::time::Duration;
use tokio_rustls::rustls::crypto::CryptoProvider;
use tokio_rustls::rustls::pki_types::{ServerName, UnixTime};
use tokio_rustls::rustls::time_provider::TimeProvider;
use tokio_rustls::rustls::{ClientConnection, ServerConnection};

const CA: &str = "\
-----BEGIN CERTIFICATE-----\n\
MIIBfDCCASGgAwIBAgIUKbzNf+9nVv2jtV0FlNgzWXoc4uMwCgYIKoZIzj0EAwIw\n\
EjEQMA4GA1UEAwwHdGVzdCBjYTAgFw0yNjExMTQyMzQ0MDRaGA8yMTI2MTAyMTIz\n\
NDQwNFowEjEQMA4GA1UEAwwHdGVzdCBjYTBZMBMGByqGSM49AgEGCCqGSM49AwEH\n\
A0IABJN/sroqroGKWNqzS15nlJ6cBXqNVI+AHtl5w6LZBoajXau3vx98iENIInW/\n\
z5K88uCscU2c20KUj+9BwVIVsYyjUzBRMB0GA1UdDgQWBBQy6RfCFKKPcQy5BXhS\n\
0I6HTRIg2DAfBgNVHSMEGDAWgBQy6RfCFKKPcQy5BXhS0I6HTRIg2DAPBgNVHRMB\n\
Af8EBTADAQH/MAoGCCqGSM49BAMCA0kAMEYCIQDqHnjRe3YdDGbYLOjMT70gV/ya\n\
JSIvzpA8GhUCzJss4AIhAMWsfrvBDz+PeiGVIDmcS0hWvQ6MbooiQb14lGWDapRO\n\
-----END CERTIFICATE-----\n\
";

const LEAF: &str = "\
-----BEGIN CERTIFICATE-----\n\
MIIBqTCCAVCgAwIBAgIUeNhpxpEn2bNuV7b2SwH11h/0PKkwCgYIKoZIzj0EAwIw\n\
EjEQMA4GA1UEAwwHdGVzdCBjYTAgFw0yNjExMTQyMzQ0MDRaGA8yMTI2MTAyMTIz\n\
NDQwNFowDjEMMAoGA1UEAwwDZm9vMFkwEwYHKoZIzj0CAQYIKoZIzj0DAQcDQgAE\n\
gDojeywrFRC30rquyuWvQOxQ5+7p+ft925yrOJnfjIcuyU5aAwMFMFqdmq/uQa+F\n\
5y2hGz2KDS2kuVTfPY8Vt6OBhTCBgjBABgNVHREEOTA3gjVmb28ubnMxLnNlcnZp\n\
Y2VhY2NvdW50LmlkZW50aXR5LmxpbmtlcmQuY2x1c3Rlci5sb2NhbDAdBgNVHQ4E\n\
FgQUpoM0gGiuf48xDBd9T/JEBPGpdywwHwYDVR0jBBgwFoAUMukXwhSij3EMuQV4\n\
UtCOh00SINgwCgYIKoZIzj0EAwIDRwAwRAIgea59FjalGTrYDPZ6KwEpa9JYYJfY\n\
TIG4GfQ87BoRGoYCIFY1+FSCTPYaDZTqy5hy0xJ7AkIGZo0h/EJwHzOEPJt1\n\
-----END CERTIFICATE-----\n\
";

const BROKEN: &str = "-----BEGIN CERTIFICATE-----\n!!!!\n-----END CERTIFICATE-----\n";

/// A well-formed section whose contents are no certificate.
const NO_CERTIFICATE: &str = "-----BEGIN CERTIFICATE-----\nAQID\n-----END CERTIFICATE-----\n";

const OTHER_SECTION: &str = "-----BEGIN SOMETHING-----\nAQID\n-----END SOMETHING-----\n";

const KEY: [u8; 138] = [
    0x30, 0x81, 0x87, 0x02, 0x01, 0x00, 0x30, 0x13, 0x06, 0x07, 0x2a, 0x86,
    0x48, 0xce, 0x3d, 0x02, 0x01, 0x06, 0x08, 0x2a, 0x86, 0x48, 0xce, 0x3d,
    0x03, 0x01, 0x07, 0x04, 0x6d, 0x30, 0x6b, 0x02, 0x01, 0x01, 0x04, 0x20,
    0x27, 0x72, 0x72, 0x33, 0x3a, 0x9d, 0x1d, 0xe5, 0xfd, 0xbb, 0xd0, 0x16,
    0x3d, 0x19, 0x91, 0xe3, 0xe0, 0x75, 0x97, 0xcf, 0xa3, 0x89, 0x04, 0x5f,
    0x1b, 0x98, 0x26, 0xbc, 0xe4, 0x0d, 0xcb, 0x4d, 0xa1, 0x44, 0x03, 0x42,
    0x00, 0x04, 0x80, 0x3a, 0x23, 0x7b, 0x2c, 0x2b, 0x15, 0x10, 0xb7, 0xd2,
    0xba, 0xae, 0xca, 0xe5, 0xaf, 0x40, 0xec, 0x50, 0xe7, 0xee, 0xe9, 0xf9,
    0xfb, 0x7d, 0xdb, 0x9c, 0xab, 0x38, 0x99, 0xdf, 0x8c, 0x87, 0x2e, 0xc9,
    0x4e, 0x5a, 0x03, 0x03, 0x05, 0x30, 0x5a, 0x9d, 0x9a, 0xaf, 0xee, 0x41,
    0xaf, 0x85, 0xe7, 0x2d, 0xa1, 0x1b, 0x3d, 0x8a, 0x0d, 0x2d, 0xa4, 0xb9,
    0x54, 0xdf, 0x3d, 0x8f, 0x15, 0xb7,
];

/// The subject of the CA's certificate.
const SUBJECT: [u8; 18] = [
    0x31, 0x10, 0x30, 0x0e, 0x06, 0x03, 0x55, 0x04, 0x03, 0x0c, 0x07, b't', b'e', b's', b't', b' ',
    b'c', b'a',
];

fn provider() -> Arc<CryptoProvider> {
    Arc::new(tokio_rustls::rustls::crypto::ring::default_provider())
}

fn files() -> IdentityFiles {
    IdentityFiles {
        dir: "/data/foo".to_string(),
        token: "/data/foo/token.txt".to_string(),
        trust_anchors: CA.to_string(),
        certificates: format!("{LEAF}{CA}").into_bytes(),
        key: KEY.to_vec(),
    }
}

#[test]
fn loads_a_leaf_and_intermediates() {
    let pem = format!("{OTHER_SECTION}{LEAF}{CA}");
    let certs = match Certificates::try_load(pem.as_bytes()) {
        Some(Ok(certs)) => certs,
        _ => panic!("must load"),
    };
    assert_eq!(certs.leaf.len(), 429);
    assert_eq!(certs.leaf[..4], [0x30, 0x82, 0x01, 0xa9]);
    assert_eq!(certs.leaf[427..], [0x9b, 0x75]);
    assert_eq!(certs.intermediates.len(), 1);
    assert_eq!(certs.intermediates[0].len(), 384);
    assert_eq!(certs.intermediates[0][..4], [0x30, 0x82, 0x01, 0x7c]);
}

#[test]
fn load_takes_sections_as_they_are() {
    let pem = format!("{NO_CERTIFICATE}{NO_CERTIFICATE}");
    let certs = Certificates::load(pem.as_bytes()).ok().expect("must load");
    assert_eq!(certs.leaf, vec![1, 2, 3]);
    assert_eq!(certs.intermediates, vec![vec![1, 2, 3]]);
}

#[test]
fn a_malformed_section_is_refused() {
    assert!(matches!(
        Certificates::try_load(BROKEN.as_bytes()),
        Some(Err(InvalidPem))
    ));
    let pem = format!("{LEAF}{BROKEN}");
    let err = Certificates::load(pem.as_bytes()).err().expect("must fail");
    assert_eq!(err.message(), "rustls error reading certs");
}

#[test]
fn a_file_without_certificates_has_no_leaf() {
    assert!(Certificates::try_load(b"").is_none());
    assert!(Certificates::try_load(OTHER_SECTION.as_bytes()).is_none());
}

#[test]
fn sections_make_a_chain() {
    let certs = Certificates::from_sections(vec![Some(vec![1]), Some(vec![2, 3]), Some(vec![])])
        .ok()
        .expect("complete");
    let chain: Vec<Vec<u8>> = certs.chain().iter().map(|c| c.as_ref().to_vec()).collect();
    assert_eq!(chain, vec![vec![1], vec![2, 3], vec![]]);

    let response = certs.response();
    assert_eq!(response.leaf_certificate, vec![1]);
    assert_eq!(response.intermediate_certificates, vec![vec![2, 3], vec![]]);
    assert_eq!(response.valid_until, None);

    assert!(Certificates::from_sections(vec![Some(vec![1]), None]).is_err());
    assert!(Certificates::from_sections(vec![None]).is_err());
}

#[test]
fn trust_anchors_are_those_of_the_file() {
    let roots = trusted_roots(CA.as_bytes()).expect("valid");
    assert_eq!(roots.roots.len(), 1);
    assert_eq!(roots.roots[0].subject.as_ref(), SUBJECT);

    let both = format!("{CA}{LEAF}");
    assert_eq!(trusted_roots(both.as_bytes()).expect("valid").roots.len(), 2);
}

#[test]
fn bad_trust_anchors_are_refused() {
    assert_eq!(trusted_roots(b"").err(), Some(AnchorError::NoAnchors));
    assert_eq!(
        trusted_roots(NO_CERTIFICATE.as_bytes()).err(),
        Some(AnchorError::NoAnchors)
    );
    assert_eq!(
        trusted_roots(format!("{CA}{BROKEN}").as_bytes()).err(),
        Some(AnchorError::InvalidPem)
    );
    assert_eq!(
        trusted_roots(format!("{CA}{NO_CERTIFICATE}").as_bytes()).err(),
        Some(AnchorError::InvalidCertificate)
    );
}

#[test]
fn keys_are_told_apart_by_how_they_begin() {
    match Identity::load_key(KEY.to_vec()) {
        PrivateKey::Pkcs8(der) => assert_eq!(der, KEY.to_vec()),
        key => panic!("{key:?}"),
    }
    match Identity::load_key(vec![0x30, 0x03, 0x02, 0x01, 0x00]) {
        PrivateKey::Pkcs1(der) => assert_eq!(der, vec![0x30, 0x03, 0x02, 0x01, 0x00]),
        key => panic!("{key:?}"),
    }
    match Identity::load_key(vec![0x30, 0x81, 0x03, 0x02, 0x01, 0x01, 0x04]) {
        PrivateKey::Sec1(der) => assert_eq!(der.len(), 7),
        key => panic!("{key:?}"),
    }
}

#[test]
fn bytes_that_are_no_key_are_refused() {
    for der in [
        vec![],
        vec![0x30],
        vec![0x31, 0x03, 0x02, 0x01, 0x00],
        vec![0x30, 0x02, 0x02, 0x01],
        vec![0x30, 0x83, 0x03],
        vec![0x30, 0x03, 0x02, 0x01, 0x02],
    ] {
        let mut files = files();
        files.key = der;
        assert_eq!(check_files(&files), Err(FileError::InvalidKey));
    }
}

#[test]
fn files_are_looked_at_in_order() {
    let mut files = files();
    assert_eq!(check_files(&files), Ok(()));
    files.trust_anchors = String::new();
    assert_eq!(
        check_files(&files),
        Err(FileError::TrustAnchors(AnchorError::NoAnchors))
    );
    files.key = Vec::new();
    assert_eq!(check_files(&files), Err(FileError::InvalidKey));
    files.certificates = BROKEN.as_bytes().to_vec();
    assert_eq!(check_files(&files), Err(FileError::InvalidCertificates));
    files.certificates = Vec::new();
    assert_eq!(check_files(&files), Err(FileError::NoLeaf));
    assert!(matches!(
        Identity::try_new(files, "foo".to_string(), &provider()),
        Err(FileError::NoLeaf)
    ));
}

#[test]
fn an_identity_is_made_of_its_files() {
    let identity = match Identity::try_new(files(), "foo.ns1".to_string(), &provider()) {
        Ok(Ok(identity)) => identity,
        _ => panic!("must be made"),
    };
    let env = &identity.env;
    let get = |var| env.get(var).map(|value| value.as_str());
    assert_eq!(get(EnvVar::IdentityDir), Some("/data/foo"));
    assert_eq!(get(EnvVar::IdentityTokenFile), Some("/data/foo/token.txt"));
    assert_eq!(get(EnvVar::IdentityTrustAnchors), Some(CA));
    assert_eq!(get(EnvVar::PolicyWorkload), Some("test:foo.ns1"));
    assert_eq!(get(EnvVar::IdentityLocalName), Some("foo.ns1"));
    assert_eq!(identity.certify_rsp.leaf_certificate.len(), 429);
    assert_eq!(identity.certify_rsp.intermediate_certificates.len(), 1);
    assert_eq!(identity.certify_rsp.valid_until, None);
    // The client has no certificate of its own.
    assert!(!identity.client_config.client_auth_cert_resolver.has_certs());
    assert!(identity.client_config.enable_sni);
    assert!(identity.server_config.alpn_protocols.is_empty());
}

#[test]
fn a_key_of_another_certificate_is_refused() {
    let mut files = files();
    files.certificates = CA.as_bytes().to_vec();
    assert!(matches!(
        Identity::try_new(files, "foo".to_string(), &provider()),
        Ok(Err(ConfigError::Server))
    ));
}

#[test]
fn a_provider_without_cipher_suites_is_refused() {
    let mut provider = tokio_rustls::rustls::crypto::ring::default_provider();
    provider.cipher_suites.clear();
    assert!(matches!(
        Identity::try_new(files(), "foo".to_string(), &Arc::new(provider)),
        Ok(Err(ConfigError::Client))
    ));
}

#[test]
fn an_identity_lies_in_its_directory() {
    let paths = identity_paths("foo-ns1");
    assert_eq!(paths.trust_anchors, ["src", "data", "ca1.pem"]);
    assert_eq!(paths.dir, ["src", "data", "foo-ns1"]);
    assert_eq!(paths.token, ["src", "data", "foo-ns1", "token.txt"]);
    assert_eq!(paths.certificates, ["src", "data", "foo-ns1", "ca1-cert.pem"]);
    assert_eq!(paths.key, ["src", "data", "foo-ns1", "key.p8"]);
}

#[test]
fn a_variable_keeps_its_last_value() {
    let mut env = TestEnv::default();
    assert_eq!(env.get(EnvVar::IdentityDir), None);
    env.put(EnvVar::IdentityDir, "a".to_string());
    env.put(EnvVar::PolicyWorkload, "b".to_string());
    env.put(EnvVar::IdentityDir, "c".to_string());
    assert_eq!(env.get(EnvVar::IdentityDir), Some(&"c".to_string()));
    assert_eq!(env.get(EnvVar::PolicyWorkload), Some(&"b".to_string()));
    assert_eq!(env.get(EnvVar::IdentityLocalName), None);
}

fn response(leaf: u8) -> CertifyResponse {
    CertifyResponse {
        leaf_certificate: vec![leaf],
        intermediate_certificates: vec![vec![7, 8]],
        valid_until: None,
    }
}

#[test]
fn the_service_answers_one_request() {
    let identity = match Identity::try_new(files(), "foo".to_string(), &provider()) {
        Ok(Ok(identity)) => identity,
        _ => panic!("must be made"),
    };
    let mut controller = identity.service::<(), ()>();
    let call = controller.take_call().ok().expect("a call");
    let issued = match call.reply(Timestamp { seconds: 1000, nanos: 5 }) {
        Reply::Response(response) => response,
        _ => panic!("must be issued"),
    };
    assert_eq!(issued.leaf_certificate, identity.certify_rsp.leaf_certificate);
    assert_eq!(
        issued.intermediate_certificates,
        identity.certify_rsp.intermediate_certificates
    );
    assert_eq!(issued.valid_until, Some(Timestamp { seconds: 1666, nanos: 5 }));
    assert!(controller.take_call().is_err());
}

#[test]
fn calls_are_taken_in_the_order_they_were_registered() {
    let mut controller = Controller::default()
        .certify("first")
        .certify_async(2)
        .issue(response(3))
        .certify("fourth");
    assert!(matches!(controller.take_call(), Ok(Certify::Call("first"))));
    assert!(matches!(controller.take_call(), Ok(Certify::CallAsync(2))));
    controller = controller.certify("fifth");
    match controller.take_call() {
        Ok(Certify::Issue(r)) => assert_eq!(r.leaf_certificate, vec![3]),
        _ => panic!("must be issued"),
    }
    assert!(matches!(controller.take_call(), Ok(Certify::Call("fourth"))));
    assert!(matches!(controller.take_call(), Ok(Certify::Call("fifth"))));
    let status = controller.take_call().err().expect("none is left");
    assert_eq!(status.code, Code::Unavailable);
    assert_eq!(status.message, "unit test identity service has no results");
}

#[test]
fn a_failed_call_is_an_internal_error() {
    let ok = answer(Ok(response(1))).ok().expect("a response");
    assert_eq!(ok.leaf_certificate, vec![1]);
    assert_eq!(ok.intermediate_certificates, vec![vec![7, 8]]);
    let status = answer(Err("lol".to_string())).err().expect("a refusal");
    assert_eq!(status.code, Code::Internal);
    assert_eq!(status.message, "lol");
}

#[test]
fn only_what_is_issued_depends_on_the_time() {
    let now = Timestamp { seconds: -1, nanos: 0 };
    let late = Timestamp { seconds: i64::MAX, nanos: 0 };
    match Certify::<u8, u8>::Issue(response(3)).reply(now) {
        Reply::Response(r) => {
            assert_eq!(r.leaf_certificate, vec![3]);
            assert_eq!(r.intermediate_certificates, vec![vec![7, 8]]);
            assert_eq!(r.valid_until, Some(Timestamp { seconds: 665, nanos: 0 }));
        }
        _ => panic!("must be issued"),
    }
    assert!(matches!(Certify::<u8, u8>::Call(1).reply(late), Reply::Call(1)));
    assert!(matches!(Certify::<u8, u8>::CallAsync(2).reply(late), Reply::CallAsync(2)));
}

#[test]
fn registering_and_requests_take_turns() {
    let mut controller: Controller<u8, u8> = Controller::default();
    assert!(controller.take_call().is_err());
    controller = controller.certify(1).certify(2);
    assert!(matches!(controller.take_call(), Ok(Certify::Call(1))));
    controller = controller.certify(3);
    assert!(matches!(controller.take_call(), Ok(Certify::Call(2))));
    assert!(matches!(controller.take_call(), Ok(Certify::Call(3))));
    assert!(controller.take_call().is_err());
    controller = controller.certify(4);
    assert!(matches!(controller.take_call(), Ok(Certify::Call(4))));
}

/// A time at which the certificates are valid.
#[derive(Debug)]
struct WhileValid;

impl TimeProvider for WhileValid {
    fn current_time(&self) -> Option<UnixTime> {
        Some(UnixTime::since_unix_epoch(Duration::from_secs(2_000_000_000)))
    }
}

#[test]
fn a_client_without_a_certificate_is_let_in() {
    let identity = match Identity::try_new(files(), "foo".to_string(), &provider()) {
        Ok(Ok(identity)) => identity,
        _ => panic!("must be made"),
    };
    let mut config = (*identity.client_config).clone();
    config.time_provider = Arc::new(WhileValid);
    let name = ServerName::try_from("foo.ns1.serviceaccount.identity.linkerd.cluster.local")
        .expect("a name");
    let mut client = ClientConnection::new(Arc::new(config), name).expect("a client");
    let mut server = ServerConnection::new(identity.server_config.clone()).expect("a server");
    for _ in 0..8 {
        let mut bytes = Vec::new();
        while client.wants_write() {
            client.write_tls(&mut bytes).expect("written");
        }
        let mut rest = bytes.as_slice();
        while !rest.is_empty() {
            server.read_tls(&mut rest).expect("read");
            server.process_new_packets().expect("accepted");
        }
        let mut bytes = Vec::new();
        while server.wants_write() {
            server.write_tls(&mut bytes).expect("written");
        }
        let mut rest = bytes.as_slice();
        while !rest.is_empty() {
            client.read_tls(&mut rest).expect("read");
            client.process_new_packets().expect("accepted");
        }
    }
    assert!(!client.is_handshaking());
    assert!(!server.is_handshaking());
    assert!(server.peer_certificates().is_none());
    let shown = client.peer_certificates().expect("the server's chain");
    assert_eq!(shown[0].as_ref(), identity.certify_rsp.leaf_certificate.as_slice());
    assert_eq!(shown.len(), 2);
}
