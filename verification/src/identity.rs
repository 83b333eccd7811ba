//! The identity that a proxy under test is given.
use std::sync::Arc;
use tokio_rustls::rustls::crypto::CryptoProvider;
use tokio_rustls::rustls::pki_types::CertificateDer;
use tokio_rustls::rustls::{ClientConfig, RootCertStore, ServerConfig};
use vstd::prelude::*;
use vstd::utf8::encode_utf8;

use crate::certificates::Certificates;
use crate::controller::{
    expiry, replies, take_next, Certify, CertifyResponse, Controller, Reply, Timestamp,
};
use crate::tls::{
    add_parsable_certificates, anchors_of, certificate_contents, certificate_der, client_config,
    complete, empty_root_store, key_encoding, lemma_present, optional_contents,
    pem_certificates, present, private_key_der, read_certificates, root_anchors, server_config,
    Anchor, ClientAuth, Credentials, PrivateKey,
};

verus! {

/// A setting of the proxy's environment.
#[derive(Copy, Clone, Debug, PartialEq, Eq, Structural)]
pub enum EnvVar {
    IdentityDir,
    IdentityTokenFile,
    IdentityTrustAnchors,
    PolicyWorkload,
    IdentityLocalName,
}

/// The environment that a proxy is started with.
#[derive(Debug)]
pub struct TestEnv {
    identity_dir: Option<String>,
    identity_token_file: Option<String>,
    identity_trust_anchors: Option<String>,
    policy_workload: Option<String>,
    identity_local_name: Option<String>,
}

spec fn text(value: Option<String>) -> Option<Seq<char>> {
    match value {
        Some(value) => Some(value@),
        None => None,
    }
}

impl TestEnv {
    /// What a variable is set to.
    pub closed spec fn value(&self, var: EnvVar) -> Option<Seq<char>> {
        match var {
            EnvVar::IdentityDir => text(self.identity_dir),
            EnvVar::IdentityTokenFile => text(self.identity_token_file),
            EnvVar::IdentityTrustAnchors => text(self.identity_trust_anchors),
            EnvVar::PolicyWorkload => text(self.policy_workload),
            EnvVar::IdentityLocalName => text(self.identity_local_name),
        }
    }

    /// Sets a variable.
    pub fn put(&mut self, var: EnvVar, value: String)
        ensures
            final(self).value(var) == Some(value@),
            forall|other: EnvVar|
                other != var ==> #[trigger] final(self).value(other) == old(self).value(other),
    {
        let value = Some(value);
        match var {
            EnvVar::IdentityDir => self.identity_dir = value,
            EnvVar::IdentityTokenFile => self.identity_token_file = value,
            EnvVar::IdentityTrustAnchors => self.identity_trust_anchors = value,
            EnvVar::PolicyWorkload => self.policy_workload = value,
            EnvVar::IdentityLocalName => self.identity_local_name = value,
        }
    }

    /// What a variable is set to.
    pub fn get(&self, var: EnvVar) -> (value: Option<&String>)
        ensures
            match value {
                Some(value) => self.value(var) == Some(value@),
                None => self.value(var) is None,
            },
    {
        match var {
            EnvVar::IdentityDir => self.identity_dir.as_ref(),
            EnvVar::IdentityTokenFile => self.identity_token_file.as_ref(),
            EnvVar::IdentityTrustAnchors => self.identity_trust_anchors.as_ref(),
            EnvVar::PolicyWorkload => self.policy_workload.as_ref(),
            EnvVar::IdentityLocalName => self.identity_local_name.as_ref(),
        }
    }
}

impl Default for TestEnv {
    /// Nothing is set.
    fn default() -> (env: Self)
        ensures
            forall|var: EnvVar| #[trigger] env.value(var) is None,
    {
        TestEnv {
            identity_dir: None,
            identity_token_file: None,
            identity_trust_anchors: None,
            policy_workload: None,
            identity_local_name: None,
        }
    }
}

/// Where the files of an identity lie, each as the components of a path below
/// the directory of the package.
#[derive(Debug)]
pub struct IdentityPaths {
    pub trust_anchors: Vec<String>,
    pub dir: Vec<String>,
    pub token: Vec<String>,
    pub certificates: Vec<String>,
    pub key: Vec<String>,
}

/// The components of a path.
pub open spec fn components(path: Seq<String>) -> Seq<Seq<char>> {
    path.map_values(|component: String| component@)
}

fn data_path(file: &str) -> (path: Vec<String>)
    ensures
        components(path@) == seq!["src"@, "data"@, file@],
{
    let mut path: Vec<String> = Vec::new();
    path.push("src".to_owned());
    path.push("data".to_owned());
    path.push(file.to_owned());
    assert(components(path@) =~= seq!["src"@, "data"@, file@]);
    path
}

fn identity_path(dir: &str, file: &str) -> (path: Vec<String>)
    ensures
        components(path@) == seq!["src"@, "data"@, dir@, file@],
{
    let mut path = data_path(dir);
    let ghost before = path@;
    path.push(file.to_owned());
    assert(components(path@) =~= components(before).push(file@));
    assert(components(path@) =~= seq!["src"@, "data"@, dir@, file@]);
    path
}

/// The files of the identity that is kept in `dir`. All identities share one
/// set of trust anchors.
pub fn identity_paths(dir: &str) -> (paths: IdentityPaths)
    ensures
        components(paths.trust_anchors@) == seq!["src"@, "data"@, "ca1.pem"@],
        components(paths.dir@) == seq!["src"@, "data"@, dir@],
        components(paths.token@) == seq!["src"@, "data"@, dir@, "token.txt"@],
        components(paths.certificates@) == seq!["src"@, "data"@, dir@, "ca1-cert.pem"@],
        components(paths.key@) == seq!["src"@, "data"@, dir@, "key.p8"@],
{
    IdentityPaths {
        trust_anchors: data_path("ca1.pem"),
        dir: data_path(dir),
        token: identity_path(dir, "token.txt"),
        certificates: identity_path(dir, "ca1-cert.pem"),
        key: identity_path(dir, "key.p8"),
    }
}

/// What is known of an identity once its files have been read.
#[derive(Debug)]
pub struct IdentityFiles {
    /// The path of the identity's directory.
    pub dir: String,
    /// The path of the token file.
    pub token: String,
    /// The contents of the trust anchors' file.
    pub trust_anchors: String,
    /// The contents of the certificates' file.
    pub certificates: Vec<u8>,
    /// The contents of the key's file.
    pub key: Vec<u8>,
}

/// A PEM file of trust anchors is usable: no section is malformed, a root
/// store skips none of the certificates, and there is at least one.
pub open spec fn valid_anchors(pem: Seq<u8>) -> bool {
    &&& pem_certificates(pem).len() > 0
    &&& complete(pem_certificates(pem))
    &&& complete(anchors_of(present(pem_certificates(pem))))
}

/// The anchors of a PEM file.
pub open spec fn file_anchors(pem: Seq<u8>) -> Seq<Anchor> {
    present(anchors_of(present(pem_certificates(pem))))
}

/// Why a file of trust anchors is not usable.
#[derive(Copy, Clone, Debug, PartialEq, Eq, Structural)]
pub enum AnchorError {
    /// A section is malformed.
    InvalidPem,
    /// There is no anchor.
    NoAnchors,
    /// Not every certificate is an anchor.
    InvalidCertificate,
}

/// `error` is what is wrong with a file of trust anchors.
pub open spec fn is_anchor_error(pem: Seq<u8>, error: AnchorError) -> bool {
    match error {
        AnchorError::InvalidPem => !complete(pem_certificates(pem)),
        AnchorError::NoAnchors => complete(pem_certificates(pem)) && file_anchors(pem).len() == 0,
        AnchorError::InvalidCertificate => {
            &&& complete(pem_certificates(pem))
            &&& file_anchors(pem).len() > 0
            &&& !complete(anchors_of(present(pem_certificates(pem))))
        },
    }
}

/// Which configuration the TLS library refused to make.
#[derive(Copy, Clone, Debug, PartialEq, Eq, Structural)]
pub enum ConfigError {
    Client,
    Server,
}

/// The certificates and the key that are shown to a peer, if any.
pub open spec fn shown(own: Option<Credentials>) -> Option<(Seq<Seq<u8>>, PrivateKey)> {
    match own {
        Some((chain, key)) => Some((certificate_contents(chain@), key)),
        None => None,
    }
}

/// The TLS library was asked to make, with `provider`, the configuration of a
/// client that trusts `anchors` and shows `own`, or no certificate if that is
/// `None`, and this came of it.
pub closed spec fn client_outcome(
    provider: CryptoProvider,
    anchors: Seq<Anchor>,
    own: Option<(Seq<Seq<u8>>, PrivateKey)>,
    outcome: Option<ClientConfig>,
) -> bool {
    exists|
        given: &Arc<CryptoProvider>,
        roots: &RootCertStore,
        credentials: Option<Credentials>,
        made: Result<ClientConfig, tokio_rustls::rustls::Error>,
    |
        {
            &&& **given == provider
            &&& root_anchors(*roots) == anchors
            &&& shown(credentials) == own
            &&& #[trigger] call_ensures(client_config, (given, roots, credentials), made)
            &&& outcome == made.ok()
        }
}

/// The TLS library was asked to make, with `provider`, the configuration of a
/// server that presents `chain` with `key` and verifies clients against
/// `anchors`, with or without letting in those that show no certificate, and
/// this came of it.
pub closed spec fn server_outcome(
    provider: CryptoProvider,
    anchors: Seq<Anchor>,
    auth: ClientAuth,
    chain: Seq<Seq<u8>>,
    key: PrivateKey,
    outcome: Option<ServerConfig>,
) -> bool {
    exists|
        given: &Arc<CryptoProvider>,
        roots: &RootCertStore,
        credentials: Credentials,
        made: Result<ServerConfig, tokio_rustls::rustls::Error>,
    |
        {
            &&& **given == provider
            &&& root_anchors(*roots) == anchors
            &&& shown(Some(credentials)) == Some((chain, key))
            &&& #[trigger] call_ensures(server_config, (given, roots, auth, credentials), made)
            &&& outcome == made.ok()
        }
}

/// What the two configurations of an identity come to: both, or which of them
/// the TLS library refused. The client shows no certificate, and the server
/// lets in clients that show none. The server's configuration is asked for once
/// the client's is there.
pub open spec fn is_outcome(
    provider: CryptoProvider,
    anchors: Seq<Anchor>,
    chain: Seq<Seq<u8>>,
    key: PrivateKey,
    outcome: Result<(Arc<ClientConfig>, Arc<ServerConfig>), ConfigError>,
) -> bool {
    match outcome {
        Ok((client, server)) => {
            &&& client_outcome(provider, anchors, None, Some(*client))
            &&& server_outcome(
                provider,
                anchors,
                ClientAuth::Optional,
                chain,
                key,
                Some(*server),
            )
        },
        Err(ConfigError::Client) => client_outcome(provider, anchors, None, None),
        Err(ConfigError::Server) => {
            &&& exists|client: ClientConfig|
                #[trigger] client_outcome(provider, anchors, None, Some(client))
            &&& server_outcome(provider, anchors, ClientAuth::Optional, chain, key, None)
        },
    }
}

/// The root store of a PEM file of trust anchors.
pub fn trusted_roots(pem: &[u8]) -> (roots: Result<RootCertStore, AnchorError>)
    ensures
        roots is Ok <==> valid_anchors(pem@),
        roots matches Ok(roots) ==> root_anchors(roots) == file_anchors(pem@),
        roots matches Err(error) ==> is_anchor_error(pem@, error),
{
    let sections = read_certificates(pem);
    let ghost all = pem_certificates(pem@);
    let mut certificates: Vec<CertificateDer<'static>> = Vec::new();
    let n: usize = sections.len();
    let mut i: usize = 0;
    while i < n
        invariant
            i <= n,
            n == sections.len(),
            all == optional_contents(sections@),
            all == pem_certificates(pem@),
            certificates.len() == i,
            forall|j: int|
                0 <= j < i ==> Some(#[trigger] certificate_contents(certificates@)[j]) == all[j],
        decreases n - i,
    {
        match &sections[i] {
            Some(der) => {
                let ghost before = certificates@;
                let bytes = der.clone();
                assert(bytes@ =~= der@);
                certificates.push(certificate_der(bytes));
                assert forall|j: int| 0 <= j < i + 1 implies Some(
                    #[trigger] certificate_contents(certificates@)[j],
                ) == all[j] by {
                    if j < i {
                        assert(Some(certificate_contents(before)[j]) == all[j]);
                    }
                }
            },
            None => {
                assert(all[i as int] is None);
                return Err(AnchorError::InvalidPem);
            },
        }
        i += 1;
    }
    let ghost found = certificate_contents(certificates@);
    proof {
        assert forall|j: int| 0 <= j < all.len() implies #[trigger] all[j] is Some by {
            assert(Some(found[j]) == all[j]);
        }
        lemma_present(all);
        assert forall|j: int| 0 <= j < found.len() implies found[j] == present(all)[j] by {
            assert(Some(found[j]) == all[j]);
        }
        assert(found =~= present(all));
        lemma_present(anchors_of(found));
        assert(anchors_of(found) =~= found.map_values(
            |der: Seq<u8>| crate::tls::trust_anchor(der),
        ));
    }
    let mut roots = empty_root_store();
    let (added, skipped) = add_parsable_certificates(&mut roots, certificates);
    assert(root_anchors(roots) =~= file_anchors(pem@));
    if added == 0 {
        return Err(AnchorError::NoAnchors);
    }
    if skipped != 0 {
        return Err(AnchorError::InvalidCertificate);
    }
    Ok(roots)
}

/// What a proxy under test is given to prove who it is, and what its peers in
/// the test are given to check that.
pub struct Identity {
    pub env: TestEnv,
    pub certify_rsp: CertifyResponse,
    pub client_config: Arc<ClientConfig>,
    pub server_config: Arc<ServerConfig>,
}

/// Why the files of an identity are not usable.
#[derive(Copy, Clone, Debug, PartialEq, Eq, Structural)]
pub enum FileError {
    /// The certificates' file holds no section to be a leaf.
    NoLeaf,
    /// A section of the certificates' file is malformed.
    InvalidCertificates,
    /// The key's file is no private key.
    InvalidKey,
    /// The trust anchors' file is not usable.
    TrustAnchors(AnchorError),
}

/// The certificates' file is usable.
pub open spec fn valid_certificates(pem: Seq<u8>) -> bool {
    pem_certificates(pem).len() > 0 && complete(pem_certificates(pem))
}

/// The files of an identity are usable.
pub open spec fn valid_files(files: IdentityFiles) -> bool {
    &&& valid_certificates(files.certificates@)
    &&& key_encoding(files.key@) is Some
    &&& valid_anchors(encode_utf8(files.trust_anchors@))
}

/// `error` is what is wrong with the files of an identity: the certificates are
/// looked at first, then the key, then the trust anchors.
pub open spec fn is_file_error(files: IdentityFiles, error: FileError) -> bool {
    match error {
        FileError::NoLeaf => pem_certificates(files.certificates@).len() == 0,
        FileError::InvalidCertificates => !complete(pem_certificates(files.certificates@)),
        FileError::InvalidKey => {
            &&& valid_certificates(files.certificates@)
            &&& key_encoding(files.key@) is None
        },
        FileError::TrustAnchors(error) => {
            &&& valid_certificates(files.certificates@)
            &&& key_encoding(files.key@) is Some
            &&& is_anchor_error(encode_utf8(files.trust_anchors@), error)
        },
    }
}

/// Whether the files of an identity are usable, and if not, what is wrong.
pub fn check_files(files: &IdentityFiles) -> (checked: Result<(), FileError>)
    ensures
        checked is Ok <==> valid_files(*files),
        checked matches Err(error) ==> is_file_error(*files, error),
{
    match Certificates::try_load(files.certificates.as_slice()) {
        None => return Err(FileError::NoLeaf),
        Some(Err(_)) => return Err(FileError::InvalidCertificates),
        Some(Ok(_)) => {},
    }
    let key = files.key.clone();
    assert(key@ =~= files.key@);
    if private_key_der(key).is_none() {
        return Err(FileError::InvalidKey);
    }
    match trusted_roots(files.trust_anchors.as_str().as_bytes()) {
        Err(e) => Err(FileError::TrustAnchors(e)),
        Ok(_) => Ok(()),
    }
}

/// The workload that the policy controller knows a proxy by.
pub open spec fn workload(local_name: Seq<char>) -> Seq<char> {
    "test:"@ + local_name
}

/// The environment of a proxy with the identity of `files`.
pub open spec fn is_environment(
    env: TestEnv,
    files: IdentityFiles,
    local_name: Seq<char>,
) -> bool {
    &&& env.value(EnvVar::IdentityDir) == Some(files.dir@)
    &&& env.value(EnvVar::IdentityTokenFile) == Some(files.token@)
    &&& env.value(EnvVar::IdentityTrustAnchors) == Some(files.trust_anchors@)
    &&& env.value(EnvVar::PolicyWorkload) == Some(workload(local_name))
    &&& env.value(EnvVar::IdentityLocalName) == Some(local_name)
}

/// `key` is the private key that `der` holds.
pub open spec fn is_key(key: PrivateKey, der: Seq<u8>) -> bool {
    key.der() == der && key_encoding(der) == Some(key.encoding())
}

/// The configurations of an identity, or why there are none.
pub open spec fn configs_of(identity: Result<Identity, ConfigError>) -> Result<
    (Arc<ClientConfig>, Arc<ServerConfig>),
    ConfigError,
> {
    match identity {
        Ok(identity) => Ok((identity.client_config, identity.server_config)),
        Err(error) => Err(error),
    }
}

/// What usable files come to: an identity whose environment names the files,
/// and which hands out the certificates that its server presents, or no
/// identity if a configuration was refused.
pub open spec fn is_identity(
    provider: CryptoProvider,
    files: IdentityFiles,
    local_name: Seq<char>,
    identity: Result<Identity, ConfigError>,
) -> bool {
    let chain = present(pem_certificates(files.certificates@));
    let anchors = file_anchors(encode_utf8(files.trust_anchors@));
    &&& identity matches Ok(identity) ==> {
        &&& is_environment(identity.env, files, local_name)
        &&& identity.certify_rsp.chain() == chain
        &&& identity.certify_rsp.valid_until is None
    }
    &&& exists|key: PrivateKey| #[trigger]
        is_key(key, files.key@) && is_outcome(provider, anchors, chain, key, configs_of(identity))
}

/// One request is expected, to be answered with `response`.
pub open spec fn issues_once<F, G>(calls: Seq<Certify<F, G>>, response: CertifyResponse) -> bool {
    &&& calls.len() == 1
    &&& calls[0] matches Certify::Issue(issued)
    &&& issued.chain() == response.chain()
    &&& issued.valid_until == response.valid_until
}

/// The controller of an identity answers the first request with the identity's
/// certificates, valid for as long as is promised from when the request came,
/// and refuses every later one.
pub proof fn an_identity_is_issued_once<F, G>(
    calls: Seq<Certify<F, G>>,
    response: CertifyResponse,
    now: Timestamp,
    reply: Reply<F, G>,
)
    requires
        issues_once(calls, response),
        take_next(calls).0 matches Some(call) ==> replies(call, now, reply),
    ensures
        reply matches Reply::Response(issued) && issued.chain() == response.chain()
            && issued.valid_until == Some(expiry(now)),
        take_next(calls).1.len() == 0,
        take_next(take_next(calls).1).0 is None,
{
}

/// An outcome of a client's configuration is what a call of the TLS library
/// with just that provider, those anchors and that chain and key, or none, gave.
pub(crate) proof fn a_client_outcome_was_asked_for(
    provider: CryptoProvider,
    anchors: Seq<Anchor>,
    own: Option<(Seq<Seq<u8>>, PrivateKey)>,
    outcome: Option<ClientConfig>,
)
    requires
        client_outcome(provider, anchors, own, outcome),
    ensures
        exists|
            given: &Arc<CryptoProvider>,
            roots: &RootCertStore,
            credentials: Option<Credentials>,
            made: Result<ClientConfig, tokio_rustls::rustls::Error>,
        |
            {
                &&& #[trigger] call_ensures(client_config, (given, roots, credentials), made)
                &&& **given == provider
                &&& root_anchors(*roots) == anchors
                &&& credentials is Some <==> own is Some
                &&& own matches Some((chain, key)) ==> (credentials matches Some((list, used))
                    && used == key && certificate_contents(list@) == chain)
                &&& made is Ok <==> outcome is Some
                &&& outcome is Some ==> made->Ok_0 == outcome->0
            },
{
}

/// The same, of a server's configuration, which is asked for with or without
/// client certificates being optional.
pub(crate) proof fn a_server_outcome_was_asked_for(
    provider: CryptoProvider,
    anchors: Seq<Anchor>,
    auth: ClientAuth,
    chain: Seq<Seq<u8>>,
    key: PrivateKey,
    outcome: Option<ServerConfig>,
)
    requires
        server_outcome(provider, anchors, auth, chain, key, outcome),
    ensures
        exists|
            given: &Arc<CryptoProvider>,
            roots: &RootCertStore,
            credentials: Credentials,
            made: Result<ServerConfig, tokio_rustls::rustls::Error>,
        |
            {
                &&& #[trigger] call_ensures(server_config, (given, roots, auth, credentials), made)
                &&& **given == provider
                &&& root_anchors(*roots) == anchors
                &&& credentials.1 == key
                &&& certificate_contents(credentials.0@) == chain
                &&& made is Ok <==> outcome is Some
                &&& outcome is Some ==> made->Ok_0 == outcome->0
            },
{
}

impl Identity {
    /// Takes a private key for what its first bytes say it is.
    pub fn load_key(p8: Vec<u8>) -> (key: PrivateKey)
        requires
            key_encoding(p8@) is Some,
        ensures
            is_key(key, p8@),
    {
        private_key_der(p8).unwrap()
    }

    /// The configurations of the test's own client and server: the client
    /// trusts the anchors and has no certificate of its own; the server presents
    /// the certificates, and verifies a client's certificate against the anchors
    /// if the client has one.
    pub fn configs(
        trust_anchors: &str,
        certs: &Certificates,
        key: PrivateKey,
        provider: &Arc<CryptoProvider>,
    ) -> (configs: Result<(Arc<ClientConfig>, Arc<ServerConfig>), ConfigError>)
        requires
            valid_anchors(encode_utf8(trust_anchors@)),
        ensures
            is_outcome(
                **provider,
                file_anchors(encode_utf8(trust_anchors@)),
                certs@,
                key,
                configs,
            ),
    {
        let roots = trusted_roots(trust_anchors.as_bytes()).unwrap();
        proof {
            let all = pem_certificates(encode_utf8(trust_anchors@));
            lemma_present(all);
            lemma_present(anchors_of(present(all)));
        }
        let client = match client_config(provider, &roots, None) {
            Ok(client) => client,
            Err(_) => return Err(ConfigError::Client),
        };
        assert(client_outcome(
            **provider,
            file_anchors(encode_utf8(trust_anchors@)),
            None,
            Some(client),
        ));
        let own = (certs.chain(), key);
        let server = match server_config(provider, &roots, ClientAuth::Optional, own) {
            Ok(server) => server,
            Err(_) => return Err(ConfigError::Server),
        };
        Ok((Arc::new(client), Arc::new(server)))
    }

    /// The identity that `files` make, under the name `local_name`.
    pub fn new(files: IdentityFiles, local_name: String, provider: &Arc<CryptoProvider>) -> (identity:
        Result<Identity, ConfigError>)
        requires
            valid_files(files),
        ensures
            is_identity(**provider, files, local_name@, identity),
    {
        let certs = match Certificates::load(files.certificates.as_slice()) {
            Ok(certs) => certs,
            Err(_) => {
                assert(false);
                return Err(ConfigError::Server);
            },
        };
        let key = Identity::load_key(files.key);
        let ghost loaded = key;
        let certify_rsp = certs.response();
        let configs = Identity::configs(files.trust_anchors.as_str(), &certs, key, provider);
        assert(is_key(loaded, files.key@));
        let (client_config, server_config) = match configs {
            Ok(configs) => configs,
            Err(e) => return Err(e),
        };
        let mut env = TestEnv::default();
        env.put(EnvVar::IdentityDir, files.dir);
        env.put(EnvVar::IdentityTokenFile, files.token);
        env.put(EnvVar::IdentityTrustAnchors, files.trust_anchors);
        env.put(EnvVar::PolicyWorkload, "test:".to_owned().concat(local_name.as_str()));
        env.put(EnvVar::IdentityLocalName, local_name);
        Ok(Identity { env, certify_rsp, client_config, server_config })
    }

    /// The identity that `files` make, if they are usable.
    pub fn try_new(
        files: IdentityFiles,
        local_name: String,
        provider: &Arc<CryptoProvider>,
    ) -> (identity: Result<Result<Identity, ConfigError>, FileError>)
        ensures
            identity is Ok <==> valid_files(files),
            identity matches Ok(identity) ==> is_identity(
                **provider,
                files,
                local_name@,
                identity,
            ),
            identity matches Err(error) ==> is_file_error(files, error),
    {
        match check_files(&files) {
            Ok(()) => Ok(Identity::new(files, local_name, provider)),
            Err(e) => Err(e),
        }
    }

    /// A controller that answers one request, with this identity's
    /// certificates, valid from when they are asked for.
    pub fn service<F, G>(&self) -> (controller: Controller<F, G>)
        ensures
            issues_once(controller@, self.certify_rsp),
    {
        let controller: Controller<F, G> = Controller::default();
        controller.issue(self.certify_rsp.copy())
    }
}

} // verus!
