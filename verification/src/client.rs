//! The HTTP client that tests drive the proxy with.
use std::sync::Arc;
use tokio_rustls::rustls::ClientConfig;
use vstd::prelude::*;

use crate::connect::{
    a_task_sends_what_it_is_handed, handed_in, is_run, run, sends, Setup, TaskEvent,
};
use crate::tls::{parse_server_name, server_name, PeerKind};
use crate::uri::{parse_uri, starts_with, uri_parts, Uri, UriParts};

verus! {

/// The address of a peer.
#[derive(Copy, Clone, Debug, PartialEq, Eq, Structural)]
pub enum SocketAddr {
    V4 { ip: u32, port: u16 },
    V6 { ip: u128, port: u16, flowinfo: u32, scope_id: u32 },
}

/// An HTTP version.
#[derive(Copy, Clone, Debug, PartialEq, Eq, Structural)]
pub enum Version {
    Http09,
    Http10,
    Http11,
    Http2,
    Http3,
}

/// How a client speaks HTTP.
#[derive(Copy, Clone, Debug, PartialEq, Eq, Structural)]
pub enum Run {
    /// HTTP/1.1, naming the whole URI in each request if `absolute_uris`.
    Http1 { absolute_uris: bool },
    /// HTTP/2.
    Http2,
}

/// How a client speaks TLS.
pub struct TlsConfig {
    client_config: Arc<ClientConfig>,
    kind: PeerKind,
    name: String,
}

/// An HTTP client.
pub struct Client {
    addr: SocketAddr,
    run: Run,
    authority: String,
    version: Version,
    tls: Option<TlsConfig>,
}

/// What is left of a client that was shut down: enough to connect again.
pub struct Reconnect {
    addr: SocketAddr,
    authority: String,
    run: Run,
    tls: Option<TlsConfig>,
}

/// A header of a request.
#[derive(Debug, PartialEq, Eq)]
pub struct Header {
    pub name: String,
    pub value: Vec<u8>,
    /// The value is not to be kept or shown.
    pub sensitive: bool,
}

/// A request that is being built.
#[derive(Debug)]
pub struct RequestBuilder {
    pub method: String,
    /// The target, or `None` if what was given is no URI.
    pub uri: Option<Uri>,
    pub version: Version,
    pub headers: Vec<Header>,
}

/// A request.
#[derive(Debug)]
pub struct Request<B> {
    pub method: String,
    pub uri: Uri,
    pub version: Version,
    pub headers: Vec<Header>,
    pub body: B,
}

/// `Arc::clone`: another handle to the same value.
#[verifier::external_body]
fn share(config: &Arc<ClientConfig>) -> (shared: Arc<ClientConfig>)
    ensures
        shared == config,
{
    Arc::clone(config)
}

impl TlsConfig {
    pub closed spec fn client_config(&self) -> Arc<ClientConfig> {
        self.client_config
    }

    /// The name that the server is to prove, and its kind.
    pub closed spec fn name(&self) -> (PeerKind, Seq<char>) {
        (self.kind, self.name@)
    }

    /// Speaks TLS as `client_config` says, to the server called `name`, which
    /// is a valid name.
    pub fn new(client_config: Arc<ClientConfig>, name: &str) -> (this: Self)
        requires
            server_name(name@) is Some,
        ensures
            this.client_config() == client_config,
            Some(this.name()) == server_name(name@),
            this.name().0 == PeerKind::Dns ==> this.name().1 == name@,
    {
        let (kind, name) = parse_server_name(name).unwrap();
        TlsConfig { client_config, kind, name }
    }

    /// Speaks TLS as `client_config` says, to the server called `name`; `None`
    /// if that is no valid name.
    pub fn try_new(client_config: Arc<ClientConfig>, name: &str) -> (this: Option<Self>)
        ensures
            this is Some <==> server_name(name@) is Some,
            this matches Some(this) ==> {
                &&& this.client_config() == client_config
                &&& Some(this.name()) == server_name(name@)
                &&& this.name().0 == PeerKind::Dns ==> this.name().1 == name@
            },
    {
        if parse_server_name(name).is_none() {
            None
        } else {
            Some(TlsConfig::new(client_config, name))
        }
    }

    /// The configuration to connect with.
    pub fn config(&self) -> (config: &Arc<ClientConfig>)
        ensures
            config == self.client_config(),
    {
        &self.client_config
    }

    /// The name that the server is to prove.
    pub fn server(&self) -> (server: (PeerKind, &str))
        ensures
            (server.0, server.1@) == self.name(),
    {
        (self.kind, self.name.as_str())
    }

    /// Both have the same configuration and name.
    pub open spec fn same(&self, other: &TlsConfig) -> bool {
        self.client_config() == other.client_config() && self.name() == other.name()
    }
}

impl Clone for TlsConfig {
    fn clone(&self) -> (copy: Self)
        ensures
            copy.same(self),
            copy.client_config() == self.client_config(),
            copy.name() == self.name(),
    {
        TlsConfig {
            client_config: share(&self.client_config),
            kind: self.kind,
            name: self.name.clone(),
        }
    }
}

/// An HTTP/2 client.
pub fn new(addr: SocketAddr, auth: String) -> (client: Client)
    ensures
        client.is(addr, auth@, Run::Http2, None),
{
    http2(addr, auth)
}

/// An HTTP/1.1 client.
pub fn http1(addr: SocketAddr, auth: String) -> (client: Client)
    ensures
        client.is(addr, auth@, (Run::Http1 { absolute_uris: false }), None),
{
    Client::new(addr, auth, Run::Http1 { absolute_uris: false }, None)
}

/// An HTTP/1.1 client over TLS.
pub fn http1_tls(addr: SocketAddr, auth: String, tls: TlsConfig) -> (client: Client)
    ensures
        client.is(addr, auth@, (Run::Http1 { absolute_uris: false }), Some(tls)),
{
    Client::new(addr, auth, Run::Http1 { absolute_uris: false }, Some(tls))
}

/// An HTTP/1.1 client that sends `GET http://foo.com/ HTTP/1.1` instead of just
/// `GET / HTTP/1.1`.
pub fn http1_absolute_uris(addr: SocketAddr, auth: String) -> (client: Client)
    ensures
        client.is(addr, auth@, (Run::Http1 { absolute_uris: true }), None),
{
    Client::new(addr, auth, Run::Http1 { absolute_uris: true }, None)
}

/// An HTTP/2 client.
pub fn http2(addr: SocketAddr, auth: String) -> (client: Client)
    ensures
        client.is(addr, auth@, Run::Http2, None),
{
    Client::new(addr, auth, Run::Http2, None)
}

/// An HTTP/2 client over TLS.
pub fn http2_tls(addr: SocketAddr, auth: String, tls: TlsConfig) -> (client: Client)
    ensures
        client.is(addr, auth@, Run::Http2, Some(tls)),
{
    Client::new(addr, auth, Run::Http2, Some(tls))
}

/// The version that requests are made with.
pub open spec fn version_of(run: Run) -> Version {
    match run {
        Run::Http1 { .. } => Version::Http11,
        Run::Http2 => Version::Http2,
    }
}

/// The URI of `path` at `authority`.
pub open spec fn target(tls: bool, authority: Seq<char>, path: Seq<char>) -> Seq<char> {
    (if tls {
        "https://"@
    } else {
        "http://"@
    }) + authority + path
}

impl Client {
    pub closed spec fn addr(&self) -> SocketAddr {
        self.addr
    }

    pub closed spec fn mode(&self) -> Run {
        self.run
    }

    pub closed spec fn authority(&self) -> Seq<char> {
        self.authority@
    }

    pub closed spec fn version(&self) -> Version {
        self.version
    }

    pub closed spec fn tls(&self) -> Option<TlsConfig> {
        self.tls
    }

    /// The client has just these settings, and the version that goes with
    /// them.
    pub open spec fn is(
        &self,
        addr: SocketAddr,
        authority: Seq<char>,
        run: Run,
        tls: Option<TlsConfig>,
    ) -> bool {
        &&& self.addr() == addr
        &&& self.authority() == authority
        &&& self.mode() == run
        &&& self.version() == version_of(run)
        &&& self.tls() == tls
    }

    /// The version goes with the way that the client speaks HTTP.
    #[verifier::type_invariant]
    spec fn valid(&self) -> bool {
        self.version == version_of(self.run)
    }

    /// The URI of `path` at the client's authority.
    pub open spec fn target(&self, path: Seq<char>) -> Seq<char> {
        target(self.tls() is Some, self.authority(), path)
    }

    /// The parts of the URI that a request for `uri` is sent with. One without
    /// a scheme is made absolute, and loses its query; `None` if that gives no
    /// URI.
    pub open spec fn sent_uri(&self, uri: UriParts) -> Option<UriParts> {
        if uri.scheme is Some {
            Some(uri)
        } else {
            uri_parts(self.target(uri.path))
        }
    }

    /// `sent` is how `req` is sent: only the target may differ.
    pub open spec fn is_sent<B>(&self, req: Request<B>, sent: Request<B>) -> bool {
        &&& Some(sent.uri@) == self.sent_uri(req.uri@)
        &&& sent.uri@.scheme is Some
        &&& sent.method == req.method
        &&& sent.version == req.version
        &&& sent.headers == req.headers
        &&& sent.body == req.body
    }

    /// A client of the server at `addr`.
    pub fn new(addr: SocketAddr, authority: String, r: Run, tls: Option<TlsConfig>) -> (client:
        Client)
        ensures
            client.is(addr, authority@, r, tls),
    {
        let version = match r {
            Run::Http1 { .. } => Version::Http11,
            Run::Http2 => Version::Http2,
        };
        Client { addr, run: r, authority, version, tls }
    }

    /// Sets up the client's task: it connects to the client's server, and
    /// speaks as the client does.
    pub fn setup<R>(&self, running: R) -> (setup: Setup<R>)
        ensures
            setup.is_for(self.addr(), self.mode(), self.tls(), running),
            setup.conn.addr == self.addr(),
            setup.conn.running == Some(running),
            setup.conn.absolute_uris <==> (self.mode() matches Run::Http1 { absolute_uris: true }),
            setup.conn.tls is Some <==> self.tls() is Some,
            setup.http2_only <==> self.mode() is Http2,
            setup.task is Serving,
    {
        let tls = match &self.tls {
            Some(tls) => Some(tls.clone()),
            None => None,
        };
        run(self.addr, self.run, tls, running)
    }

    fn target_text(&self, path: &str) -> (text: String)
        ensures
            text@ == self.target(path@),
    {
        let scheme = if self.tls.is_some() {
            "https://"
        } else {
            "http://"
        };
        scheme.to_owned().concat(self.authority.as_str()).concat(path)
    }

    /// Starts to build a request for `path` at the client's authority.
    pub fn request_builder(&self, path: &str) -> (builder: RequestBuilder)
        ensures
            builder.method@ == "GET"@,
            builder.version == version_of(self.mode()),
            builder.headers@.len() == 0,
            match builder.uri {
                Some(uri) => uri_parts(self.target(path@)) == Some(uri@),
                None => uri_parts(self.target(path@)) is None,
            },
            builder.uri matches Some(uri) ==> {
                &&& uri@.scheme == Some(
                    if self.tls() is Some {
                        "https"@
                    } else {
                        "http"@
                    },
                )
                &&& uri@.authority is Some
            },
    {
        let text = self.target_text(path);
        proof {
            use_type_invariant(self);
            lemma_target_scheme(self.tls() is Some, self.authority(), path@);
        }
        RequestBuilder {
            method: "GET".to_owned(),
            uri: parse_uri(text.as_str()),
            version: self.version,
            headers: Vec::new(),
        }
    }

    /// The request as it is sent: its target is made absolute if it has no
    /// scheme. The result must be a URI.
    pub fn send_req<B>(&self, req: Request<B>) -> (sent: Request<B>)
        requires
            self.sent_uri(req.uri@) is Some,
        ensures
            self.is_sent(req, sent),
            req.uri@.scheme is Some ==> sent.uri@ == req.uri@,
            sent.method == req.method,
            sent.version == req.version,
            sent.headers == req.headers,
            sent.body == req.body,
    {
        if req.uri.scheme.is_some() {
            return req;
        }
        let text = self.target_text(req.uri.path.as_str());
        proof {
            lemma_target_scheme(self.tls() is Some, self.authority(), req.uri.path@);
        }
        let uri = parse_uri(text.as_str()).unwrap();
        Request {
            method: req.method,
            uri,
            version: req.version,
            headers: req.headers,
            body: req.body,
        }
    }

    /// The request as it is sent; `None` if its target gives no URI.
    pub fn try_send_req<B>(&self, req: Request<B>) -> (sent: Option<Request<B>>)
        ensures
            sent is Some <==> self.sent_uri(req.uri@) is Some,
            sent matches Some(sent) ==> self.is_sent(req, sent),
            req.uri@.scheme is Some ==> (sent matches Some(sent) && sent.uri@ == req.uri@),
    {
        if req.uri.scheme.is_none() {
            let text = self.target_text(req.uri.path.as_str());
            if parse_uri(text.as_str()).is_none() {
                return None;
            }
        }
        Some(self.send_req(req))
    }

    /// The request that a builder gives, as it is sent, without a body.
    pub fn request(&self, builder: RequestBuilder) -> (sent: Request<()>)
        requires
            builder.uri matches Some(uri) && self.sent_uri(uri@) is Some,
        ensures
            Some(sent.uri@) == self.sent_uri(builder.uri->0@),
            builder.uri->0@.scheme is Some ==> sent.uri@ == builder.uri->0@,
            sent.uri@.scheme is Some,
            sent.method == builder.method,
            sent.version == builder.version,
            sent.headers == builder.headers,
    {
        let uri = builder.uri.unwrap();
        self.send_req(
            Request {
                method: builder.method,
                uri,
                version: builder.version,
                headers: builder.headers,
                body: (),
            },
        )
    }

    /// The request with a body, as it is sent.
    pub fn request_body<B>(&self, req: Request<B>) -> (sent: Request<B>)
        requires
            self.sent_uri(req.uri@) is Some,
        ensures
            self.is_sent(req, sent),
            req.uri@.scheme is Some ==> sent.uri@ == req.uri@,
            sent.method == req.method,
            sent.version == req.version,
            sent.headers == req.headers,
            sent.body == req.body,
    {
        self.send_req(req)
    }

    /// The request that a builder gives, as it is sent, without a body; `None`
    /// if the builder was given no URI, or its target gives none.
    pub fn try_request(&self, builder: RequestBuilder) -> (sent: Option<Request<()>>)
        ensures
            sent is Some <==> (builder.uri matches Some(uri) && self.sent_uri(uri@) is Some),
            sent matches Some(sent) ==> {
                &&& Some(sent.uri@) == self.sent_uri(builder.uri->0@)
                &&& sent.uri@.scheme is Some
                &&& sent.method == builder.method
                &&& sent.version == builder.version
                &&& sent.headers == builder.headers
            },
    {
        match &builder.uri {
            None => return None,
            Some(uri) => {
                if uri.scheme.is_none() {
                    let text = self.target_text(uri.path.as_str());
                    if parse_uri(text.as_str()).is_none() {
                        return None;
                    }
                }
            },
        }
        Some(self.request(builder))
    }

    /// The request that gets `path`, as it is sent.
    pub fn get(&self, path: &str) -> (sent: Request<()>)
        requires
            uri_parts(self.target(path@)) is Some,
        ensures
            Some(sent.uri@) == uri_parts(self.target(path@)),
            sent.method@ == "GET"@,
            sent.version == version_of(self.mode()),
            sent.headers@.len() == 0,
    {
        self.request(self.request_builder(path))
    }

    /// The request that gets `path`, as it is sent; `None` if there is no such
    /// URI.
    pub fn try_get(&self, path: &str) -> (sent: Option<Request<()>>)
        ensures
            sent is Some <==> uri_parts(self.target(path@)) is Some,
            sent matches Some(sent) ==> {
                &&& Some(sent.uri@) == uri_parts(self.target(path@))
                &&& sent.method@ == "GET"@
                &&& sent.version == version_of(self.mode())
                &&& sent.headers@.len() == 0
            },
    {
        if self.request_builder(path).uri.is_none() {
            None
        } else {
            Some(self.get(path))
        }
    }

    /// Whether a response with this status is what a test that gets something
    /// expects.
    pub fn is_success(status: u16) -> (success: bool)
        ensures
            success == (200 <= status < 300),
    {
        200 <= status && status < 300
    }

    /// Shuts the client down. What it gives can connect to the same server
    /// again.
    pub fn shutdown(self) -> (reconnect: Reconnect)
        ensures
            reconnect.is_left_of(&self),
    {
        Reconnect { addr: self.addr, authority: self.authority, run: self.run, tls: self.tls }
    }

    /// The address of the server.
    pub fn target_addr(&self) -> (addr: SocketAddr)
        ensures
            addr == self.addr(),
    {
        self.addr
    }

    /// How the client speaks HTTP.
    pub fn run_mode(&self) -> (run: Run)
        ensures
            run == self.mode(),
    {
        self.run
    }

    /// How the client speaks TLS.
    pub fn tls_config(&self) -> (tls: Option<&TlsConfig>)
        ensures
            match tls {
                Some(tls) => self.tls() == Some(*tls),
                None => self.tls() is None,
            },
    {
        self.tls.as_ref()
    }
}

impl Reconnect {
    pub closed spec fn addr(&self) -> SocketAddr {
        self.addr
    }

    pub closed spec fn mode(&self) -> Run {
        self.run
    }

    pub closed spec fn authority(&self) -> Seq<char> {
        self.authority@
    }

    pub closed spec fn tls(&self) -> Option<TlsConfig> {
        self.tls
    }

    /// It has the settings of `client`.
    pub open spec fn is_left_of(&self, client: &Client) -> bool {
        &&& self.addr() == client.addr()
        &&& self.mode() == client.mode()
        &&& self.authority() == client.authority()
        &&& self.tls() == client.tls()
    }

    /// A new client of the same server.
    pub fn reconnect(self) -> (client: Client)
        ensures
            client.is(self.addr(), self.authority(), self.mode(), self.tls()),
    {
        Client::new(self.addr, self.authority, self.run, self.tls)
    }
}

/// A client that was shut down and has reconnected is the client that it was:
/// it has the same settings, and sends the same requests.
pub proof fn reconnecting_restores_the_client(
    client: Client,
    reconnect: Reconnect,
    restored: Client,
)
    requires
        reconnect.is_left_of(&client),
        restored.is(reconnect.addr(), reconnect.authority(), reconnect.mode(), reconnect.tls()),
    ensures
        restored.is(client.addr(), client.authority(), client.mode(), client.tls()),
        restored.addr() == client.addr(),
        restored.authority() == client.authority(),
        restored.mode() == client.mode(),
        restored.tls() == client.tls(),
        forall|path: Seq<char>| #[trigger] restored.target(path) == client.target(path),
        forall|uri: UriParts| #[trigger] restored.sent_uri(uri) == client.sent_uri(uri),
{
}

/// Making a target absolute is done once: a target that was sent is sent as it
/// is.
pub proof fn sending_again_changes_nothing(client: Client, uri: UriParts, sent: UriParts)
    requires
        client.sent_uri(uri) == Some(sent),
        sent.scheme is Some,
    ensures
        client.sent_uri(sent) == Some(sent),
{
}

/// A target that has no scheme is sent to the client's own authority, whatever
/// authority and query it had: only its path counts.
pub proof fn only_the_path_counts(client: Client, uri: UriParts, other: UriParts)
    requires
        uri.scheme is None,
        other.scheme is None,
        uri.path == other.path,
    ensures
        client.sent_uri(uri) == client.sent_uri(other),
{
}

/// A client is what it was made of: its task connects to the address that was
/// given, with the TLS configuration that was given, and speaks HTTP as was
/// said; its requests are made with HTTP/1.1 or HTTP/2 accordingly, and go to
/// `https` targets just if it was given TLS, to `http` targets just if not.
pub proof fn a_client_is_what_it_was_made_of<R>(
    client: Client,
    addr: SocketAddr,
    authority: Seq<char>,
    r: Run,
    tls: Option<TlsConfig>,
    setup: Setup<R>,
    running: R,
    path: Seq<char>,
)
    requires
        client.is(addr, authority, r, tls),
        setup.is_for(client.addr(), client.mode(), client.tls(), running),
    ensures
        setup.is_for(addr, r, tls, running),
        setup.conn.addr == addr,
        setup.conn.running == Some(running),
        setup.conn.absolute_uris <==> (r matches Run::Http1 { absolute_uris: true }),
        setup.http2_only <==> r is Http2,
        setup.conn.tls is Some <==> tls is Some,
        setup.conn.tls matches Some(used) ==> used.client_config() == tls->0.client_config()
            && used.name() == tls->0.name(),
        version_of(client.mode()) == Version::Http11 <==> r is Http1,
        version_of(client.mode()) == Version::Http2 <==> r is Http2,
        starts_with(client.target(path), "https://"@) <==> tls is Some,
        starts_with(client.target(path), "http://"@) <==> tls is None,
{
    lemma_target_scheme(tls is Some, authority, path);
    reveal_strlit("https://");
    reveal_strlit("http://");
    let text = client.target(path);
    assert("https://"@[4] == 's' && "http://"@[4] == ':');
    if starts_with(text, "https://"@) {
        assert(text[4] == text.subrange(0, 8)[4]);
    }
    if starts_with(text, "http://"@) {
        assert(text[4] == text.subrange(0, 7)[4]);
    }
}

/// What a client is asked to send goes out: where a task is handed, in order,
/// what the client made of each of `reqs`, it sends one request for each of
/// them, in the same order, and nothing else; only the targets may differ.
pub proof fn requests_go_out_in_order<B>(
    client: Client,
    reqs: Seq<Request<B>>,
    sent: Seq<Request<B>>,
    events: Seq<TaskEvent<Request<B>>>,
)
    requires
        reqs.len() == sent.len(),
        forall|i: int| 0 <= i < reqs.len() ==> #[trigger] client.is_sent(reqs[i], sent[i]),
        is_run(events),
        handed_in(events) == sent,
    ensures
        sends(events).len() == reqs.len(),
        forall|i: int|
            0 <= i < reqs.len() ==> #[trigger] client.is_sent(reqs[i], sends(events)[i]),
{
    a_task_sends_what_it_is_handed(events);
}

proof fn lemma_target_scheme(tls: bool, authority: Seq<char>, path: Seq<char>)
    ensures
        tls ==> starts_with(target(tls, authority, path), "https://"@),
        !tls ==> starts_with(target(tls, authority, path), "http://"@),
{
    let scheme = if tls {
        "https://"@
    } else {
        "http://"@
    };
    assert(target(tls, authority, path).subrange(0, scheme.len() as int) =~= scheme);
}

} // verus!
