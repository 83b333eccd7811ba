use linkerd_support::client::{
    http1, http1_absolute_uris, http1_tls, http2, http2_tls, new, Client, Header, Request,
    RequestBuilder, Run, SocketAddr, TlsConfig, Version,
};
use linkerd_support::connect::{run, Next, Task, TaskAction, TaskEvent};
use linkerd_support::tls::PeerKind;
use linkerd_support::uri::Uri;
use std::sync::Arc;
use tokio_rustls::rustls::{ClientConfig, RootCertStore};

const ADDR: SocketAddr = SocketAddr::V4 { ip: 0x7f00_0001, port: 8080 };

fn auth() -> String {
    "foo.example.com".to_string()
}

fn config() -> Arc<ClientConfig> {
    let provider = Arc::new(tokio_rustls::rustls::crypto::ring::default_provider());
    Arc::new(
        ClientConfig::builder_with_provider(provider)
            .with_safe_default_protocol_versions()
            .unwrap()
            .with_root_certificates(RootCertStore::empty())
            .with_no_client_auth(),
    )
}

fn tls() -> TlsConfig {
    TlsConfig::new(config(), "foo.example.com")
}

fn uri(scheme: Option<&str>, authority: Option<&str>, path: &str, query: Option<&str>) -> Uri {
    Uri {
        scheme: scheme.map(|s| s.to_string()),
        authority: authority.map(|s| s.to_string()),
        path: path.to_string(),
        query: query.map(|s| s.to_string()),
    }
}

fn headers() -> Vec<Header> {
    ["a", "b", "a"]
        .iter()
        .enumerate()
        .map(|(i, name)| Header {
            name: name.to_string(),
            value: vec![i as u8, 0xff],
            sensitive: i == 1,
        })
        .collect()
}

fn request(uri: Uri) -> Request<u8> {
    Request {
        method: "PUT".to_string(),
        uri,
        version: Version::Http10,
        headers: headers(),
        body: 9,
    }
}

#[test]
fn clients_speak_as_they_were_made() {
    let http1_mode = Run::Http1 { absolute_uris: false };
    let absolute = Run::Http1 { absolute_uris: true };
    for (client, mode, version, secure) in [
        (new(ADDR, auth()), Run::Http2, Version::Http2, false),
        (http1(ADDR, auth()), http1_mode, Version::Http11, false),
        (http1_tls(ADDR, auth(), tls()), http1_mode, Version::Http11, true),
        (http1_absolute_uris(ADDR, auth()), absolute, Version::Http11, false),
        (http2(ADDR, auth()), Run::Http2, Version::Http2, false),
        (http2_tls(ADDR, auth(), tls()), Run::Http2, Version::Http2, true),
    ] {
        assert_eq!(client.target_addr(), ADDR);
        assert_eq!(client.run_mode(), mode);
        assert_eq!(client.tls_config().is_some(), secure);
        let builder = client.request_builder("/bar?q=1");
        assert_eq!(builder.method, "GET");
        assert_eq!(builder.version, version);
        let scheme = if secure { "https" } else { "http" };
        assert_eq!(
            builder.uri,
            Some(uri(Some(scheme), Some("foo.example.com"), "/bar", Some("q=1")))
        );
    }
}

#[test]
fn names_of_servers_are_parsed() {
    let tls = tls();
    assert_eq!(tls.server(), (PeerKind::Dns, "foo.example.com"));
    let ip = TlsConfig::try_new(config(), "0:0:0:0:0:0:0:1").expect("an address");
    assert_eq!(ip.server(), (PeerKind::Ip, "::1"));
    assert!(TlsConfig::try_new(config(), "not a name").is_none());
    assert!(TlsConfig::try_new(config(), "").is_none());
}

#[test]
fn a_tls_config_is_shared_by_its_clones() {
    let given = config();
    let tls = TlsConfig::new(given.clone(), "foo.example.com");
    let copy = tls.clone();
    assert!(Arc::ptr_eq(copy.config(), &given));
    assert_eq!(copy.server(), tls.server());
}

#[test]
fn a_relative_target_is_made_absolute() {
    let plain = http1(ADDR, auth());
    let sent = plain.send_req(request(uri(None, None, "/bar", None)));
    assert_eq!(sent.uri, uri(Some("http"), Some("foo.example.com"), "/bar", None));
    assert_eq!(sent.method, "PUT");
    assert_eq!(sent.version, Version::Http10);
    assert_eq!(sent.headers, headers());
    assert_eq!(sent.body, 9);

    let secure = http1_tls(ADDR, auth(), tls());
    let sent = secure.request_body(request(uri(None, None, "/bar", None)));
    assert_eq!(sent.uri, uri(Some("https"), Some("foo.example.com"), "/bar", None));

    // Only the path is kept.
    let sent = plain.send_req(request(uri(None, None, "/bar", Some("q=1"))));
    assert_eq!(sent.uri, uri(Some("http"), Some("foo.example.com"), "/bar", None));
    // Without a path, the root is asked for.
    let sent = plain.send_req(request(uri(None, Some("other"), "", None)));
    assert_eq!(sent.uri, uri(Some("http"), Some("foo.example.com"), "/", None));
}

#[test]
fn an_absolute_target_is_sent_as_it_is() {
    let secure = http2_tls(ADDR, auth(), tls());
    let target = || uri(Some("http"), Some("other.example.com"), "/bar", Some("q=1"));
    let sent = secure.try_send_req(request(target())).expect("sent");
    assert_eq!(sent.uri, target());
    let again = secure.send_req(sent);
    assert_eq!(again.uri, target());
    assert_eq!(again.headers, headers());
}

#[test]
fn a_target_that_is_no_uri_is_not_sent() {
    let client = http1(ADDR, "not an authority".to_string());
    assert!(client.try_send_req(request(uri(None, None, "/bar", None))).is_none());
    assert!(client.try_get("/bar").is_none());
    let builder = client.request_builder("/bar");
    assert_eq!(builder.uri, None);
    assert!(client.try_request(builder).is_none());
    let relative = RequestBuilder {
        method: "GET".to_string(),
        uri: Some(uri(None, None, "/bar", None)),
        version: Version::Http11,
        headers: Vec::new(),
    };
    assert!(client.try_request(relative).is_none());
}

#[test]
fn get_asks_for_the_path() {
    let client = new(ADDR, auth());
    let sent = client.get("/bar?q=1");
    assert_eq!(sent.method, "GET");
    assert!(sent.headers.is_empty());
    assert_eq!(sent.version, Version::Http2);
    assert_eq!(
        sent.uri,
        uri(Some("http"), Some("foo.example.com"), "/bar", Some("q=1"))
    );
    let tried = client.try_get("/bar?q=1").expect("a request");
    assert_eq!(tried.uri, sent.uri);

    let mut builder = client.request_builder("/bar");
    assert!(builder.headers.is_empty());
    builder.method = "POST".to_string();
    builder.headers = headers();
    let sent = client.request(builder);
    assert_eq!(sent.method, "POST");
    assert_eq!(sent.headers, headers());
}

#[test]
fn only_two_hundreds_are_a_success() {
    for (status, success) in [(100, false), (199, false), (200, true), (299, true), (300, false)] {
        assert_eq!(Client::is_success(status), success);
    }
}

#[test]
fn reconnecting_gives_the_same_client() {
    let client = http1_tls(ADDR, auth(), tls());
    let before = client.get("/bar");
    let again = client.shutdown().reconnect();
    assert_eq!(again.target_addr(), ADDR);
    assert_eq!(again.run_mode(), Run::Http1 { absolute_uris: false });
    assert_eq!(
        again.tls_config().map(|tls| tls.server()),
        Some((PeerKind::Dns, "foo.example.com"))
    );
    let after = again.get("/bar");
    assert_eq!(after.uri, before.uri);
    assert_eq!(after.version, before.version);
}

#[test]
fn only_http1_names_whole_uris() {
    let setup = run(ADDR, Run::Http1 { absolute_uris: true }, None, ());
    assert!(setup.conn.absolute_uris);
    assert!(!setup.http2_only);
    let setup = run(ADDR, Run::Http1 { absolute_uris: false }, None, ());
    assert!(!setup.conn.absolute_uris);
    assert!(!setup.http2_only);
    let setup = run(ADDR, Run::Http2, None, ());
    assert!(!setup.conn.absolute_uris);
    assert!(setup.http2_only);
}

#[test]
fn a_plain_connection_is_there_at_once() {
    let mut setup = run(ADDR, Run::Http1 { absolute_uris: true }, None, "running");
    assert!(setup.conn.poll_ready());
    let connect = setup.conn.call();
    assert!(setup.conn.running.is_none());
    assert_eq!(connect.addr, ADDR);
    match connect.resume::<&str>(Ok(())) {
        Next::Done(connected) => {
            assert!(connected.abs_form);
            assert_eq!(connected.running, "running");
        }
        _ => panic!("must be done"),
    }
}

#[test]
fn a_tls_connection_takes_a_handshake() {
    let mut setup = run(ADDR, Run::Http2, Some(tls()), "running");
    let connect = setup.conn.call();
    match connect.resume::<&str>(Ok(())) {
        Next::Handshake(tls, rest) => {
            assert_eq!(tls.server(), (PeerKind::Dns, "foo.example.com"));
            match rest.resume::<&str>(Ok(())) {
                Next::Done(connected) => {
                    assert!(!connected.abs_form);
                    assert_eq!(connected.running, "running");
                }
                _ => panic!("must be done"),
            }
        }
        _ => panic!("must shake hands"),
    }
}

#[test]
fn a_failed_step_ends_the_connecting() {
    let mut setup = run(ADDR, Run::Http2, Some(tls()), ());
    match setup.conn.call().resume(Err("refused")) {
        Next::Failed(error) => assert_eq!(error, "refused"),
        _ => panic!("must fail"),
    }
}

#[test]
fn a_task_drains_before_it_ends() {
    let mut task = Task::Serving;
    assert_eq!(task.step(TaskEvent::Request(1)), TaskAction::Send(1));
    assert_eq!(task.step(TaskEvent::Request(2)), TaskAction::Send(2));
    assert_eq!(task, Task::Serving);
    assert_eq!(task.step(TaskEvent::<u8>::Closed), TaskAction::Drain);
    assert_eq!(task, Task::Draining);
    assert_eq!(task.step(TaskEvent::<u8>::Drained), TaskAction::End);
    assert_eq!(task, Task::Ended);
}

#[test]
fn a_task_is_set_up_as_its_client_was() {
    let setup = http1_absolute_uris(ADDR, auth()).setup("running");
    assert_eq!(setup.conn.addr, ADDR);
    assert!(setup.conn.absolute_uris);
    assert!(setup.conn.tls.is_none());
    assert_eq!(setup.conn.running, Some("running"));
    assert!(!setup.http2_only);
    assert_eq!(setup.task, Task::Serving);

    let addr = SocketAddr::V6 { ip: 1, port: 443, flowinfo: 2, scope_id: 3 };
    let given = config();
    let tls = TlsConfig::new(given.clone(), "foo.example.com");
    let setup = http2_tls(addr, auth(), tls).setup(());
    assert_eq!(setup.conn.addr, addr);
    assert!(!setup.conn.absolute_uris);
    assert!(setup.http2_only);
    let tls = setup.conn.tls.expect("TLS");
    assert!(Arc::ptr_eq(tls.config(), &given));
    assert_eq!(tls.server(), (PeerKind::Dns, "foo.example.com"));
}

#[test]
fn requests_go_out_as_they_were_sent() {
    let client = http1(ADDR, auth());
    let mut task = client.setup(()).task;
    for path in ["/1", "/2", "/3"] {
        let sent = client.send_req(request(uri(None, None, path, None)));
        match task.step(TaskEvent::Request(sent)) {
            TaskAction::Send(out) => {
                assert_eq!(out.uri, uri(Some("http"), Some("foo.example.com"), path, None));
                assert_eq!(out.headers, headers());
                assert_eq!(out.body, 9);
            }
            _ => panic!("must be sent"),
        }
    }
}
