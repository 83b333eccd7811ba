//! What holds of every request that a client sends, and of every connection and
//! task that it has.
use vstd::prelude::*;

use crate::client::{version_of, Client, Reconnect, Request, Run, SocketAddr, TlsConfig};
use crate::connect::{
    after, can_happen, follows, same_tls, Connect, Next, Setup, Task, TaskAction, TaskEvent,
};
use crate::uri::{starts_with, uri_parts, Uri, UriParts};

verus! {

/// The parts of a URI are what its fields hold, none changed or left out.
pub proof fn a_uri_is_its_parts(uri: Uri)
    ensures
        uri@.path == uri.path@,
        uri@.scheme is Some <==> uri.scheme is Some,
        uri.scheme matches Some(scheme) ==> uri@.scheme->0 == scheme@,
        uri@.authority is Some <==> uri.authority is Some,
        uri.authority matches Some(authority) ==> uri@.authority->0 == authority@,
        uri@.query is Some <==> uri.query is Some,
        uri.query matches Some(query) ==> uri@.query->0 == query@,
{
}

/// A target that has a scheme is sent as it is, by every client: with the same
/// scheme, authority, path and query.
pub proof fn an_absolute_target_is_left_alone<B>(
    client: Client,
    req: Request<B>,
    sent: Request<B>,
)
    requires
        client.is_sent(req, sent),
        req.uri.scheme is Some,
    ensures
        sent.uri.path@ == req.uri.path@,
        sent.uri.scheme matches Some(scheme) && scheme@ == req.uri.scheme->0@,
        sent.uri.authority is Some <==> req.uri.authority is Some,
        req.uri.authority matches Some(authority) ==> sent.uri.authority->0@ == authority@,
        sent.uri.query is Some <==> req.uri.query is Some,
        req.uri.query matches Some(query) ==> sent.uri.query->0@ == query@,
{
    a_uri_is_its_parts(req.uri);
    a_uri_is_its_parts(sent.uri);
}

/// Every target that has a scheme can be sent, and only it can come of it.
pub proof fn an_absolute_target_can_be_sent(client: Client, uri: UriParts)
    requires
        uri.scheme is Some,
    ensures
        client.sent_uri(uri) == Some(uri),
{
}

/// A target that has no scheme is sent to its path at the client's authority:
/// by `https` from a client with TLS, by `http` from one without.
pub proof fn a_relative_target_is_made_absolute(client: Client, uri: UriParts)
    requires
        uri.scheme is None,
    ensures
        client.tls() is Some ==> client.sent_uri(uri) == uri_parts(
            "https://"@ + client.authority() + uri.path,
        ),
        client.tls() is None ==> client.sent_uri(uri) == uri_parts(
            "http://"@ + client.authority() + uri.path,
        ),
{
}

/// The same, of requests: what comes of a target without a scheme is what
/// there is at its path, and has a scheme.
pub proof fn a_relative_request_goes_to_the_authority<B>(
    client: Client,
    req: Request<B>,
    sent: Request<B>,
)
    requires
        client.is_sent(req, sent),
        req.uri.scheme is None,
    ensures
        client.tls() is Some ==> uri_parts("https://"@ + client.authority() + req.uri.path@)
            == Some(sent.uri@),
        client.tls() is None ==> uri_parts("http://"@ + client.authority() + req.uri.path@)
            == Some(sent.uri@),
        sent.uri.scheme is Some,
{
    a_uri_is_its_parts(req.uri);
    a_uri_is_its_parts(sent.uri);
    a_relative_target_is_made_absolute(client, req.uri@);
}

/// What a client builds for a path is the URI of the path at its authority, and
/// is sent with exactly those parts.
pub proof fn what_is_built_is_what_is_sent(client: Client, path: Seq<char>, built: Uri)
    requires
        uri_parts(client.target(path)) == Some(built@),
        built.scheme is Some,
    ensures
        client.sent_uri(built@) == Some(built@),
        client.tls() is Some ==> uri_parts("https://"@ + client.authority() + path) == Some(
            built@,
        ),
        client.tls() is None ==> uri_parts("http://"@ + client.authority() + path) == Some(
            built@,
        ),
{
    a_uri_is_its_parts(built);
    an_absolute_target_can_be_sent(client, built@);
}

/// A client's target for a path is its scheme, its authority and the path, in
/// that order, and nothing else.
pub proof fn a_target_is_scheme_authority_and_path(client: Client, path: Seq<char>)
    ensures
        client.tls() is Some ==> client.target(path) == "https://"@ + client.authority() + path,
        client.tls() is None ==> client.target(path) == "http://"@ + client.authority() + path,
{
}

/// Only the target of a request may change on its way.
pub proof fn only_the_target_may_change<B>(client: Client, req: Request<B>, sent: Request<B>)
    requires
        client.is_sent(req, sent),
    ensures
        sent.method@ == req.method@,
        sent.version == req.version,
        sent.headers@ == req.headers@,
        sent.body == req.body,
{
}

/// HTTP/1.1 requests come of HTTP/1 clients, whether or not these name whole
/// URIs, and HTTP/2 requests of HTTP/2 clients.
pub proof fn a_client_has_one_version(absolute_uris: bool)
    ensures
        version_of(Run::Http1 { absolute_uris }) is Http11,
        version_of(Run::Http2) is Http2,
{
}

/// A client's settings are all that it was made of, each as it was given.
pub proof fn a_client_has_its_settings(
    client: Client,
    addr: SocketAddr,
    authority: Seq<char>,
    run: Run,
    tls: Option<TlsConfig>,
)
    ensures
        client.is(addr, authority, run, tls) ==> {
            &&& client.addr() == addr
            &&& client.authority() == authority
            &&& client.mode() == run
            &&& client.tls() == tls
            &&& client.version() is Http11 <==> run is Http1
            &&& client.version() is Http2 <==> run is Http2
        },
{
}

/// What is left of a client that was shut down keeps all of its settings.
pub proof fn shutting_down_keeps_the_settings(client: Client, reconnect: Reconnect)
    ensures
        reconnect.is_left_of(&client) ==> {
            &&& reconnect.addr() == client.addr()
            &&& reconnect.authority() == client.authority()
            &&& reconnect.mode() == client.mode()
            &&& reconnect.tls() == client.tls()
        },
{
}

/// Two TLS settings are the same just if there is neither, or both have the
/// same configuration and name the same server.
pub proof fn the_same_tls_is_the_same_throughout(a: Option<TlsConfig>, b: Option<TlsConfig>)
    ensures
        same_tls(a, b) ==> (a is Some <==> b is Some),
        same_tls(a, b) && a is Some ==> a->0.client_config() == b->0.client_config()
            && a->0.name() == b->0.name(),
{
}

/// A task that was set up for a client speaks only HTTP/2 exactly if the client
/// does, with TLS or without; it names whole URIs exactly if an HTTP/1 client
/// was told to; and it connects to the client's server, with the client's TLS
/// settings if it has any.
pub proof fn a_task_speaks_as_its_client<R>(
    setup: Setup<R>,
    addr: SocketAddr,
    version: Run,
    tls: Option<TlsConfig>,
    running: R,
)
    requires
        setup.is_for(addr, version, tls, running),
    ensures
        setup.http2_only <==> version is Http2,
        version matches Run::Http1 { absolute_uris } ==> setup.conn.absolute_uris
            == absolute_uris,
        version is Http2 ==> !setup.conn.absolute_uris,
        setup.conn.addr == addr,
        setup.conn.running == Some(running),
        setup.conn.tls is Some <==> tls is Some,
        tls matches Some(tls) ==> setup.conn.tls->0.client_config() == tls.client_config()
            && setup.conn.tls->0.name() == tls.name(),
        setup.task is Serving,
{
    the_same_tls_is_the_same_throughout(setup.conn.tls, tls);
}

/// TLS makes no difference to how HTTP is spoken: two tasks that were set up for
/// the same way of speaking agree on it, whatever their servers and TLS
/// settings.
pub proof fn tls_does_not_change_the_protocol<R>(
    a: Setup<R>,
    b: Setup<R>,
    addr_a: SocketAddr,
    addr_b: SocketAddr,
    version: Run,
    tls_a: Option<TlsConfig>,
    tls_b: Option<TlsConfig>,
    running_a: R,
    running_b: R,
)
    requires
        a.is_for(addr_a, version, tls_a, running_a),
        b.is_for(addr_b, version, tls_b, running_b),
    ensures
        a.http2_only == b.http2_only,
        a.conn.absolute_uris == b.conn.absolute_uris,
{
}

/// A step that fails is reported with its own error, whether or not a handshake
/// is still to be done: there is no connection, and nothing more is tried.
pub proof fn a_failed_step_is_reported<R, E>(connect: Connect<R>, error: E)
    ensures
        follows::<R, E>(connect, Err(error)) matches Next::Failed(reported) && reported == error,
{
}

/// A step that succeeds is never reported as failed.
pub proof fn a_step_that_succeeds_is_not_a_failure<R, E>(connect: Connect<R>)
    ensures
        !(follows::<R, E>(connect, Ok(())) is Failed),
{
}

/// A connection is there only if the step before it succeeded and no handshake
/// was left to be done; it is the one that was asked for.
pub proof fn a_connection_is_there_only_after_success<R, E>(
    connect: Connect<R>,
    outcome: Result<(), E>,
)
    ensures
        follows(connect, outcome) is Done <==> outcome is Ok && connect.tls is None,
        follows(connect, outcome) matches Next::Done(connected) ==> connected.abs_form
            == connect.abs_form && connected.running == connect.running,
{
}

/// A handshake is done only after the connecting succeeded, with the settings
/// that were given, and once: what is left to do is the same but for it.
pub proof fn a_handshake_is_done_once<R, E>(connect: Connect<R>, outcome: Result<(), E>)
    ensures
        follows(connect, outcome) is Handshake <==> outcome is Ok && connect.tls is Some,
        follows(connect, outcome) matches Next::Handshake(tls, rest) ==> {
            &&& Some(tls) == connect.tls
            &&& rest.tls is None
            &&& rest.addr == connect.addr
            &&& rest.abs_form == connect.abs_form
            &&& rest.running == connect.running
        },
{
}

/// A connection with TLS is there only if both of its steps succeeded; if either
/// failed, its error is what is reported.
pub proof fn every_step_has_to_succeed<R, E>(
    connect: Connect<R>,
    connecting: Result<(), E>,
    handshake: Result<(), E>,
)
    requires
        connect.tls is Some,
    ensures
        connecting matches Err(error) ==> follows(connect, connecting) == Next::<R, E>::Failed(
            error,
        ),
        connecting is Ok ==> {
            &&& follows(connect, connecting) matches Next::Handshake(_, rest)
            &&& follows(rest, handshake) is Done <==> handshake is Ok
            &&& handshake matches Err(error) ==> follows(rest, handshake) == Next::<
                R,
                E,
            >::Failed(error)
        },
{
}

/// A task takes any request, and the end of requests, while it serves, and the
/// end of the draining while it drains, but nothing out of turn.
pub proof fn a_task_takes_what_comes<Q>(task: Task, event: TaskEvent<Q>)
    ensures
        can_happen(task, event) <==> {
            ||| task is Serving && !(event is Drained)
            ||| task is Draining && event is Drained
        },
{
}

/// A request is sent as it was handed in and leaves the task serving; the end of
/// requests starts the draining; the end of the draining is the end.
pub proof fn a_task_does_what_is_due<Q>(event: TaskEvent<Q>)
    ensures
        event matches TaskEvent::Request(request) ==> after(event).1 == TaskAction::Send(request),
        event is Closed ==> after(event).1 is Drain,
        event is Drained ==> after(event).1 is End,
        after(event).0 is Serving <==> event is Request,
        after(event).0 is Draining <==> event is Closed,
        after(event).0 is Ended <==> event is Drained,
{
}

/// A text starts with a prefix just if the prefix and something more make it.
pub proof fn a_start_is_a_start(text: Seq<char>, prefix: Seq<char>, rest: Seq<char>)
    ensures
        starts_with(prefix + rest, prefix),
        starts_with(text, prefix) ==> text == prefix + text.subrange(
            prefix.len() as int,
            text.len() as int,
        ),
{
    assert((prefix + rest).subrange(0, prefix.len() as int) =~= prefix);
    if starts_with(text, prefix) {
        assert(text =~= text.subrange(0, prefix.len() as int) + text.subrange(
            prefix.len() as int,
            text.len() as int,
        ));
    }
}

} // verus!
