//! A client's task and the connection that it makes.
use vstd::prelude::*;

use crate::client::{Run, SocketAddr, TlsConfig};

verus! {

/// Connects, once, to the server of a client.
pub struct Conn<R> {
    pub addr: SocketAddr,
    pub absolute_uris: bool,
    pub tls: Option<TlsConfig>,
    /// Dropped with the connection, so that the client learns of its end.
    /// Gone once a connection was made.
    pub running: Option<R>,
}

/// A connection that is being made.
pub struct Connect<R> {
    pub addr: SocketAddr,
    /// The handshake that is still to be done, if any.
    pub tls: Option<TlsConfig>,
    pub abs_form: bool,
    pub running: R,
}

/// A connection that was made.
pub struct Connected<R> {
    /// Requests name the whole URI.
    pub abs_form: bool,
    pub running: R,
}

/// What follows a step of making a connection.
pub enum Next<R, E> {
    /// Do a TLS handshake.
    Handshake(TlsConfig, Connect<R>),
    /// The connection is there.
    Done(Connected<R>),
    /// There is none.
    Failed(E),
}

/// What a client's task works with.
pub struct Setup<R> {
    pub conn: Conn<R>,
    /// The client speaks nothing but HTTP/2.
    pub http2_only: bool,
    pub task: Task,
}

/// A client's task: it sends the requests that it is handed, each in a task of
/// its own, until there can be no more; then it has those that are still under
/// way wound up, and ends.
#[derive(Copy, Clone, Debug, PartialEq, Eq, Structural)]
pub enum Task {
    Serving,
    Draining,
    Ended,
}

/// What happens to a client's task.
#[derive(Debug, PartialEq, Eq)]
pub enum TaskEvent<Q> {
    /// This request was handed in.
    Request(Q),
    /// No more requests will be.
    Closed,
    /// None is under way any more.
    Drained,
}

/// What a client's task does next.
#[derive(Debug, PartialEq, Eq)]
pub enum TaskAction<Q> {
    /// Sends this request.
    Send(Q),
    /// Has the requests that are under way wound up.
    Drain,
    /// Ends.
    End,
}

/// `event` can happen to a task in this state.
pub open spec fn can_happen<Q>(task: Task, event: TaskEvent<Q>) -> bool {
    match event {
        TaskEvent::Request(_) | TaskEvent::Closed => task == Task::Serving,
        TaskEvent::Drained => task == Task::Draining,
    }
}

/// The state of a task after `event`, and what it does.
pub open spec fn after<Q>(event: TaskEvent<Q>) -> (Task, TaskAction<Q>) {
    match event {
        TaskEvent::Request(request) => (Task::Serving, TaskAction::Send(request)),
        TaskEvent::Closed => (Task::Draining, TaskAction::Drain),
        TaskEvent::Drained => (Task::Ended, TaskAction::End),
    }
}

impl<R> Setup<R> {
    /// The task is set up for a client that speaks so with the server at
    /// `addr`, and has sent nothing yet.
    pub open spec fn is_for(
        &self,
        addr: SocketAddr,
        version: Run,
        tls: Option<TlsConfig>,
        running: R,
    ) -> bool {
        &&& self.conn.addr == addr
        &&& self.conn.absolute_uris == (version == Run::Http1 { absolute_uris: true })
        &&& same_tls(self.conn.tls, tls)
        &&& self.conn.running == Some(running)
        &&& self.http2_only == (version == Run::Http2)
        &&& self.task == Task::Serving
    }
}

/// Sets up the task of a client. Only HTTP/1.1 names the whole URI, and only if
/// it was told to.
pub fn run<R>(addr: SocketAddr, version: Run, tls: Option<TlsConfig>, running: R) -> (setup: Setup<
    R,
>)
    ensures
        setup.is_for(addr, version, tls, running),
        setup.conn.tls == tls,
        setup.conn.addr == addr,
        setup.conn.running == Some(running),
        setup.conn.absolute_uris <==> (version matches Run::Http1 { absolute_uris: true }),
        setup.http2_only <==> version is Http2,
        setup.task is Serving,
{
    let absolute_uris = if let Run::Http1 { absolute_uris } = version {
        absolute_uris
    } else {
        false
    };
    let http2_only = match version {
        Run::Http1 { .. } => false,
        Run::Http2 => true,
    };
    Setup {
        conn: Conn { addr, absolute_uris, tls, running: Some(running) },
        http2_only,
        task: Task::Serving,
    }
}

impl Task {
    /// Takes what has happened and says what is next.
    pub fn step<Q>(&mut self, event: TaskEvent<Q>) -> (action: TaskAction<Q>)
        requires
            can_happen(*old(self), event),
        ensures
            (*final(self), action) == after(event),
    {
        match event {
            TaskEvent::Request(request) => {
                *self = Task::Serving;
                TaskAction::Send(request)
            },
            TaskEvent::Closed => {
                *self = Task::Draining;
                TaskAction::Drain
            },
            TaskEvent::Drained => {
                *self = Task::Ended;
                TaskAction::End
            },
        }
    }
}

/// The settings of two optional TLS configurations agree.
pub open spec fn same_tls(a: Option<TlsConfig>, b: Option<TlsConfig>) -> bool {
    match (a, b) {
        (Some(a), Some(b)) => a.same(&b),
        (None, None) => true,
        _ => false,
    }
}

impl<R> Conn<R> {
    /// A connection can always be asked for.
    pub fn poll_ready(&self) -> (ready: bool)
        ensures
            ready,
    {
        true
    }

    /// Starts to connect. This cannot be done twice.
    pub fn call(&mut self) -> (connect: Connect<R>)
        requires
            old(self).running is Some,
        ensures
            connect.addr == old(self).addr,
            same_tls(connect.tls, old(self).tls),
            connect.tls is Some <==> old(self).tls is Some,
            connect.abs_form == old(self).absolute_uris,
            Some(connect.running) == old(self).running,
            final(self).running is None,
            final(self).addr == old(self).addr,
            final(self).absolute_uris == old(self).absolute_uris,
            final(self).tls == old(self).tls,
    {
        let tls = match &self.tls {
            Some(tls) => Some(tls.clone()),
            None => None,
        };
        let running = self.running.take().unwrap();
        Connect { addr: self.addr, tls, abs_form: self.absolute_uris, running }
    }
}

/// What follows a step of `connect` with this outcome: a handshake if one is
/// still to be done, else the connection is there.
pub open spec fn follows<R, E>(connect: Connect<R>, outcome: Result<(), E>) -> Next<R, E> {
    match (outcome, connect.tls) {
        (Err(error), _) => Next::Failed(error),
        (Ok(()), Some(tls)) => Next::Handshake(tls, Connect { tls: None, ..connect }),
        (Ok(()), None) => Next::Done(
            (Connected { abs_form: connect.abs_form, running: connect.running }),
        ),
    }
}

impl<R> Connect<R> {
    /// Takes the outcome of the step that was under way, first the connecting
    /// and then the handshake, and says what follows it.
    pub fn resume<E>(self, outcome: Result<(), E>) -> (next: Next<R, E>)
        ensures
            next == follows(self, outcome),
            outcome matches Err(error) ==> (next matches Next::Failed(reported) && reported
                == error),
            next is Done <==> outcome is Ok && self.tls is None,
            next is Handshake <==> outcome is Ok && self.tls is Some,
    {
        match outcome {
            Err(error) => Next::Failed(error),
            Ok(()) => match self.tls {
                Some(tls) => Next::Handshake(
                    tls,
                    Connect {
                        addr: self.addr,
                        tls: None,
                        abs_form: self.abs_form,
                        running: self.running,
                    },
                ),
                None => Next::Done(Connected { abs_form: self.abs_form, running: self.running }),
            },
        }
    }
}

/// A connection with TLS is there only after a handshake with the configuration
/// that was given, one without TLS as soon as it is connected; either names the
/// whole URI just if it was told to, and holds what it was given to drop.
pub proof fn tls_is_not_skipped<R, E>(connect: Connect<R>)
    ensures
        match connect.tls {
            None => follows::<R, E>(connect, Ok(())) == Next::<R, E>::Done(
                (Connected { abs_form: connect.abs_form, running: connect.running }),
            ),
            Some(tls) => {
                &&& follows::<R, E>(connect, Ok(())) matches Next::Handshake(used, rest)
                &&& used == tls
                &&& follows::<R, E>(rest, Ok(())) == Next::<R, E>::Done(
                    (Connected { abs_form: connect.abs_form, running: connect.running }),
                )
            },
        },
{
}

/// The state of a task, which starts out serving, after `events`.
pub open spec fn task_after<Q>(events: Seq<TaskEvent<Q>>) -> Task {
    if events.len() == 0 {
        Task::Serving
    } else {
        after(events.last()).0
    }
}

/// Each of `events` could happen when it did.
pub open spec fn is_run<Q>(events: Seq<TaskEvent<Q>>) -> bool
    decreases events.len(),
{
    events.len() > 0 ==> {
        &&& is_run(events.drop_last())
        &&& can_happen(task_after(events.drop_last()), events.last())
    }
}

/// `events` are requests, all of them.
pub open spec fn all_requests<Q>(events: Seq<TaskEvent<Q>>) -> bool {
    forall|i: int| 0 <= i < events.len() ==> #[trigger] events[i] is Request
}

/// A task ends in order: all the requests come first, then no more can come and
/// those under way are wound up, once, and only then does the task end.
pub proof fn a_task_winds_up_before_it_ends<Q>(events: Seq<TaskEvent<Q>>)
    requires
        is_run(events),
    ensures
        match task_after(events) {
            Task::Serving => all_requests(events),
            Task::Draining => {
                &&& events.len() >= 1
                &&& all_requests(events.take(events.len() - 1))
                &&& events.last() == TaskEvent::<Q>::Closed
            },
            Task::Ended => {
                &&& events.len() >= 2
                &&& all_requests(events.take(events.len() - 2))
                &&& events[events.len() - 2] == TaskEvent::<Q>::Closed
                &&& events.last() == TaskEvent::<Q>::Drained
            },
        },
    decreases events.len(),
{
    if events.len() > 0 {
        let before = events.drop_last();
        a_task_winds_up_before_it_ends(before);
        assert(before =~= events.take(events.len() - 1));
        if task_after(events) == Task::Ended {
            assert(before.take(before.len() - 1) =~= events.take(events.len() - 2));
        }
        if task_after(events) == Task::Serving {
            assert forall|i: int| 0 <= i < events.len() implies #[trigger] events[i] is Request by {
                if i < before.len() {
                    assert(before[i] is Request);
                }
            }
        }
    }
}

/// The requests that were handed in, in order.
pub open spec fn handed_in<Q>(events: Seq<TaskEvent<Q>>) -> Seq<Q>
    decreases events.len(),
{
    if events.len() == 0 {
        seq![]
    } else {
        match events.last() {
            TaskEvent::Request(request) => handed_in(events.drop_last()).push(request),
            _ => handed_in(events.drop_last()),
        }
    }
}

/// The requests that a task sends, in order.
pub open spec fn sends<Q>(events: Seq<TaskEvent<Q>>) -> Seq<Q>
    decreases events.len(),
{
    if events.len() == 0 {
        seq![]
    } else {
        match after(events.last()).1 {
            TaskAction::Send(request) => sends(events.drop_last()).push(request),
            _ => sends(events.drop_last()),
        }
    }
}

/// A task sends what it is handed: every request once, unchanged, in the order
/// in which they came, and nothing else.
pub proof fn a_task_sends_what_it_is_handed<Q>(events: Seq<TaskEvent<Q>>)
    requires
        is_run(events),
    ensures
        sends(events) == handed_in(events),
    decreases events.len(),
{
    if events.len() > 0 {
        a_task_sends_what_it_is_handed(events.drop_last());
    }
}

} // verus!
