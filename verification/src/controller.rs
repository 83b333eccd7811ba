//! The controller that answers certificate requests.
use std::collections::VecDeque;
use vstd::prelude::*;

use crate::certificates::copy_all;
use crate::tls::{contents, present};

verus! {

/// How long a response that is issued on request is valid, in seconds.
pub const VALIDITY: i64 = 666;

/// A point in time, in seconds and nanoseconds since the Unix epoch.
#[derive(Copy, Clone, Debug, PartialEq, Eq, Structural)]
pub struct Timestamp {
    pub seconds: i64,
    pub nanos: i32,
}

/// The answer to a certificate request.
#[derive(Debug)]
pub struct CertifyResponse {
    pub leaf_certificate: Vec<u8>,
    pub intermediate_certificates: Vec<Vec<u8>>,
    pub valid_until: Option<Timestamp>,
}

/// Why a request was refused.
#[derive(Copy, Clone, Debug, PartialEq, Eq, Structural)]
pub enum Code {
    Internal,
    Unavailable,
}

/// A refusal.
#[derive(Debug)]
pub struct Status {
    pub code: Code,
    pub message: String,
}

/// How one request is to be answered.
#[derive(Debug)]
pub enum Certify<F, G> {
    /// With this response, valid from when it is asked for.
    Issue(CertifyResponse),
    /// By a call that gives a response.
    Call(F),
    /// By a call that gives a response, or fails, later.
    CallAsync(G),
}

/// What a request gets from the call that answers it.
#[derive(Debug)]
pub enum Reply<F, G> {
    /// This response.
    Response(CertifyResponse),
    /// What this call gives.
    Call(F),
    /// What this call gives later, if it does not fail.
    CallAsync(G),
}

/// Answers certificate requests with the calls that it was told to expect.
#[derive(Debug)]
pub struct Controller<F, G> {
    expect_calls: VecDeque<Certify<F, G>>,
}

/// When a response that is issued at `now` expires.
pub open spec fn expiry(now: Timestamp) -> Timestamp {
    Timestamp { seconds: (now.seconds + VALIDITY) as i64, nanos: now.nanos }
}

/// `reply` is what a request that came at `now` gets from `call`: a response to
/// be issued is valid from then on, and a call is made as it is.
pub open spec fn replies<F, G>(call: Certify<F, G>, now: Timestamp, reply: Reply<F, G>) -> bool {
    match call {
        Certify::Issue(issued) => {
            &&& reply matches Reply::Response(response)
            &&& response.chain() == issued.chain()
            &&& response.valid_until == Some(expiry(now))
        },
        Certify::Call(f) => reply == Reply::<F, G>::Call(f),
        Certify::CallAsync(f) => reply == Reply::<F, G>::CallAsync(f),
    }
}

impl<F, G> Certify<F, G> {
    /// Answers a request that came at `now`.
    pub fn reply(self, now: Timestamp) -> (reply: Reply<F, G>)
        requires
            self is Issue ==> now.seconds + VALIDITY <= i64::MAX,
        ensures
            replies(self, now, reply),
            self matches Certify::Issue(issued) ==> {
                &&& reply matches Reply::Response(response)
                &&& response.leaf_certificate == issued.leaf_certificate
                &&& response.intermediate_certificates == issued.intermediate_certificates
                &&& response.valid_until matches Some(until)
                &&& until.seconds - now.seconds == 666
                &&& until.nanos == now.nanos
            },
    {
        match self {
            Certify::Issue(response) => Reply::Response(response.valid_from(now)),
            Certify::Call(f) => Reply::Call(f),
            Certify::CallAsync(f) => Reply::CallAsync(f),
        }
    }
}

impl CertifyResponse {
    /// The certificates that the response hands out, leaf first.
    pub open spec fn chain(&self) -> Seq<Seq<u8>> {
        seq![self.leaf_certificate@] + contents(self.intermediate_certificates@)
    }

    /// A copy of the response.
    pub fn copy(&self) -> (response: CertifyResponse)
        ensures
            response.chain() == self.chain(),
            response.valid_until == self.valid_until,
            response.leaf_certificate@ == self.leaf_certificate@,
            contents(response.intermediate_certificates@) == contents(
                self.intermediate_certificates@,
            ),
    {
        let leaf = self.leaf_certificate.clone();
        assert(leaf@ =~= self.leaf_certificate@);
        CertifyResponse {
            leaf_certificate: leaf,
            intermediate_certificates: copy_all(&self.intermediate_certificates),
            valid_until: self.valid_until,
        }
    }

    /// The same response, valid for [`VALIDITY`] from `now`.
    pub fn valid_from(self, now: Timestamp) -> (response: CertifyResponse)
        requires
            now.seconds + VALIDITY <= i64::MAX,
        ensures
            response.chain() == self.chain(),
            response.valid_until == Some(expiry(now)),
            response.valid_until matches Some(until) && until.seconds - now.seconds == 666
                && until.nanos == now.nanos,
            response.leaf_certificate == self.leaf_certificate,
            response.intermediate_certificates == self.intermediate_certificates,
    {
        CertifyResponse {
            leaf_certificate: self.leaf_certificate,
            intermediate_certificates: self.intermediate_certificates,
            valid_until: Some(Timestamp { seconds: now.seconds + VALIDITY, nanos: now.nanos }),
        }
    }
}

/// What a controller that expects `calls` takes for the next request, and what
/// it expects after that.
pub open spec fn take_next<C>(calls: Seq<C>) -> (Option<C>, Seq<C>) {
    if calls.len() == 0 {
        (None, calls)
    } else {
        (Some(calls[0]), calls.subrange(1, calls.len() as int))
    }
}

impl<F, G> View for Controller<F, G> {
    type V = Seq<Certify<F, G>>;

    /// The calls that are still expected, next first.
    closed spec fn view(&self) -> Seq<Certify<F, G>> {
        self.expect_calls@
    }
}

impl<F, G> Default for Controller<F, G> {
    /// Expects no call.
    fn default() -> (controller: Self)
        ensures
            controller@ == Seq::<Certify<F, G>>::empty(),
    {
        Controller { expect_calls: VecDeque::new() }
    }
}

impl<F, G> Controller<F, G> {
    fn expect(self, call: Certify<F, G>) -> (controller: Self)
        ensures
            controller@ == self@.push(call),
    {
        let mut expect_calls = self.expect_calls;
        expect_calls.push_back(call);
        Controller { expect_calls }
    }

    /// Expects one more request, to be answered by `f`.
    pub fn certify(self, f: F) -> (controller: Self)
        ensures
            controller@ == self@.push(Certify::Call(f)),
    {
        self.expect(Certify::Call(f))
    }

    /// Expects one more request, to be answered by `f` later.
    pub fn certify_async(self, f: G) -> (controller: Self)
        ensures
            controller@ == self@.push(Certify::CallAsync(f)),
    {
        self.expect(Certify::CallAsync(f))
    }

    /// Expects one more request, to be answered with `response`.
    pub fn issue(self, response: CertifyResponse) -> (controller: Self)
        ensures
            controller@ == self@.push(Certify::Issue(response)),
    {
        self.expect(Certify::Issue(response))
    }

    /// Takes a request: gives the call that answers it, which is then no
    /// longer expected, or refuses if none is.
    pub fn take_call(&mut self) -> (call: Result<Certify<F, G>, Status>)
        ensures
            match call {
                Ok(call) => (Some(call), final(self)@) == take_next(old(self)@),
                Err(status) => {
                    &&& (None::<Certify<F, G>>, final(self)@) == take_next(old(self)@)
                    &&& status.code == Code::Unavailable
                    &&& status.message@ == "unit test identity service has no results"@
                },
            },
    {
        match self.expect_calls.pop_front() {
            Some(call) => Ok(call),
            None => Err(
                Status {
                    code: Code::Unavailable,
                    message: "unit test identity service has no results".to_owned(),
                },
            ),
        }
    }
}

/// What a request is answered with once its call has given a response, or has
/// failed for the reason given.
pub fn answer(outcome: Result<CertifyResponse, String>) -> (answer: Result<
    CertifyResponse,
    Status,
>)
    ensures
        match outcome {
            Ok(response) => answer == Ok::<CertifyResponse, Status>(response),
            Err(reason) => answer == Err::<CertifyResponse, Status>(
                (Status { code: Code::Internal, message: reason }),
            ),
        },
{
    match outcome {
        Ok(response) => Ok(response),
        Err(reason) => Err(Status { code: Code::Internal, message: reason }),
    }
}

/// What a controller that expects `calls` takes for each of `n` requests.
pub open spec fn taken<C>(calls: Seq<C>, n: nat) -> Seq<Option<C>>
    decreases n,
{
    if n == 0 {
        seq![]
    } else {
        let (next, rest) = take_next(calls);
        seq![next] + taken(rest, (n - 1) as nat)
    }
}

/// Requests are answered in the order in which their calls were registered,
/// each call answers one request, and requests beyond those are refused.
pub proof fn calls_are_taken_in_order<C>(calls: Seq<C>, n: nat)
    ensures
        taken(calls, n).len() == n,
        forall|i: int|
            0 <= i < n ==> #[trigger] taken(calls, n)[i] == if i < calls.len() {
                Some(calls[i])
            } else {
                None
            },
    decreases n,
{
    if n > 0 {
        calls_are_taken_in_order(take_next(calls).1, (n - 1) as nat);
    }
}

/// A call that is registered later changes nothing of how the requests before
/// it are answered.
pub proof fn later_calls_wait<C>(calls: Seq<C>, call: C, n: nat)
    requires
        n <= calls.len(),
    ensures
        taken(calls.push(call), n) == taken(calls, n),
{
    calls_are_taken_in_order(calls, n);
    calls_are_taken_in_order(calls.push(call), n);
    assert(taken(calls.push(call), n) =~= taken(calls, n));
}

/// Something that is asked of a controller.
pub enum Visit<C> {
    /// This call is registered.
    Registered(C),
    /// A request comes in.
    Requested,
}

/// The calls that are registered in the course of `visits`, in order.
pub open spec fn registered<C>(visits: Seq<Visit<C>>) -> Seq<C>
    decreases visits.len(),
{
    if visits.len() == 0 {
        seq![]
    } else {
        match visits.last() {
            Visit::Registered(call) => registered(visits.drop_last()).push(call),
            Visit::Requested => registered(visits.drop_last()),
        }
    }
}

/// The calls that a controller, which starts out expecting none, expects after
/// `visits`.
pub open spec fn waiting<C>(visits: Seq<Visit<C>>) -> Seq<C>
    decreases visits.len(),
{
    if visits.len() == 0 {
        seq![]
    } else {
        match visits.last() {
            Visit::Registered(call) => waiting(visits.drop_last()).push(call),
            Visit::Requested => take_next(waiting(visits.drop_last())).1,
        }
    }
}

/// What the requests among `visits` are answered by, in order; `None` for one
/// that is refused.
pub open spec fn answered_by<C>(visits: Seq<Visit<C>>) -> Seq<Option<C>>
    decreases visits.len(),
{
    if visits.len() == 0 {
        seq![]
    } else {
        match visits.last() {
            Visit::Registered(_) => answered_by(visits.drop_last()),
            Visit::Requested => answered_by(visits.drop_last()).push(
                take_next(waiting(visits.drop_last())).0,
            ),
        }
    }
}

/// However registering and requests take turns, and whoever does either, the
/// calls that were registered are those that have answered a request and, after
/// them, those that still wait, all in the order in which they were registered:
/// a call goes behind all that wait already, none is lost, moved or made twice,
/// and a request is refused just if none waits.
pub proof fn every_call_takes_its_turn<C>(visits: Seq<Visit<C>>)
    ensures
        present(answered_by(visits)) + waiting(visits) == registered(visits),
        visits.len() > 0 && visits.last() is Requested ==> (answered_by(visits).last() is None
            <==> waiting(visits.drop_last()).len() == 0),
    decreases visits.len(),
{
    if visits.len() > 0 {
        let before = visits.drop_last();
        every_call_takes_its_turn(before);
        match visits.last() {
            Visit::Registered(call) => {
                assert(present(answered_by(before)) + waiting(before).push(call) =~= (present(
                    answered_by(before),
                ) + waiting(before)).push(call));
            },
            Visit::Requested => {
                assert(answered_by(visits).drop_last() =~= answered_by(before));
                assert(present(answered_by(visits)) + waiting(visits) =~= present(
                    answered_by(before),
                ) + waiting(before));
            },
        }
    }
}

} // verus!
