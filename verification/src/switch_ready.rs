//! A service that falls back to a secondary service while its primary service
//! takes too long to become ready.
//!
//! [`SwitchReady`] decides; its caller polls. One readiness check is a
//! conversation: [`SwitchReady::poll_ready`] opens it with a first [`Action`],
//! each [`SwitchReady::resume`] takes the [`Event`] that the action led to and
//! gives the next action, and [`Action::Return`] closes it.
use std::time::Duration;
use tower::spawn_ready::SpawnReady;
use vstd::prelude::*;

verus! {

/// `tower::spawn_ready::SpawnReady`, which drives the service that it wraps to
/// readiness in a task of its own. Nothing is known of a value of it.
#[verifier::external_type_specification]
#[verifier::external_body]
#[verifier::reject_recursive_types(S)]
pub struct ExSpawnReady<S>(SpawnReady<S>);

/// `SpawnReady::new` wraps the service that it is given. A `SpawnReady` shows
/// nothing of what it holds, so nothing is claimed of the result.
pub assume_specification<S>[ SpawnReady::<S>::new ](service: S) -> (wrapped: SpawnReady<S>);

/// Which service readiness is currently taken from.
#[derive(Copy, Clone, Debug, PartialEq, Eq, Structural)]
pub enum State {
    /// The primary service is in use.
    Primary,
    /// The primary service is pending and the timer is running.
    Waiting,
    /// The timer has expired; the secondary service stands in.
    Secondary,
}

/// What a readiness check is waiting to hear of.
#[derive(Copy, Clone, Debug, PartialEq, Eq, Structural)]
pub enum Step {
    /// No check is in progress.
    Idle,
    /// The primary service is being polled.
    Primary,
    /// The timer is being polled.
    Timer,
    /// The secondary service is being polled.
    Secondary,
}

/// Whether a service can take a request.
#[derive(Debug, PartialEq, Eq)]
pub enum Readiness<E> {
    /// It can, or it has failed.
    Ready(Result<(), E>),
    /// Not yet.
    Pending,
}

/// What the caller is to do next.
#[derive(Debug, PartialEq, Eq)]
pub enum Action<E> {
    /// Poll the primary service.
    PollPrimary,
    /// Poll the timer, after setting it to expire this long from now if a
    /// delay is given.
    PollTimer(Option<Duration>),
    /// Poll the secondary service.
    PollSecondary,
    /// The check is over, with this result.
    Return(Readiness<E>),
}

/// What an action led to.
#[derive(Debug, PartialEq, Eq)]
pub enum Event<E> {
    /// The primary service answered the poll.
    Primary(Readiness<E>),
    /// The timer answered the poll: has it expired?
    Timer(bool),
    /// The secondary service answered the poll.
    Secondary(Readiness<E>),
}

/// The service that a request goes to.
#[derive(Copy, Clone, Debug, PartialEq, Eq, Structural)]
pub enum Target {
    Primary,
    Secondary,
}

/// Makes a service for a target.
pub trait NewService<T> {
    type Service;

    fn new_service(&self, target: T) -> Self::Service;
}

/// A service that falls back to `secondary` if `primary` takes longer than
/// `switch_after` to become ready.
#[derive(Debug)]
#[verifier::reject_recursive_types(A)]
pub struct SwitchReady<A, B> {
    /// Wrapped so that it can still become ready while the secondary service
    /// is in use.
    primary: SpawnReady<A>,
    /// Not wrapped: it need not be driven unless the primary has timed out.
    secondary: B,
    switch_after: Duration,
    state: State,
    step: Step,
}

/// Makes [`SwitchReady`] services.
#[derive(Debug)]
pub struct NewSwitchReady<A, B> {
    new_primary: A,
    new_secondary: B,
    switch_after: Duration,
}

/// The action that opens a check in `state`: the primary service is always
/// polled first, except that a running timer is looked at before it.
pub open spec fn first_action<E>(state: State) -> Action<E> {
    match state {
        State::Primary | State::Secondary => Action::PollPrimary,
        State::Waiting => Action::PollTimer(None),
    }
}

/// What an action is answered with.
pub open spec fn step_of<E>(action: Action<E>) -> Step {
    match action {
        Action::PollPrimary => Step::Primary,
        Action::PollTimer(_) => Step::Timer,
        Action::PollSecondary => Step::Secondary,
        Action::Return(_) => Step::Idle,
    }
}

/// `event` is an answer to what `step` waits for.
pub open spec fn answers<E>(event: Event<E>, step: Step) -> bool {
    match event {
        Event::Primary(_) => step == Step::Primary,
        Event::Timer(_) => step == Step::Timer,
        Event::Secondary(_) => step == Step::Secondary,
    }
}

/// A check in progress waits only for what its state can ask for.
pub open spec fn consistent(state: State, step: Step) -> bool {
    match step {
        Step::Idle | Step::Primary => true,
        Step::Timer => state == State::Waiting,
        Step::Secondary => state == State::Secondary,
    }
}

/// The state after `event` and the action that follows it.
///
/// - A primary service that is ready (or failed) is used, whatever came before.
/// - One that turns out pending while it was in use starts the timer.
/// - An expired timer hands over to the secondary service, but the primary is
///   given one more chance before the secondary is asked.
pub open spec fn advance<E>(state: State, event: Event<E>, switch_after: Duration) -> (
    State,
    Action<E>,
) {
    match event {
        Event::Primary(Readiness::Ready(r)) => (
            State::Primary,
            Action::Return(Readiness::Ready(r)),
        ),
        Event::Primary(Readiness::Pending) => match state {
            State::Primary => (State::Waiting, Action::PollTimer(Some(switch_after))),
            State::Waiting => (State::Waiting, Action::Return(Readiness::Pending)),
            State::Secondary => (State::Secondary, Action::PollSecondary),
        },
        Event::Timer(true) => (State::Secondary, Action::PollPrimary),
        Event::Timer(false) => (State::Waiting, Action::PollPrimary),
        Event::Secondary(r) => (State::Secondary, Action::Return(r)),
    }
}

impl<A, B> NewSwitchReady<A, B> {
    pub closed spec fn new_primary(&self) -> A {
        self.new_primary
    }

    pub closed spec fn new_secondary(&self) -> B {
        self.new_secondary
    }

    pub closed spec fn switch_after(&self) -> Duration {
        self.switch_after
    }

    /// Returns a new `NewSwitchReady`.
    ///
    /// Its services forward requests to the primary service, unless that takes
    /// over `switch_after` to become ready. If so, the secondary service is
    /// used until the primary service becomes ready again.
    pub fn new(new_primary: A, new_secondary: B, switch_after: Duration) -> (this: Self)
        ensures
            this.new_primary() == new_primary,
            this.new_secondary() == new_secondary,
            this.switch_after() == switch_after,
    {
        NewSwitchReady { new_primary, new_secondary, switch_after }
    }
}

impl<A: Clone, B: Clone> Clone for NewSwitchReady<A, B> {
    fn clone(&self) -> (copy: Self)
        ensures
            cloned(self.new_primary(), copy.new_primary()),
            cloned(self.new_secondary(), copy.new_secondary()),
            copy.switch_after() == self.switch_after(),
    {
        NewSwitchReady {
            new_primary: self.new_primary.clone(),
            new_secondary: self.new_secondary.clone(),
            switch_after: self.switch_after,
        }
    }
}

impl<A, B, T> NewService<T> for NewSwitchReady<A, B> where
    T: Clone,
    A: NewService<T>,
    B: NewService<T>,
 {
    type Service = SwitchReady<A::Service, B::Service>;

    /// The primary service is made for a clone of the target, the secondary
    /// one for the target itself.
    fn new_service(&self, target: T) -> (service: Self::Service)
        ensures
            exists|copy: T, primary: A::Service|
                {
                    &&& cloned(target, copy)
                    &&& #[trigger] call_ensures(A::new_service, (&self.new_primary(), copy), primary)
                    &&& call_ensures(SpawnReady::<A::Service>::new, (primary,), service.primary())
                },
            call_ensures(B::new_service, (&self.new_secondary(), target), service.secondary()),
            service.switch_after() == self.switch_after(),
            service.state() == State::Primary,
            service.step() == Step::Idle,
    {
        let copy = target.clone();
        let ghost given = copy;
        let primary = self.new_primary.new_service(copy);
        let ghost made = primary;
        let secondary = self.new_secondary.new_service(target);
        let service = SwitchReady::new(primary, secondary, self.switch_after);
        assert(cloned(target, given));
        assert(call_ensures(A::new_service, (&self.new_primary(), given), made));
        service
    }
}

impl<A, B> SwitchReady<A, B> {
    pub closed spec fn switch_after(&self) -> Duration {
        self.switch_after
    }

    pub closed spec fn state(&self) -> State {
        self.state
    }

    pub closed spec fn step(&self) -> Step {
        self.step
    }

    pub closed spec fn primary(&self) -> SpawnReady<A> {
        self.primary
    }

    pub closed spec fn secondary(&self) -> B {
        self.secondary
    }

    /// The service waits only for what its state can ask for.
    pub open spec fn well_formed(&self) -> bool {
        consistent(self.state(), self.step())
    }

    /// Returns a new `SwitchReady`.
    ///
    /// It forwards requests to the primary service, unless that takes over
    /// `switch_after` to become ready. If so, the secondary service is used
    /// until the primary service becomes ready again.
    pub fn new(primary: A, secondary: B, switch_after: Duration) -> (this: Self)
        ensures
            call_ensures(SpawnReady::<A>::new, (primary,), this.primary()),
            this.secondary() == secondary,
            this.switch_after() == switch_after,
            this.state() == State::Primary,
            this.step() == Step::Idle,
            this.well_formed(),
    {
        SwitchReady {
            primary: SpawnReady::new(primary),
            secondary,
            switch_after,
            state: State::Primary,
            step: Step::Idle,
        }
    }

    /// The primary service, for the caller to poll and to call.
    pub fn primary_mut(&mut self) -> (primary: &mut SpawnReady<A>)
        ensures
            *primary == old(self).primary(),
            final(self).primary() == *final(primary),
            final(self).secondary() == old(self).secondary(),
            final(self).switch_after() == old(self).switch_after(),
            final(self).state() == old(self).state(),
            final(self).step() == old(self).step(),
    {
        &mut self.primary
    }

    /// The secondary service, for the caller to poll and to call.
    pub fn secondary_mut(&mut self) -> (secondary: &mut B)
        ensures
            *secondary == old(self).secondary(),
            final(self).secondary() == *final(secondary),
            final(self).primary() == old(self).primary(),
            final(self).switch_after() == old(self).switch_after(),
            final(self).state() == old(self).state(),
            final(self).step() == old(self).step(),
    {
        &mut self.secondary
    }

    /// Opens a readiness check. One that was left unfinished is dropped.
    pub fn poll_ready<E>(&mut self) -> (action: Action<E>)
        ensures
            action == first_action::<E>(old(self).state()),
            final(self).step() == step_of(action),
            final(self).well_formed(),
            final(self).state() == old(self).state(),
            final(self).switch_after() == old(self).switch_after(),
            final(self).primary() == old(self).primary(),
            final(self).secondary() == old(self).secondary(),
    {
        match self.state {
            State::Primary | State::Secondary => {
                self.step = Step::Primary;
                Action::PollPrimary
            },
            State::Waiting => {
                self.step = Step::Timer;
                Action::PollTimer(None)
            },
        }
    }

    /// Takes the answer to the last action and says what is next.
    pub fn resume<E>(&mut self, event: Event<E>) -> (action: Action<E>)
        requires
            answers(event, old(self).step()),
        ensures
            (final(self).state(), action) == advance(
                old(self).state(),
                event,
                old(self).switch_after(),
            ),
            final(self).step() == step_of(action),
            final(self).well_formed(),
            final(self).switch_after() == old(self).switch_after(),
            final(self).primary() == old(self).primary(),
            final(self).secondary() == old(self).secondary(),
    {
        let (state, step, action): (State, Step, Action<E>) = match event {
            Event::Primary(Readiness::Ready(ready)) => (
                State::Primary,
                Step::Idle,
                Action::Return(Readiness::Ready(ready)),
            ),
            Event::Primary(Readiness::Pending) => match self.state {
                State::Primary => (
                    State::Waiting,
                    Step::Timer,
                    Action::PollTimer(Some(self.switch_after)),
                ),
                State::Waiting => (State::Waiting, Step::Idle, Action::Return(Readiness::Pending)),
                State::Secondary => (State::Secondary, Step::Secondary, Action::PollSecondary),
            },
            Event::Timer(expired) => if expired {
                (State::Secondary, Step::Primary, Action::PollPrimary)
            } else {
                (State::Waiting, Step::Primary, Action::PollPrimary)
            },
            Event::Secondary(ready) => (State::Secondary, Step::Idle, Action::Return(ready)),
        };
        self.state = state;
        self.step = step;
        action
    }

    /// The service that a request goes to: the one whose readiness was last
    /// reported. There is none while the primary service is being waited for.
    pub fn call(&self) -> (target: Target)
        requires
            self.state() != State::Waiting,
        ensures
            target == match self.state() {
                State::Primary => Target::Primary,
                _ => Target::Secondary,
            },
    {
        match self.state {
            State::Primary => Target::Primary,
            _ => Target::Secondary,
        }
    }

    /// Whether a request may be made.
    pub fn can_call(&self) -> (can: bool)
        ensures
            can == (self.state() != State::Waiting),
    {
        match self.state {
            State::Waiting => false,
            _ => true,
        }
    }
}

} // verus!
