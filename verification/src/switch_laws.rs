//! What holds of every readiness check of a
//! [`SwitchReady`](crate::switch_ready::SwitchReady), and of its whole life.
use std::time::Duration;
use vstd::prelude::*;

use crate::switch_ready::{
    advance, answers, consistent, first_action, step_of, Action, Event, Readiness, State, Step,
};

verus! {

/// Where a check that was opened in `start` stands after `events`: the state,
/// and the action that is now due.
pub open spec fn check<E>(start: State, events: Seq<Event<E>>, switch_after: Duration) -> (
    State,
    Action<E>,
)
    decreases events.len(),
{
    if events.len() == 0 {
        (start, first_action(start))
    } else {
        advance(check(start, events.drop_last(), switch_after).0, events.last(), switch_after)
    }
}

/// Each of `events` answers the action that was due when it came.
pub open spec fn is_check<E>(start: State, events: Seq<Event<E>>, switch_after: Duration) -> bool
    decreases events.len(),
{
    events.len() > 0 ==> {
        &&& is_check(start, events.drop_last(), switch_after)
        &&& answers(
            events.last(),
            step_of(check(start, events.drop_last(), switch_after).1),
        )
    }
}

/// The most polls that a check opened in `start` takes.
pub open spec fn most_polls(start: State) -> nat {
    match start {
        State::Primary => 4,
        State::Waiting => 3,
        State::Secondary => 2,
    }
}

/// How many polls are left at most when `action` is due in `state`.
spec fn polls_left<E>(state: State, action: Action<E>) -> nat {
    match action {
        Action::PollPrimary => if state == State::Primary {
            4
        } else {
            2
        },
        Action::PollTimer(_) => 3,
        Action::PollSecondary => 1,
        Action::Return(_) => 0,
    }
}

proof fn lemma_polls_left<E>(start: State, events: Seq<Event<E>>, switch_after: Duration)
    requires
        is_check(start, events, switch_after),
    ensures
        ({
            let (state, action) = check(start, events, switch_after);
            &&& events.len() + polls_left(state, action) <= most_polls(start)
            &&& consistent(state, step_of(action))
            &&& state == State::Primary ==> (action is PollPrimary && events.len() == 0)
                || action is Return
        }),
    decreases events.len(),
{
    if events.len() > 0 {
        lemma_polls_left(start, events.drop_last(), switch_after);
    }
}

/// A readiness check ends: it takes at most four polls, three if the timer was
/// already running and two if the secondary service was in use, and none
/// follows the one that gave the result.
pub proof fn a_check_ends<E>(start: State, events: Seq<Event<E>>, switch_after: Duration)
    requires
        is_check(start, events, switch_after),
    ensures
        events.len() <= most_polls(start),
        events.len() == most_polls(start) ==> check(start, events, switch_after).1 is Return,
{
    lemma_polls_left(start, events, switch_after);
}

/// When a check reports a service ready (or failed), that service is the one
/// that said so last, the report is its own, and requests go to it: the state
/// is never `Waiting`.
pub proof fn readiness_is_the_targets_own<E>(
    start: State,
    events: Seq<Event<E>>,
    switch_after: Duration,
    report: Result<(), E>,
)
    requires
        is_check(start, events, switch_after),
        check(start, events, switch_after).1 == Action::Return(Readiness::Ready(report)),
    ensures
        events.len() > 0,
        match check(start, events, switch_after).0 {
            State::Primary => events.last() == Event::Primary(Readiness::Ready(report)),
            State::Secondary => events.last() == Event::Secondary(Readiness::Ready(report)),
            State::Waiting => false,
        },
{
}

/// A check that ends with the primary service still pending leaves the timer
/// running, unless the timer had expired: then it is the secondary service
/// that is pending too.
pub proof fn pending_is_waiting_or_secondary<E>(
    start: State,
    events: Seq<Event<E>>,
    switch_after: Duration,
)
    requires
        is_check(start, events, switch_after),
        check(start, events, switch_after).1 == Action::<E>::Return(Readiness::Pending),
    ensures
        events.len() > 0,
        match check(start, events, switch_after).0 {
            State::Primary => false,
            State::Waiting => events.last() == Event::<E>::Primary(Readiness::Pending),
            State::Secondary => events.last() == Event::<E>::Secondary(Readiness::Pending),
        },
{
    lemma_polls_left(start, events, switch_after);
}

/// The primary service takes precedence: the secondary service is asked only
/// right after the primary service was found pending in the same check, and
/// only once the timer has expired.
pub proof fn secondary_is_asked_last<E>(
    start: State,
    events: Seq<Event<E>>,
    switch_after: Duration,
)
    requires
        is_check(start, events, switch_after),
        check(start, events, switch_after).1 is PollSecondary,
    ensures
        events.len() > 0,
        events.last() == Event::<E>::Primary(Readiness::Pending),
        check(start, events, switch_after).0 == State::Secondary,
        start == State::Secondary || (events.len() > 1 && events[events.len() - 2] == Event::<
            E,
        >::Timer(true)),
{
    reveal_with_fuel(is_check, 3);
    reveal_with_fuel(check, 3);
    let before = events.drop_last();
    lemma_polls_left(start, before, switch_after);
    if before.len() > 0 {
        lemma_polls_left(start, before.drop_last(), switch_after);
    }
}

/// A primary service that is pending is stood in for: once the timer has been
/// found expired, and for as long as the secondary service is in use, a primary
/// service found pending has the secondary service asked.
pub proof fn falls_back_from_a_pending_primary<E>(
    start: State,
    events: Seq<Event<E>>,
    switch_after: Duration,
)
    requires
        is_check(start, events, switch_after),
        events.len() > 0,
        events.last() == Event::<E>::Primary(Readiness::Pending),
        start == State::Secondary || (events.len() > 1 && events[events.len() - 2] == Event::<
            E,
        >::Timer(true)),
    ensures
        check(start, events, switch_after) == (State::Secondary, Action::<E>::PollSecondary),
{
    reveal_with_fuel(is_check, 3);
    reveal_with_fuel(check, 3);
    a_check_ends(start, events, switch_after);
}

/// A primary service that is ready, or has failed, is reverted to at once, and
/// its answer ends the check.
pub proof fn reverts_to_a_ready_primary<E>(
    start: State,
    events: Seq<Event<E>>,
    switch_after: Duration,
    report: Result<(), E>,
)
    requires
        is_check(start, events, switch_after),
        events.len() > 0,
        events.last() == Event::Primary(Readiness::Ready(report)),
    ensures
        check(start, events, switch_after) == (
            State::Primary,
            Action::Return(Readiness::Ready(report)),
        ),
{
}

/// Something that happens to a service.
pub enum Input<E> {
    /// A readiness check is opened.
    Opened,
    /// The action that was due has led to this.
    Answered(Event<E>),
}

/// Something that happens to a service at a point in time.
pub struct Moment<E> {
    pub at: int,
    pub input: Input<E>,
}

/// The state of a service, and what its check waits for, after `life`, which
/// starts when the service is made.
pub open spec fn outcome<E>(life: Seq<Moment<E>>, switch_after: Duration) -> (State, Step)
    decreases life.len(),
{
    if life.len() == 0 {
        (State::Primary, Step::Idle)
    } else {
        let (state, _) = outcome(life.drop_last(), switch_after);
        match life.last().input {
            Input::Opened => (state, step_of(first_action::<E>(state))),
            Input::Answered(event) => {
                let (next, action) = advance(state, event, switch_after);
                (next, step_of(action))
            },
        }
    }
}

/// The last moment of `life` has the timer set, to expire after `switch_after`.
pub open spec fn sets_timer<E>(life: Seq<Moment<E>>, switch_after: Duration) -> bool {
    &&& life.len() > 0
    &&& life.last().input matches Input::Answered(event)
    &&& advance(outcome(life.drop_last(), switch_after).0, event, switch_after).1
        == Action::<E>::PollTimer(Some(switch_after))
}

/// The moment of `life` at which the timer was last set.
pub open spec fn timer_set<E>(life: Seq<Moment<E>>, switch_after: Duration) -> Option<int>
    decreases life.len(),
{
    if life.len() == 0 {
        None
    } else if sets_timer(life, switch_after) {
        Some(life.len() - 1)
    } else {
        timer_set(life.drop_last(), switch_after)
    }
}

/// `life` can happen: every event answers the action that was due, and a timer
/// is found expired no sooner than `delay` after it was last set.
pub open spec fn is_life<E>(life: Seq<Moment<E>>, switch_after: Duration, delay: int) -> bool
    decreases life.len(),
{
    life.len() > 0 ==> {
        let before = life.drop_last();
        &&& is_life(before, switch_after, delay)
        &&& life.last().input matches Input::Answered(event) ==> answers(
            event,
            outcome(before, switch_after).1,
        )
        &&& expired(life.last()) ==> match timer_set(before, switch_after) {
            Some(set) => life.last().at >= life[set].at + delay,
            None => true,
        }
    }
}

/// The primary service is found ready, or failed.
pub open spec fn primary_ready<E>(moment: Moment<E>) -> bool {
    moment.input matches Input::Answered(Event::Primary(Readiness::Ready(_)))
}

/// The timer is found expired.
pub open spec fn expired<E>(moment: Moment<E>) -> bool {
    moment.input == Input::Answered(Event::<E>::Timer(true))
}

/// A service is in use only as promised. Out of state `Primary`, the timer was
/// set when the primary service was found pending, and the primary service has
/// not been ready since: no earlier wait counts towards this one. In state
/// `Secondary`, the timer was found expired since then, at least `delay` after
/// it was set.
pub proof fn falls_back_only_after_the_delay<E>(
    life: Seq<Moment<E>>,
    switch_after: Duration,
    delay: int,
)
    requires
        is_life(life, switch_after, delay),
    ensures
        outcome(life, switch_after).0 != State::Primary ==> {
            &&& timer_set(life, switch_after) matches Some(set)
            &&& 0 <= set < life.len()
            &&& life[set].input == Input::Answered(Event::<E>::Primary(Readiness::Pending))
            &&& forall|i: int| set <= i < life.len() ==> !primary_ready(#[trigger] life[i])
            &&& outcome(life, switch_after).0 == State::Secondary ==> exists|i: int|
                set < i < life.len() && expired(#[trigger] life[i]) && life[i].at >= life[set].at
                    + delay
        },
    decreases life.len(),
{
    if life.len() > 0 {
        let before = life.drop_last();
        falls_back_only_after_the_delay(before, switch_after, delay);
        assert forall|i: int| 0 <= i < before.len() implies before[i] == #[trigger] life[i] by {}
        a_service_stays_consistent(before, switch_after, delay);
        if outcome(life, switch_after).0 == State::Secondary {
            let set = timer_set(before, switch_after)->0;
            if outcome(before, switch_after).0 == State::Secondary {
                let i = choose|i: int|
                    set < i < before.len() && expired(#[trigger] before[i]) && before[i].at
                        >= before[set].at + delay;
                assert(expired(life[i]));
            } else {
                assert(expired(life[life.len() - 1]));
            }
        }
    }
}

/// The timer is found to be still running.
pub open spec fn running<E>(moment: Moment<E>) -> bool {
    moment.input == Input::Answered(Event::<E>::Timer(false))
}

/// The timer is punctual in `life`: it is found running only sooner than
/// `delay` after it was last set.
pub open spec fn is_punctual<E>(life: Seq<Moment<E>>, switch_after: Duration, delay: int) -> bool
    decreases life.len(),
{
    life.len() > 0 ==> {
        let before = life.drop_last();
        &&& is_punctual(before, switch_after, delay)
        &&& running(life.last()) ==> match timer_set(before, switch_after) {
            Some(set) => life.last().at < life[set].at + delay,
            None => true,
        }
    }
}

/// The primary service is not waited for any longer than promised: with a
/// punctual timer, a check that ends in state `Waiting` has found the timer
/// running just before, sooner than `delay` after it was set.
pub proof fn falls_back_in_time<E>(life: Seq<Moment<E>>, switch_after: Duration, delay: int)
    requires
        is_life(life, switch_after, delay),
        is_punctual(life, switch_after, delay),
        life.len() > 0,
        life.last().input is Answered,
        outcome(life, switch_after) == (State::Waiting, Step::Idle),
    ensures
        life.len() >= 2,
        running(life[life.len() - 2]),
        timer_set(life, switch_after) matches Some(set) && 0 <= set < life.len() - 2
            && life[life.len() - 2].at < life[set].at + delay,
{
    reveal_with_fuel(is_life, 3);
    reveal_with_fuel(is_punctual, 3);
    reveal_with_fuel(timer_set, 3);
    let before = life.drop_last();
    a_service_stays_consistent(before, switch_after, delay);
    falls_back_only_after_the_delay(life, switch_after, delay);
    if before.len() > 0 {
        falls_back_only_after_the_delay(before.drop_last(), switch_after, delay);
    }
}

/// Asking again does not prolong a wait: the timer is set anew only out of
/// state `Primary`, so whatever happens to a service that waits, or that uses
/// its secondary service, leaves the timer as it was set.
pub proof fn asking_again_leaves_the_timer<E>(life: Seq<Moment<E>>, switch_after: Duration)
    requires
        life.len() > 0,
        outcome(life.drop_last(), switch_after).0 != State::Primary,
    ensures
        timer_set(life, switch_after) == timer_set(life.drop_last(), switch_after),
{
}

/// At every point of its life a service waits only for what its state can ask
/// for.
pub proof fn a_service_stays_consistent<E>(life: Seq<Moment<E>>, switch_after: Duration, delay: int)
    requires
        is_life(life, switch_after, delay),
    ensures
        consistent(outcome(life, switch_after).0, outcome(life, switch_after).1),
    decreases life.len(),
{
    if life.len() > 0 {
        a_service_stays_consistent(life.drop_last(), switch_after, delay);
    }
}

/// The timer is looked at only once it has been set: what it was when the
/// service was made does not matter.
pub proof fn the_first_timer_is_never_used<E>(
    life: Seq<Moment<E>>,
    switch_after: Duration,
    delay: int,
)
    requires
        is_life(life, switch_after, delay),
        outcome(life, switch_after).1 == Step::Timer,
    ensures
        timer_set(life, switch_after) is Some,
{
    a_service_stays_consistent(life, switch_after, delay);
    falls_back_only_after_the_delay(life, switch_after, delay);
}

/// Whatever went before, a service whose primary is found ready is back in
/// state `Primary`, so that the next wait starts a timer of its own.
pub proof fn a_ready_primary_is_in_use<E>(life: Seq<Moment<E>>, switch_after: Duration)
    requires
        life.len() > 0,
        primary_ready(life.last()),
    ensures
        outcome(life, switch_after) == (State::Primary, Step::Idle),
{
}

/// The primary service's own answer is final: in whatever state it is found
/// ready, or failed, it is in use from then on and its answer is the check's.
pub proof fn the_primary_answers_for_itself<E>(
    state: State,
    report: Result<(), E>,
    switch_after: Duration,
)
    ensures
        advance(state, Event::Primary(Readiness::Ready(report)), switch_after).0 is Primary,
        advance(state, Event::Primary(Readiness::Ready(report)), switch_after).1 matches
            Action::Return(Readiness::Ready(given)) && given == report,
{
}

/// The secondary service's answer is the check's too, whatever it is, and the
/// secondary service stays in use.
pub proof fn the_secondary_answers_for_itself<E>(
    state: State,
    answer: Readiness<E>,
    switch_after: Duration,
)
    ensures
        advance(state, Event::Secondary(answer), switch_after).0 is Secondary,
        advance(state, Event::Secondary(answer), switch_after).1 matches Action::Return(given)
            && given == answer,
{
}

/// A primary service that is found pending is waited for if it was in use, with
/// a timer of just `switch_after`; it goes on being waited for if it was; and
/// the secondary service is asked if that was in use.
pub proof fn a_pending_primary_changes_nothing_but_a_first_wait<E>(
    state: State,
    switch_after: Duration,
)
    ensures
        ({
            let (next, action) = advance::<E>(
                state,
                Event::Primary(Readiness::Pending),
                switch_after,
            );
            &&& next is Waiting <==> !(state is Secondary)
            &&& next is Secondary <==> state is Secondary
            &&& action is PollTimer <==> state is Primary
            &&& action matches Action::PollTimer(reset) ==> reset == Some(switch_after)
            &&& action is Return <==> state is Waiting
            &&& action matches Action::Return(given) ==> given is Pending
            &&& action is PollSecondary <==> state is Secondary
        }),
{
}

/// The timer alone decides between waiting and the secondary service, and the
/// primary service is asked again either way.
pub proof fn the_timer_decides<E>(state: State, is_expired: bool, switch_after: Duration)
    ensures
        ({
            let (next, action) = advance::<E>(state, Event::Timer(is_expired), switch_after);
            &&& next is Secondary <==> is_expired
            &&& next is Waiting <==> !is_expired
            &&& action is PollPrimary
        }),
{
}

/// A check opens with the primary service, but for a service that waits, which
/// looks at its timer, as it was set, first.
pub proof fn a_check_opens_with_the_primary<E>(state: State)
    ensures
        first_action::<E>(state) is PollPrimary <==> !(state is Waiting),
        first_action::<E>(state) is PollTimer <==> state is Waiting,
        first_action::<E>(state) matches Action::PollTimer(reset) ==> reset is None,
{
}

/// What is asked is what is answered: a poll of a service or of the timer takes
/// an answer from the same, of any content, and from nothing else; after the
/// result, nothing is asked.
pub proof fn what_is_asked_is_answered<E>(action: Action<E>, event: Event<E>)
    ensures
        answers(event, step_of(action)) <==> {
            ||| action is PollPrimary && event is Primary
            ||| action is PollTimer && event is Timer
            ||| action is PollSecondary && event is Secondary
        },
        step_of(action) is Idle <==> action is Return,
        step_of(action) is Primary <==> action is PollPrimary,
        step_of(action) is Timer <==> action is PollTimer,
        step_of(action) is Secondary <==> action is PollSecondary,
{
}

/// The timer is asked only in a wait and the secondary service only while it is
/// in use; anything else can be at any time.
pub proof fn what_a_state_can_ask_for(state: State, step: Step)
    ensures
        consistent(state, step) <==> {
            &&& step is Timer ==> state is Waiting
            &&& step is Secondary ==> state is Secondary
        },
{
}

} // verus!
