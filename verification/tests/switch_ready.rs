use futures::future::Either;
use linkerd_support::switch_ready::{
    Action, Event, NewService, NewSwitchReady, Readiness, SwitchReady, Target,
};
use std::future::Future;
use std::pin::Pin;
use std::task::{Context, Poll};
use std::time::Duration;
use tokio::time;
use tower::Service;
use tower_test::mock;

type BoxError = Box<dyn std::error::Error + Send + Sync>;
type Mock = mock::Mock<(), ()>;

/// Polls what a `SwitchReady` asks to have polled.
struct Driven {
    switch: SwitchReady<Mock, Mock>,
    sleep: Pin<Box<time::Sleep>>,
}

impl Driven {
    fn new(primary: Mock, secondary: Mock, switch_after: Duration) -> Self {
        Driven {
            switch: SwitchReady::new(primary, secondary, switch_after),
            sleep: Box::pin(time::sleep(Duration::default())),
        }
    }
}

fn readiness(poll: Poll<Result<(), BoxError>>) -> Readiness<BoxError> {
    match poll {
        Poll::Ready(ready) => Readiness::Ready(ready),
        Poll::Pending => Readiness::Pending,
    }
}

impl Service<()> for Driven {
    type Response = ();
    type Error = BoxError;
    type Future = Either<
        <tower::spawn_ready::SpawnReady<Mock> as Service<()>>::Future,
        <Mock as Service<()>>::Future,
    >;

    fn poll_ready(&mut self, cx: &mut Context<'_>) -> Poll<Result<(), BoxError>> {
        let mut action = self.switch.poll_ready();
        loop {
            let event = match action {
                Action::PollPrimary => {
                    Event::Primary(readiness(self.switch.primary_mut().poll_ready(cx)))
                }
                Action::PollTimer(reset) => {
                    if let Some(delay) = reset {
                        self.sleep.as_mut().reset(time::Instant::now() + delay);
                    }
                    Event::Timer(self.sleep.as_mut().poll(cx).is_ready())
                }
                Action::PollSecondary => {
                    Event::Secondary(readiness(self.switch.secondary_mut().poll_ready(cx)))
                }
                Action::Return(Readiness::Ready(ready)) => return Poll::Ready(ready),
                Action::Return(Readiness::Pending) => return Poll::Pending,
            };
            action = self.switch.resume(event);
        }
    }

    fn call(&mut self, req: ()) -> Self::Future {
        assert!(self.switch.can_call(), "called before ready!");
        match self.switch.call() {
            Target::Primary => Either::Left(self.switch.primary_mut().call(req)),
            Target::Secondary => Either::Right(self.switch.secondary_mut().call(req)),
        }
    }
}

fn run(test: impl Future<Output = ()>) {
    tokio::runtime::Builder::new_current_thread()
        .enable_time()
        .start_paused(true)
        .build()
        .unwrap()
        .block_on(test)
}

fn is_ready_ok(poll: Poll<Result<(), BoxError>>) -> bool {
    matches!(poll, Poll::Ready(Ok(())))
}

fn is_ready_err(poll: Poll<Result<(), BoxError>>) -> bool {
    matches!(poll, Poll::Ready(Err(_)))
}

#[test]
fn primary_first() {
    run(async {
        let dur = Duration::from_millis(100);
        let (b, mut b_handle) = mock::pair::<(), ()>();

        let (mut switch, mut a_handle) =
            mock::spawn_with(move |a| Driven::new(a, b.clone(), dur));
        b_handle.allow(0);
        a_handle.allow(1);

        assert!(is_ready_ok(switch.poll_ready()));

        let call = switch.call(());
        let (_, rsp) = a_handle.next_request().await.expect("service not called");

        rsp.send_response(());
        call.await.expect("call succeeds");
    });
}

#[test]
fn primary_becomes_ready() {
    run(async {
        let dur = Duration::from_millis(100);
        let (b, mut b_handle) = mock::pair::<(), ()>();
        b_handle.allow(0);

        let (mut switch, mut a_handle) =
            mock::spawn_with(move |a| Driven::new(a, b.clone(), dur));

        // Initially, nothing happens.
        a_handle.allow(0);
        assert!(switch.poll_ready().is_pending());

        // The primary service becomes ready.
        a_handle.allow(1);
        tokio::task::yield_now().await;
        assert!(is_ready_ok(switch.poll_ready()));

        let call = switch.call(());
        let (_, rsp) = a_handle.next_request().await.expect("service not called");

        rsp.send_response(());
        call.await.expect("call succeeds");
    });
}

#[test]
fn primary_times_out() {
    run(async {
        let dur = Duration::from_millis(100);
        let (b, mut b_handle) = mock::pair::<(), ()>();
        b_handle.allow(0);

        let (mut switch, mut a_handle) =
            mock::spawn_with(move |a| Driven::new(a, b.clone(), dur));

        // Initially, nothing happens.
        a_handle.allow(0);
        assert!(switch.poll_ready().is_pending());

        // Idle out the primary service.
        time::sleep(dur + Duration::from_millis(1)).await;
        assert!(switch.poll_ready().is_pending());

        // The secondary service becomes ready.
        b_handle.allow(1);
        tokio::task::yield_now().await;
        assert!(is_ready_ok(switch.poll_ready()));

        let call = switch.call(());
        let (_, rsp) = b_handle.next_request().await.expect("service not called");

        rsp.send_response(());
        call.await.expect("call succeeds");
    });
}

#[test]
fn primary_times_out_and_becomes_ready() {
    run(async {
        let dur = Duration::from_millis(100);
        let (b, mut b_handle) = mock::pair::<(), ()>();
        b_handle.allow(0);

        let (mut switch, mut a_handle) =
            mock::spawn_with(move |a| Driven::new(a, b.clone(), dur));

        // Initially, nothing happens.
        a_handle.allow(0);
        assert!(switch.poll_ready().is_pending());

        time::sleep(dur + Duration::from_millis(1)).await;
        assert!(switch.poll_ready().is_pending());

        // The secondary service becomes ready.
        b_handle.allow(1);
        tokio::task::yield_now().await;
        assert!(is_ready_ok(switch.poll_ready()));

        let call = switch.call(());
        let (_, rsp) = b_handle.next_request().await.expect("service not called");

        rsp.send_response(());
        call.await.expect("call succeeds");

        // The primary service becomes ready.
        a_handle.allow(1);
        tokio::task::yield_now().await;
        assert!(is_ready_ok(switch.poll_ready()));

        let call = switch.call(());
        let (_, rsp) = a_handle.next_request().await.expect("service not called");

        rsp.send_response(());
        call.await.expect("call succeeds");

        // delay for _half_ the duration. *not* long enough to time out.
        assert!(switch.poll_ready().is_pending());
        time::sleep(dur / 2).await;
        assert!(switch.poll_ready().is_pending());

        // The primary service becomes ready again.
        a_handle.allow(1);
        tokio::task::yield_now().await;
        assert!(is_ready_ok(switch.poll_ready()));

        let call = switch.call(());
        let (_, rsp) = a_handle.next_request().await.expect("service not called");

        rsp.send_response(());
        call.await.expect("call succeeds");
    });
}

#[test]
fn delays_dont_add_up() {
    run(async {
        let dur = Duration::from_millis(100);
        let (b, mut b_handle) = mock::pair::<(), ()>();
        b_handle.allow(0);

        let (mut switch, mut a_handle) =
            mock::spawn_with(move |a| Driven::new(a, b.clone(), dur));

        // Initially, nothing happens.
        a_handle.allow(0);
        assert!(switch.poll_ready().is_pending());

        // delay for _half_ the duration. *not* long enough to time out.
        time::sleep(dur / 2).await;
        assert!(switch.poll_ready().is_pending());

        // The primary service becomes ready.
        a_handle.allow(1);
        tokio::task::yield_now().await;
        assert!(is_ready_ok(switch.poll_ready()));

        let call = switch.call(());
        let (_, rsp) = a_handle.next_request().await.expect("service not called");

        rsp.send_response(());
        call.await.expect("call succeeds");

        // delay for half the duration again
        assert!(switch.poll_ready().is_pending());
        time::sleep(dur / 2).await;
        assert!(switch.poll_ready().is_pending());

        // The primary service becomes ready.
        a_handle.allow(1);
        tokio::task::yield_now().await;
        assert!(is_ready_ok(switch.poll_ready()));

        let call = switch.call(());
        let (_, rsp) = a_handle.next_request().await.expect("service not called");

        rsp.send_response(());
        call.await.expect("call succeeds");

        // delay for half the duration a third time. even though we've delayed
        // for longer than the total duration after which we idle out the
        // primary service, this should be reset every time the primary becomes ready.
        assert!(switch.poll_ready().is_pending());
        time::sleep(dur / 2).await;
        assert!(switch.poll_ready().is_pending());

        // The primary service becomes ready.
        a_handle.allow(1);
        tokio::task::yield_now().await;
        assert!(is_ready_ok(switch.poll_ready()));

        let call = switch.call(());
        let (_, rsp) = a_handle.next_request().await.expect("service not called");

        rsp.send_response(());
        call.await.expect("call succeeds");
    });
}

#[test]
fn propagates_primary_errors() {
    run(async {
        let dur = Duration::from_millis(100);
        let (b, mut b_handle) = mock::pair::<(), ()>();
        b_handle.allow(0);

        let (mut switch, mut a_handle) =
            mock::spawn_with(move |a| Driven::new(a, b.clone(), dur));

        // Initially, nothing happens.
        a_handle.allow(0);
        assert!(switch.poll_ready().is_pending());

        // Error the primary
        a_handle.send_error("lol");
        tokio::task::yield_now().await;
        assert!(is_ready_err(switch.poll_ready()));
    });
}

#[test]
fn propagates_secondary_errors() {
    run(async {
        let dur = Duration::from_millis(100);
        let (b, mut b_handle) = mock::pair::<(), ()>();
        b_handle.allow(0);

        let (mut switch, mut a_handle) =
            mock::spawn_with(move |a| Driven::new(a, b.clone(), dur));

        a_handle.allow(0);
        b_handle.send_error("lol");

        assert!(switch.poll_ready().is_pending());
        time::sleep(dur).await;
        assert!(is_ready_err(switch.poll_ready()));
    });
}

fn switch() -> SwitchReady<u8, u8> {
    SwitchReady::new(1, 2, Duration::from_millis(100))
}

#[test]
fn a_wait_sets_the_timer_once() {
    let mut s = switch();
    assert_eq!(s.poll_ready::<&str>(), Action::PollPrimary);
    assert_eq!(
        s.resume::<&str>(Event::Primary(Readiness::Pending)),
        Action::PollTimer(Some(Duration::from_millis(100)))
    );
    assert!(!s.can_call());
    assert_eq!(s.resume::<&str>(Event::Timer(false)), Action::PollPrimary);
    assert_eq!(
        s.resume::<&str>(Event::Primary(Readiness::Pending)),
        Action::Return(Readiness::Pending)
    );
    // The next check looks at the timer as it is.
    assert_eq!(s.poll_ready::<&str>(), Action::PollTimer(None));
}

#[test]
fn the_longest_check_takes_four_polls() {
    let mut s = switch();
    s.poll_ready::<&str>();
    s.resume::<&str>(Event::Primary(Readiness::Pending));
    assert_eq!(s.resume::<&str>(Event::Timer(true)), Action::PollPrimary);
    assert_eq!(
        s.resume::<&str>(Event::Primary(Readiness::Pending)),
        Action::PollSecondary
    );
    assert_eq!(
        s.resume(Event::Secondary(Readiness::Ready(Err("lol")))),
        Action::Return(Readiness::Ready(Err("lol")))
    );
    assert!(s.can_call());
    assert_eq!(s.call(), Target::Secondary);
    assert_eq!(*s.secondary_mut(), 2);
}

#[test]
fn a_ready_primary_ends_the_fallback() {
    let mut s = switch();
    s.poll_ready::<&str>();
    s.resume::<&str>(Event::Primary(Readiness::Pending));
    s.resume::<&str>(Event::Timer(true));
    // Even an expired timer gives the primary service one more chance.
    assert_eq!(
        s.resume::<&str>(Event::Primary(Readiness::Ready(Ok(())))),
        Action::Return(Readiness::Ready(Ok(())))
    );
    assert_eq!(s.call(), Target::Primary);
    // The wait that follows has a timer of its own.
    assert_eq!(s.poll_ready::<&str>(), Action::PollPrimary);
    assert_eq!(
        s.resume::<&str>(Event::Primary(Readiness::Pending)),
        Action::PollTimer(Some(Duration::from_millis(100)))
    );
}

struct Doubles;

impl NewService<u8> for Doubles {
    type Service = u16;

    fn new_service(&self, target: u8) -> u16 {
        u16::from(target) * 2
    }
}

struct Squares;

impl NewService<u8> for Squares {
    type Service = u32;

    fn new_service(&self, target: u8) -> u32 {
        u32::from(target) * u32::from(target)
    }
}

#[test]
fn new_service_makes_both_for_the_target() {
    let new = NewSwitchReady::new(Doubles, Squares, Duration::from_millis(7));
    let mut s = new.new_service(5u8);
    assert_eq!(*s.secondary_mut(), 25);
    assert_eq!(s.call(), Target::Primary);
    assert_eq!(s.poll_ready::<&str>(), Action::PollPrimary);
    assert_eq!(
        s.resume::<&str>(Event::Primary(Readiness::Pending)),
        Action::PollTimer(Some(Duration::from_millis(7)))
    );
    assert!(format!("{:?}", s.primary_mut()).contains("10"));
}

#[test]
fn asking_again_does_not_prolong_the_wait() {
    run(async {
        let dur = Duration::from_millis(100);
        let (b, mut b_handle) = mock::pair::<(), ()>();
        b_handle.allow(1);

        let (mut switch, mut a_handle) =
            mock::spawn_with(move |a| Driven::new(a, b.clone(), dur));
        a_handle.allow(0);

        assert!(switch.poll_ready().is_pending());
        time::sleep(Duration::from_millis(60)).await;
        assert!(switch.poll_ready().is_pending());
        time::sleep(Duration::from_millis(30)).await;
        assert!(switch.poll_ready().is_pending());
        // The delay counts from when the primary was first found pending.
        time::sleep(Duration::from_millis(11)).await;
        assert!(is_ready_ok(switch.poll_ready()));
    });
}
