//! The update loop as a state machine.
//!
//! The loop logs in, wakes up at short intervals, polls the service once its
//! refresh cadence has elapsed, publishes what it got and backs off when
//! something fails. [`UpdateLoop`] holds the decisions of that loop: it names
//! the [`Action`] to perform and takes the outcome back as an [`Event`]. The
//! caller performs the action (a request, a sleep) and nothing else.

use vstd::prelude::*;
use crate::reading::Reading;
use crate::services::ServiceError;
use crate::status::StatusCell;

verus! {

/// The default sleep interval to use between checks (in seconds).
pub const DEFAULT_SLEEP_INTERVAL: u64 = 10;

/// The sleep interval upper limit when applying exponential backoff (in seconds).
pub const MAX_SLEEP_INTERVAL: u64 = 320;

/// The backoff factor.
pub const BACKOFF_FACTOR: u64 = 2;

/// The interval that follows `interval` after a failure: `interval` times the
/// backoff factor, capped at the upper limit.
pub open spec fn backed_off(interval: int) -> int {
    if interval * BACKOFF_FACTOR <= MAX_SLEEP_INTERVAL {
        interval * BACKOFF_FACTOR
    } else {
        MAX_SLEEP_INTERVAL as int
    }
}

/// Calculates the new interval by applying the backoff factor and taking the
/// maximum into account.
pub fn back_off(interval: u64) -> (new_interval: u64)
    ensures
        new_interval == backed_off(interval as int),
{
    if interval <= MAX_SLEEP_INTERVAL / BACKOFF_FACTOR {
        interval * BACKOFF_FACTOR
    } else {
        MAX_SLEEP_INTERVAL
    }
}

/// The seconds that passed between `since` and `now`; zero if the clock went
/// backwards in between.
pub open spec fn elapsed(since: u64, now: u64) -> int {
    if now >= since {
        now - since
    } else {
        0
    }
}

/// Where the update loop stands.
#[derive(Clone, Copy, Debug, PartialEq, Eq)]
pub enum Phase {
    /// A login is in flight. The `initial` login is the one at startup, whose
    /// failure is fatal; any other one recovers an expired session.
    LoggingIn { initial: bool },
    /// The loop sleeps at the default interval, or, with the `request` that
    /// was started at the given time, waits for the service's answer.
    Polling { request: Option<u64> },
    /// The loop sleeps at a raised interval after a failure.
    BackingOff,
    /// The initial login failed; the loop has come to its end.
    Failed { error: ServiceError },
}

/// What the caller is to do next.
#[derive(Clone, Copy, Debug, PartialEq, Eq)]
pub enum Action {
    /// Log in on the service.
    Login,
    /// Sleep for the given number of seconds, then read the clock.
    Sleep { seconds: u64 },
    /// Ask the service for an update, stamped with the given time.
    Update { timestamp: u64 },
    /// Give up with the given error.
    Stop { error: ServiceError },
}

/// What came of an action.
#[derive(Clone, Copy, Debug, PartialEq, Eq)]
pub enum Event {
    /// The login ended.
    LoginFinished(Result<(), ServiceError>),
    /// The sleep is over; the clock reads `now` (seconds since the UNIX epoch).
    Woke { now: u64 },
    /// The update ended.
    UpdateFinished(Result<Reading, ServiceError>),
}

/// The state of the update loop.
#[derive(Clone, Copy, Debug, PartialEq, Eq)]
pub struct LoopState {
    /// Where the loop stands.
    pub phase: Phase,
    /// The time of the last successful update; zero means "never".
    pub last_updated: u64,
    /// The interval between data polls of the service (in seconds).
    pub poll_interval: u64,
    /// The interval between two wake-ups (in seconds).
    pub sleep_interval: u64,
}

impl LoopState {
    /// The state at startup, before anything was done.
    pub open spec fn initial(poll_interval: u64) -> LoopState {
        LoopState {
            phase: Phase::LoggingIn { initial: true },
            last_updated: 0,
            poll_interval,
            sleep_interval: DEFAULT_SLEEP_INTERVAL,
        }
    }

    /// What holds of every state the loop can reach: the sleep interval lies
    /// between the default and the upper limit, it is the default while
    /// polling undisturbed and raised while backing off.
    pub open spec fn wf(self) -> bool {
        &&& DEFAULT_SLEEP_INTERVAL <= self.sleep_interval <= MAX_SLEEP_INTERVAL
        &&& self.phase matches Phase::LoggingIn { initial: true } ==> self.last_updated == 0
            && self.sleep_interval == DEFAULT_SLEEP_INTERVAL
        &&& self.phase matches Phase::Polling { request: None } ==> self.sleep_interval
            == DEFAULT_SLEEP_INTERVAL
        &&& self.phase is BackingOff ==> self.sleep_interval > DEFAULT_SLEEP_INTERVAL
    }

    /// The action the loop waits for in this state.
    pub open spec fn pending(self) -> Action {
        match self.phase {
            Phase::LoggingIn { .. } => Action::Login,
            Phase::Polling { request: Some(timestamp) } => Action::Update { timestamp },
            Phase::Polling { request: None } | Phase::BackingOff => Action::Sleep {
                seconds: self.sleep_interval,
            },
            Phase::Failed { error } => Action::Stop { error },
        }
    }

    /// Whether the loop sleeps between two wake-ups.
    pub open spec fn sleeping(self) -> bool {
        self.pending() is Sleep
    }

    /// Whether an update is due at `now`: the poll interval has elapsed since
    /// the last successful update.
    pub open spec fn due(self, now: u64) -> bool {
        elapsed(self.last_updated, now) >= self.poll_interval
    }

    /// The state after a failure that is retried: the sleep interval is
    /// backed off.
    pub open spec fn after_failure(self) -> LoopState {
        LoopState {
            phase: Phase::BackingOff,
            sleep_interval: backed_off(self.sleep_interval as int) as u64,
            ..self
        }
    }

    /// The state after `event`. An event that the loop does not expect leaves
    /// the state as it is.
    pub open spec fn next(self, event: Event) -> LoopState {
        match (self.phase, event) {
            (Phase::LoggingIn { initial }, Event::LoginFinished(Ok(_))) => LoopState {
                phase: Phase::Polling { request: None },
                last_updated: if initial {
                    0
                } else {
                    self.last_updated
                },
                sleep_interval: DEFAULT_SLEEP_INTERVAL,
                ..self
            },
            (Phase::LoggingIn { initial }, Event::LoginFinished(Err(error))) => {
                if initial {
                    LoopState { phase: Phase::Failed { error }, ..self }
                } else {
                    self.after_failure()
                }
            },
            (Phase::Polling { request: None }, Event::Woke { now })
            | (Phase::BackingOff, Event::Woke { now }) => {
                if self.due(now) {
                    LoopState { phase: Phase::Polling { request: Some(now) }, ..self }
                } else {
                    self
                }
            },
            (
                Phase::Polling { request: Some(timestamp) },
                Event::UpdateFinished(Ok(_)),
            ) => LoopState {
                phase: Phase::Polling { request: None },
                last_updated: timestamp,
                sleep_interval: DEFAULT_SLEEP_INTERVAL,
                ..self
            },
            (
                Phase::Polling { request: Some(_) },
                Event::UpdateFinished(Err(error)),
            ) => {
                if error is NotAuthorized {
                    LoopState { phase: Phase::LoggingIn { initial: false }, ..self }
                } else {
                    self.after_failure()
                }
            },
            _ => self,
        }
    }

    /// Whether `event` is a failure that the loop waited for and retries after
    /// a sleep: an update that failed for another reason than authorization,
    /// or a login that failed to recover the session.
    pub open spec fn retries(self, event: Event) -> bool {
        match event {
            Event::UpdateFinished(Err(error)) => self.pending() is Update && !(error
                is NotAuthorized),
            Event::LoginFinished(Err(_)) => self.phase == (Phase::LoggingIn { initial: false }),
            _ => false,
        }
    }

    /// Whether `event` is a success that the loop waited for.
    pub open spec fn succeeds(self, event: Event) -> bool {
        match event {
            Event::UpdateFinished(Ok(_)) => self.pending() is Update,
            Event::LoginFinished(Ok(_)) => self.pending() is Login,
            _ => false,
        }
    }

    /// The state after all of `events`, in their order.
    pub open spec fn run(self, events: Seq<Event>) -> LoopState
        decreases events.len(),
    {
        if events.len() == 0 {
            self
        } else {
            self.run(events.drop_last()).next(events.last())
        }
    }

    /// What the status cell holds after all of `events`, if it held
    /// `before` when the loop was in this state: the reading of the last
    /// successful update among them, or `before` if there was none.
    pub open spec fn shown(self, before: Option<Reading>, events: Seq<Event>) -> Option<Reading>
        decreases events.len(),
    {
        if events.len() == 0 {
            before
        } else {
            match self.run(events.drop_last()).published(events.last()) {
                Some(reading) => Some(reading),
                None => self.shown(before, events.drop_last()),
            }
        }
    }

    /// The reading that `event` brings into the status cell, if any: the one
    /// of a successful update that the loop waited for.
    pub open spec fn published(self, event: Event) -> Option<Reading> {
        match (self.phase, event) {
            (
                Phase::Polling { request: Some(_) },
                Event::UpdateFinished(Ok(reading)),
            ) => Some(reading),
            _ => None,
        }
    }
}

/// The update loop: its state, and the decisions it takes.
#[derive(Debug)]
pub struct UpdateLoop {
    state: LoopState,
}

impl UpdateLoop {
    #[verifier::type_invariant]
    spec fn inv(self) -> bool {
        self.state.wf()
    }

    /// The state of the loop.
    pub closed spec fn view(&self) -> LoopState {
        self.state
    }

    /// Creates the loop for a service with the given interval between data
    /// polls (in seconds). Its first action is to log in.
    pub fn new(poll_interval: u64) -> (update_loop: Self)
        ensures
            update_loop@ == LoopState::initial(poll_interval),
            update_loop@.wf(),
    {
        UpdateLoop {
            state: LoopState {
                phase: Phase::LoggingIn { initial: true },
                last_updated: 0,
                poll_interval,
                sleep_interval: DEFAULT_SLEEP_INTERVAL,
            },
        }
    }

    /// Returns the state of the loop.
    pub fn state(&self) -> (state: LoopState)
        ensures
            state == self@,
            state.wf(),
    {
        proof {
            use_type_invariant(self);
        }
        self.state
    }

    /// Returns the action the loop waits for.
    pub fn pending(&self) -> (action: Action)
        ensures
            action == self@.pending(),
    {
        match self.state.phase {
            Phase::LoggingIn { .. } => Action::Login,
            Phase::Polling { request: Some(timestamp) } => Action::Update { timestamp },
            Phase::Polling { request: None } | Phase::BackingOff => Action::Sleep {
                seconds: self.state.sleep_interval,
            },
            Phase::Failed { error } => Action::Stop { error },
        }
    }

    /// The state after a failure that is retried.
    fn failed(state: LoopState) -> (next: LoopState)
        ensures
            next == state.after_failure(),
    {
        LoopState {
            phase: Phase::BackingOff,
            last_updated: state.last_updated,
            poll_interval: state.poll_interval,
            sleep_interval: back_off(state.sleep_interval),
        }
    }

    /// Takes the outcome of the action the loop waited for, publishes the
    /// reading of a successful update into `cell` and returns the action to
    /// perform next.
    ///
    /// A failed initial login stops the loop. Any other failure is retried:
    /// an update that was not authorized by one login, everything else after
    /// a sleep at a backed off interval. A success resets the interval to its
    /// default. An event that the loop does not wait for changes nothing.
    pub fn step(&mut self, event: Event, cell: &mut StatusCell) -> (action: Action)
        ensures
            final(self)@ == old(self)@.next(event),
            final(self)@.wf(),
            action == final(self)@.pending(),
            final(cell)@ == match old(self)@.published(event) {
                Some(reading) => Some(reading),
                None => old(cell)@,
            },
    {
        proof {
            use_type_invariant(&*self);
        }
        let state = self.state;
        let next = match (state.phase, event) {
            (Phase::LoggingIn { initial }, Event::LoginFinished(Ok(_))) => LoopState {
                phase: Phase::Polling { request: None },
                last_updated: if initial {
                    0
                } else {
                    state.last_updated
                },
                poll_interval: state.poll_interval,
                sleep_interval: DEFAULT_SLEEP_INTERVAL,
            },
            (Phase::LoggingIn { initial }, Event::LoginFinished(Err(error))) => {
                if initial {
                    LoopState {
                        phase: Phase::Failed { error },
                        last_updated: state.last_updated,
                        poll_interval: state.poll_interval,
                        sleep_interval: state.sleep_interval,
                    }
                } else {
                    Self::failed(state)
                }
            },
            (Phase::Polling { request: None }, Event::Woke { now })
            | (Phase::BackingOff, Event::Woke { now }) => {
                let passed: u64 = if now >= state.last_updated {
                    now - state.last_updated
                } else {
                    0
                };
                if passed >= state.poll_interval {
                    LoopState {
                        phase: Phase::Polling { request: Some(now) },
                        last_updated: state.last_updated,
                        poll_interval: state.poll_interval,
                        sleep_interval: state.sleep_interval,
                    }
                } else {
                    state
                }
            },
            (Phase::Polling { request: Some(timestamp) }, Event::UpdateFinished(Ok(reading))) => {
                cell.publish(reading);
                LoopState {
                    phase: Phase::Polling { request: None },
                    last_updated: timestamp,
                    poll_interval: state.poll_interval,
                    sleep_interval: DEFAULT_SLEEP_INTERVAL,
                }
            },
            (Phase::Polling { request: Some(_) }, Event::UpdateFinished(Err(error))) => {
                match error {
                    ServiceError::NotAuthorized => LoopState {
                        phase: Phase::LoggingIn { initial: false },
                        last_updated: state.last_updated,
                        poll_interval: state.poll_interval,
                        sleep_interval: state.sleep_interval,
                    },
                    _ => Self::failed(state),
                }
            },
            _ => state,
        };
        self.state = next;
        self.pending()
    }
}

/// Every state that follows a well-formed state is well-formed: whatever
/// happens, the sleep interval stays between the default and the upper limit.
pub proof fn lemma_next_keeps_wf(state: LoopState, event: Event)
    requires
        state.wf(),
    ensures
        state.next(event).wf(),
{
}

/// Every state the loop reaches from startup is well-formed, whatever the
/// events are that it is given.
pub proof fn lemma_run_keeps_wf(poll_interval: u64, events: Seq<Event>)
    ensures
        LoopState::initial(poll_interval).run(events).wf(),
    decreases events.len(),
{
    if events.len() > 0 {
        lemma_run_keeps_wf(poll_interval, events.drop_last());
        lemma_next_keeps_wf(
            LoopState::initial(poll_interval).run(events.drop_last()),
            events.last(),
        );
    }
}

/// After a failure that is retried (an update that failed for another reason
/// than authorization, or a login that failed to recover the session) the
/// loop sleeps for twice the previous interval, but for no more than the
/// upper limit.
pub proof fn lemma_failure_backs_off(state: LoopState, event: Event)
    requires
        state.retries(event),
    ensures
        state.next(event).sleep_interval == if state.sleep_interval * 2 <= 320 {
            state.sleep_interval * 2
        } else {
            320
        },
        state.next(event).pending() == (Action::Sleep {
            seconds: state.next(event).sleep_interval,
        }),
        state.next(event).last_updated == state.last_updated,
{
}

/// After a success (an update or a login that the loop waited for) the loop
/// sleeps for the default interval, however far it had backed off.
pub proof fn lemma_success_resets(state: LoopState, event: Event)
    requires
        state.succeeds(event),
    ensures
        state.next(event).sleep_interval == 10,
        state.next(event).pending() == (Action::Sleep { seconds: 10 }),
{
}

/// An update that was not authorized is followed by one login and by
/// nothing else: until the login has ended no event starts a request, and
/// once it has ended the loop sleeps, whether the login succeeded or not.
/// The failed update leaves the time of the last successful update alone;
/// the update that succeeds next sets it to its own time.
pub proof fn lemma_unauthorized_update_logs_in_once(
    state: LoopState,
    login: Result<(), ServiceError>,
    now: u64,
    reading: Reading,
)
    requires
        state.pending() is Update,
    ensures
        ({
            let recovering = state.next(Event::UpdateFinished(Err(ServiceError::NotAuthorized)));
            let recovered = recovering.next(Event::LoginFinished(login));
            let woken = recovered.next(Event::Woke { now });
            &&& recovering.pending() == Action::Login
            &&& recovering.last_updated == state.last_updated
            &&& recovering.sleep_interval == state.sleep_interval
            &&& forall|other: Event| !(other is LoginFinished) ==> recovering.next(other) == recovering
            &&& recovered.pending() is Sleep
            &&& recovered.last_updated == state.last_updated
            &&& login is Ok ==> recovered.sleep_interval == 10
            &&& woken.pending() is Update ==> woken.pending() == (Action::Update { timestamp: now })
                && woken.next(Event::UpdateFinished(Ok(reading))).last_updated == now
        }),
{
}

/// An update is requested only on waking up, and only once the poll interval
/// has elapsed since the last successful update; the request is stamped with
/// the time of the wake-up.
pub proof fn lemma_update_waits_for_cadence(state: LoopState, event: Event)
    requires
        !(state.pending() is Update),
        state.next(event).pending() is Update,
    ensures
        state.sleeping(),
        event is Woke,
        state.due(event->now),
        state.next(event).pending() == (Action::Update { timestamp: event->now }),
{
}

/// A wake-up before the poll interval has elapsed changes nothing: the loop
/// goes back to sleep for the same interval.
pub proof fn lemma_early_wake_changes_nothing(state: LoopState, now: u64)
    requires
        !state.due(now),
    ensures
        state.next(Event::Woke { now }) == state,
{
}

/// Only a successful update that the loop waited for brings a reading into
/// the status cell; every failure leaves the cell as it is.
pub proof fn lemma_only_success_publishes(state: LoopState, event: Event)
    ensures
        state.published(event) is Some <==> state.pending() is Update && event
            is UpdateFinished && event->UpdateFinished_0 is Ok,
        state.published(event) is Some ==> event == Event::UpdateFinished(
            Ok(state.published(event)->0),
        ),
        state.published(event) is Some ==> state.next(event).last_updated
            == state.pending()->timestamp,
{
}

/// A cell that was empty at startup stays empty until the first successful
/// update, and holds a reading from then on.
pub proof fn lemma_empty_until_first_success(poll_interval: u64, events: Seq<Event>)
    ensures
        LoopState::initial(poll_interval).shown(None, events) is None <==> forall|i: int|
            0 <= i < events.len() ==> (#[trigger] LoopState::initial(poll_interval).run(
                events.subrange(0, i),
            )).published(events[i]) is None,
    decreases events.len(),
{
    let start = LoopState::initial(poll_interval);
    if events.len() > 0 {
        let earlier = events.drop_last();
        let last = events.len() - 1;
        lemma_empty_until_first_success(poll_interval, earlier);
        assert(events.subrange(0, last) == earlier);
        assert forall|i: int| 0 <= i < earlier.len() implies earlier.subrange(0, i)
            == events.subrange(0, i) && earlier[i] == events[i] by {}
        if start.shown(None, events) is None {
            assert forall|i: int| 0 <= i < events.len() implies (#[trigger] start.run(
                events.subrange(0, i),
            )).published(events[i]) is None by {
                if i < last {
                    assert(earlier.subrange(0, i) == events.subrange(0, i));
                    assert(start.run(earlier.subrange(0, i)).published(earlier[i]) is None);
                }
            }
        }
        if forall|i: int|
            0 <= i < events.len() ==> (#[trigger] start.run(events.subrange(0, i))).published(
                events[i],
            ) is None {
            assert(start.run(events.subrange(0, last)).published(events[last]) is None);
            assert forall|i: int| 0 <= i < earlier.len() implies (#[trigger] start.run(
                earlier.subrange(0, i),
            )).published(earlier[i]) is None by {
                assert(earlier.subrange(0, i) == events.subrange(0, i));
                assert(start.run(events.subrange(0, i)).published(events[i]) is None);
            }
        }
    }
}

/// Right after a successful update that the loop waited for, the cell holds
/// exactly the reading of that update, whatever it held before.
pub proof fn lemma_success_is_shown(
    state: LoopState,
    before: Option<Reading>,
    events: Seq<Event>,
    reading: Reading,
)
    requires
        state.run(events).pending() is Update,
    ensures
        state.shown(before, events.push(Event::UpdateFinished(Ok(reading)))) == Some(reading),
{
    let longer = events.push(Event::UpdateFinished(Ok(reading)));
    assert(longer.drop_last() == events);
}

} // verus!
