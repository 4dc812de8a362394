//! Sync task: the repeating cycle of one source.
//!
//! A task asks for one action at a time. Whoever drives it performs the action
//! and reports the result as an event; the task answers with the next action.
//! There is no last state: a cycle that fails in any way still ends in the
//! interval sleep, and the next cycle starts from `Idle`.

use vstd::prelude::*;
use crate::errors::{ApiError, EXTERNAL_API_ERROR};
use crate::lock::LockHandle;

verus! {

/// Which upstream a source is fetched from.
#[derive(Clone, Copy, Debug, PartialEq, Eq, Structural)]
pub enum SourceKind {
    Iss,
    Osdr,
    Apod,
    Neo,
    DonkiFlr,
    DonkiCme,
    SpaceX,
}

/// Where what was fetched is kept durably.
#[derive(Clone, Copy, Debug, PartialEq, Eq, Structural)]
pub enum PersistTarget {
    /// Append-only log of position fetches.
    IssFetchLog,
    /// Catalog with one row per dataset identifier, written by upsert.
    OsdrCatalog,
    /// Append-only log of payloads, one row per source and fetch.
    SpaceCache,
}

/// Under which key, and for how long, the fast store keeps a payload.
#[derive(Clone, Debug)]
pub struct CachePolicy {
    pub key: String,
    pub ttl_secs: u64,
}

/// What is fixed about one source for the life of the process.
#[derive(Clone, Debug)]
pub struct SourceDescriptor {
    pub kind: SourceKind,
    pub name: String,
    pub lock_id: i64,
    pub interval_secs: u64,
    pub cache: Option<CachePolicy>,
    pub target: PersistTarget,
}

/// Where in its cycle a task stands.
#[derive(Clone, Copy, Debug, PartialEq, Eq, Structural)]
pub enum SyncState {
    Idle,
    AcquiringLock,
    Fetching,
    Persisting,
    ReleasingLock,
    Sleeping,
}

/// What the driver reports to the task.
#[derive(Clone, Copy, Debug, PartialEq, Eq, Structural)]
pub enum SyncEvent {
    /// A new cycle may begin.
    Wake,
    /// The lock was taken.
    LockGranted,
    /// Another holder has the lock: the usual case on a replica that is not
    /// the leader of this cycle.
    LockDenied,
    /// The lock facility could not be asked.
    LockError,
    /// The fetcher returned a payload.
    FetchOk,
    /// The fetcher gave up after its last attempt.
    FetchFailed,
    /// The payload was stored.
    PersistOk,
    /// The durable write failed.
    PersistFailed,
    /// The payload lacks a required field.
    PayloadMalformed,
    /// The lock was given back.
    Released,
    /// Giving the lock back failed.
    ReleaseFailed,
    /// The interval has passed.
    SleepDone,
}

/// The event that tells of an answer of the lock facility: whether the lock was
/// granted, or `None` where the facility could not be asked.
pub open spec fn lock_event(answer: Option<bool>) -> SyncEvent {
    match answer {
        Some(true) => SyncEvent::LockGranted,
        Some(false) => SyncEvent::LockDenied,
        None => SyncEvent::LockError,
    }
}

/// The event that tells of the end of a write that failed with an error of
/// the code `code`: an error of the upstream's answer means a malformed
/// payload, any other a failed write.
pub open spec fn persist_failure_event(code: Seq<char>) -> SyncEvent {
    if code == EXTERNAL_API_ERROR@ {
        SyncEvent::PayloadMalformed
    } else {
        SyncEvent::PersistFailed
    }
}

impl SyncEvent {
    /// What follows the look at the shutdown signal between two cycles: the
    /// wake-up of the next cycle, or nothing more where the process is to
    /// stop.
    pub fn of_wake(shutdown: bool) -> (event: Option<SyncEvent>)
        ensures
            event == (if shutdown {
                None
            } else {
                Some(SyncEvent::Wake)
            }),
    {
        if shutdown {
            None
        } else {
            Some(SyncEvent::Wake)
        }
    }

    /// The event for an answer of the lock facility.
    pub fn of_lock(answer: Option<bool>) -> (event: SyncEvent)
        ensures
            event == lock_event(answer),
    {
        match answer {
            Some(true) => SyncEvent::LockGranted,
            Some(false) => SyncEvent::LockDenied,
            None => SyncEvent::LockError,
        }
    }

    /// The event for the end of a fetch.
    pub fn of_fetch(fetched: bool) -> (event: SyncEvent)
        ensures
            event == (if fetched {
                SyncEvent::FetchOk
            } else {
                SyncEvent::FetchFailed
            }),
    {
        if fetched {
            SyncEvent::FetchOk
        } else {
            SyncEvent::FetchFailed
        }
    }

    /// The event for the end of a write: `failure` is the error of a write
    /// that failed.
    pub fn of_persist(failure: Option<&ApiError>) -> (event: SyncEvent)
        ensures
            event == (match failure {
                None => SyncEvent::PersistOk,
                Some(e) => persist_failure_event(e.code@),
            }),
    {
        match failure {
            None => SyncEvent::PersistOk,
            Some(e) => {
                let malformed: String = EXTERNAL_API_ERROR.to_owned();
                if e.code == malformed {
                    SyncEvent::PayloadMalformed
                } else {
                    SyncEvent::PersistFailed
                }
            },
        }
    }

    /// The event for the end of giving the lock back.
    pub fn of_release(released: bool) -> (event: SyncEvent)
        ensures
            event == (if released {
                SyncEvent::Released
            } else {
                SyncEvent::ReleaseFailed
            }),
    {
        if released {
            SyncEvent::Released
        } else {
            SyncEvent::ReleaseFailed
        }
    }
}

/// What the task asks the driver to do next.
#[derive(Clone, Copy, Debug, PartialEq, Eq, Structural)]
pub enum SyncAction {
    /// Look at the shutdown signal, then report `Wake`.
    AwaitWake,
    /// Try to take the lock without waiting.
    TryAcquire { lock_id: i64 },
    /// Fetch the payload through the resilient fetcher.
    Fetch,
    /// Store the payload through the cache-aside store.
    Persist,
    /// Give the lock back.
    Release { lock_id: i64 },
    /// Sleep for the interval.
    Sleep { secs: u64 },
}

/// How the cycle in progress, or the last one, went.
#[derive(Clone, Copy, Debug, PartialEq, Eq, Structural)]
pub enum CycleOutcome {
    /// Not decided yet.
    Pending,
    /// Fetched and stored.
    Completed,
    /// Another replica was leader.
    LockDenied,
    LockError,
    FetchFailed,
    PersistFailed,
    PayloadMalformed,
}

/// Whether a task in `state` holds its lock.
pub open spec fn holds_lock(state: SyncState) -> bool {
    state == SyncState::Fetching || state == SyncState::Persisting || state
        == SyncState::ReleasingLock
}

/// Whether `event` is a result that a task in `state` waits for.
pub open spec fn accepts(state: SyncState, event: SyncEvent) -> bool {
    match state {
        SyncState::Idle => event == SyncEvent::Wake,
        SyncState::AcquiringLock => event == SyncEvent::LockGranted || event
            == SyncEvent::LockDenied || event == SyncEvent::LockError,
        SyncState::Fetching => event == SyncEvent::FetchOk || event == SyncEvent::FetchFailed,
        SyncState::Persisting => event == SyncEvent::PersistOk || event
            == SyncEvent::PersistFailed || event == SyncEvent::PayloadMalformed,
        SyncState::ReleasingLock => event == SyncEvent::Released || event
            == SyncEvent::ReleaseFailed,
        SyncState::Sleeping => event == SyncEvent::SleepDone,
    }
}

/// The state after `event`. An event that the state does not wait for changes
/// nothing.
pub open spec fn next_state(state: SyncState, event: SyncEvent) -> SyncState {
    if !accepts(state, event) {
        state
    } else {
        match state {
            SyncState::Idle => SyncState::AcquiringLock,
            SyncState::AcquiringLock => if event == SyncEvent::LockGranted {
                SyncState::Fetching
            } else {
                SyncState::Sleeping
            },
            SyncState::Fetching => if event == SyncEvent::FetchOk {
                SyncState::Persisting
            } else {
                SyncState::ReleasingLock
            },
            SyncState::Persisting => SyncState::ReleasingLock,
            SyncState::ReleasingLock => SyncState::Sleeping,
            SyncState::Sleeping => SyncState::Idle,
        }
    }
}

/// The recorded outcome after `event` was accepted in a cycle whose outcome so
/// far was `outcome`.
pub open spec fn next_outcome(outcome: CycleOutcome, event: SyncEvent) -> CycleOutcome {
    match event {
        SyncEvent::Wake => CycleOutcome::Pending,
        SyncEvent::LockDenied => CycleOutcome::LockDenied,
        SyncEvent::LockError => CycleOutcome::LockError,
        SyncEvent::FetchFailed => CycleOutcome::FetchFailed,
        SyncEvent::PersistOk => CycleOutcome::Completed,
        SyncEvent::PersistFailed => CycleOutcome::PersistFailed,
        SyncEvent::PayloadMalformed => CycleOutcome::PayloadMalformed,
        _ => outcome,
    }
}

/// The number of the cycle after `event` was accepted: a wake-up starts the
/// next cycle, as far as the counter goes.
pub open spec fn next_cycle(cycle: u64, event: SyncEvent) -> u64 {
    if event == SyncEvent::Wake && cycle < u64::MAX {
        (cycle + 1) as u64
    } else {
        cycle
    }
}

/// The action that a task in `state` waits on, for a source with this lock
/// identifier and interval.
pub open spec fn action_in(state: SyncState, lock_id: i64, interval_secs: u64) -> SyncAction {
    match state {
        SyncState::Idle => SyncAction::AwaitWake,
        SyncState::AcquiringLock => SyncAction::TryAcquire { lock_id },
        SyncState::Fetching => SyncAction::Fetch,
        SyncState::Persisting => SyncAction::Persist,
        SyncState::ReleasingLock => SyncAction::Release { lock_id },
        SyncState::Sleeping => SyncAction::Sleep { secs: interval_secs },
    }
}

/// An event came that the task was not waiting for. The task is unchanged.
#[derive(Clone, Copy, Debug, PartialEq, Eq, Structural)]
pub struct UnexpectedEvent {
    pub state: SyncState,
    pub event: SyncEvent,
}

/// The cycle of one source.
pub struct SyncTask {
    descriptor: SourceDescriptor,
    state: SyncState,
    outcome: CycleOutcome,
    cycle: u64,
}

/// What a [`SyncTask`] is made of.
pub struct SyncTaskView {
    pub descriptor: SourceDescriptor,
    pub state: SyncState,
    pub outcome: CycleOutcome,
    /// Number of the cycle in progress or, between cycles, of the last one;
    /// 0 before the first.
    pub cycle: u64,
}

impl View for SyncTask {
    type V = SyncTaskView;

    closed spec fn view(&self) -> SyncTaskView {
        SyncTaskView {
            descriptor: self.descriptor,
            state: self.state,
            outcome: self.outcome,
            cycle: self.cycle,
        }
    }
}

impl SyncTask {
    /// A task for `descriptor`, before its first cycle.
    pub fn new(descriptor: SourceDescriptor) -> (t: SyncTask)
        ensures
            t@ == (SyncTaskView {
                descriptor,
                state: SyncState::Idle,
                outcome: CycleOutcome::Pending,
                cycle: 0,
            }),
    {
        SyncTask { descriptor, state: SyncState::Idle, outcome: CycleOutcome::Pending, cycle: 0 }
    }

    /// What is polled.
    pub fn descriptor(&self) -> (d: &SourceDescriptor)
        ensures
            *d == self@.descriptor,
    {
        &self.descriptor
    }

    pub fn state(&self) -> (s: SyncState)
        ensures
            s == self@.state,
    {
        self.state
    }

    /// How the cycle in progress has gone so far or, between cycles, how the
    /// last one went.
    pub fn outcome(&self) -> (o: CycleOutcome)
        ensures
            o == self@.outcome,
    {
        self.outcome
    }

    /// Number of the cycle in progress or, between cycles, of the last one:
    /// with the name of what is polled it tells a line of the log apart.
    pub fn cycle(&self) -> (n: u64)
        ensures
            n == self@.cycle,
    {
        self.cycle
    }

    /// The task's lock and whether the task holds it now.
    pub fn lock_handle(&self) -> (h: LockHandle)
        ensures
            h == (LockHandle { lock_id: self@.descriptor.lock_id, held: holds_lock(self@.state) }),
    {
        let held = match self.state {
            SyncState::Fetching | SyncState::Persisting | SyncState::ReleasingLock => true,
            _ => false,
        };
        LockHandle { lock_id: self.descriptor.lock_id, held }
    }

    /// The action the task is waiting on.
    pub fn pending_action(&self) -> (a: SyncAction)
        ensures
            a == action_in(self@.state, self@.descriptor.lock_id, self@.descriptor.interval_secs),
    {
        match self.state {
            SyncState::Idle => SyncAction::AwaitWake,
            SyncState::AcquiringLock => SyncAction::TryAcquire { lock_id: self.descriptor.lock_id },
            SyncState::Fetching => SyncAction::Fetch,
            SyncState::Persisting => SyncAction::Persist,
            SyncState::ReleasingLock => SyncAction::Release { lock_id: self.descriptor.lock_id },
            SyncState::Sleeping => SyncAction::Sleep { secs: self.descriptor.interval_secs },
        }
    }

    /// Takes the result of the pending action and returns the next action. An
    /// event that the task is not waiting for is refused and changes nothing.
    pub fn step(&mut self, event: SyncEvent) -> (r: Result<SyncAction, UnexpectedEvent>)
        ensures
            final(self)@.descriptor == old(self)@.descriptor,
            final(self)@.state == next_state(old(self)@.state, event),
            accepts(old(self)@.state, event) ==> {
                &&& final(self)@.outcome == next_outcome(old(self)@.outcome, event)
                &&& final(self)@.cycle == next_cycle(old(self)@.cycle, event)
                &&& r == Ok::<SyncAction, UnexpectedEvent>(
                    action_in(
                        final(self)@.state,
                        old(self)@.descriptor.lock_id,
                        old(self)@.descriptor.interval_secs,
                    ),
                )
            },
            !accepts(old(self)@.state, event) ==> {
                &&& final(self)@ == old(self)@
                &&& r == Err::<SyncAction, UnexpectedEvent>(
                    UnexpectedEvent { state: old(self)@.state, event },
                )
            },
    {
        let state = self.state;
        let next = match (state, event) {
            (SyncState::Idle, SyncEvent::Wake) => Some(SyncState::AcquiringLock),
            (SyncState::AcquiringLock, SyncEvent::LockGranted) => Some(SyncState::Fetching),
            (SyncState::AcquiringLock, SyncEvent::LockDenied) => Some(SyncState::Sleeping),
            (SyncState::AcquiringLock, SyncEvent::LockError) => Some(SyncState::Sleeping),
            (SyncState::Fetching, SyncEvent::FetchOk) => Some(SyncState::Persisting),
            (SyncState::Fetching, SyncEvent::FetchFailed) => Some(SyncState::ReleasingLock),
            (SyncState::Persisting, SyncEvent::PersistOk) => Some(SyncState::ReleasingLock),
            (SyncState::Persisting, SyncEvent::PersistFailed) => Some(SyncState::ReleasingLock),
            (SyncState::Persisting, SyncEvent::PayloadMalformed) => Some(
                SyncState::ReleasingLock,
            ),
            (SyncState::ReleasingLock, SyncEvent::Released) => Some(SyncState::Sleeping),
            (SyncState::ReleasingLock, SyncEvent::ReleaseFailed) => Some(SyncState::Sleeping),
            (SyncState::Sleeping, SyncEvent::SleepDone) => Some(SyncState::Idle),
            _ => None,
        };
        match next {
            Some(next) => {
                self.outcome = match event {
                    SyncEvent::Wake => CycleOutcome::Pending,
                    SyncEvent::LockDenied => CycleOutcome::LockDenied,
                    SyncEvent::LockError => CycleOutcome::LockError,
                    SyncEvent::FetchFailed => CycleOutcome::FetchFailed,
                    SyncEvent::PersistOk => CycleOutcome::Completed,
                    SyncEvent::PersistFailed => CycleOutcome::PersistFailed,
                    SyncEvent::PayloadMalformed => CycleOutcome::PayloadMalformed,
                    _ => self.outcome,
                };
                match event {
                    SyncEvent::Wake => {
                        if self.cycle < u64::MAX {
                            self.cycle = self.cycle + 1;
                        }
                    },
                    _ => {},
                }
                self.state = next;
                Ok(self.pending_action())
            },
            None => Err(UnexpectedEvent { state, event }),
        }
    }
}

/// The state after a run of events, each taken in turn.
pub open spec fn run(start: SyncState, events: Seq<SyncEvent>) -> SyncState
    decreases events.len(),
{
    if events.len() == 0 {
        start
    } else {
        next_state(run(start, events.drop_last()), events.last())
    }
}

/// How often, over a run of events, the lock was taken.
pub open spec fn grants(start: SyncState, events: Seq<SyncEvent>) -> nat
    decreases events.len(),
{
    if events.len() == 0 {
        0
    } else {
        let before = run(start, events.drop_last());
        let now: nat = if accepts(before, events.last()) && events.last()
            == SyncEvent::LockGranted {
            1
        } else {
            0
        };
        grants(start, events.drop_last()) + now
    }
}

/// How often, over a run of events, the task went through giving the lock
/// back.
pub open spec fn releases(start: SyncState, events: Seq<SyncEvent>) -> nat
    decreases events.len(),
{
    if events.len() == 0 {
        0
    } else {
        let before = run(start, events.drop_last());
        let now: nat = if accepts(before, events.last()) && before == SyncState::ReleasingLock {
            1
        } else {
            0
        };
        releases(start, events.drop_last()) + now
    }
}

/// Upper bound on the number of accepted events before the task is `Idle`
/// again.
pub open spec fn steps_left(state: SyncState) -> nat {
    match state {
        SyncState::Idle => 0,
        SyncState::AcquiringLock => 5,
        SyncState::Fetching => 4,
        SyncState::Persisting => 3,
        SyncState::ReleasingLock => 2,
        SyncState::Sleeping => 1,
    }
}

/// No state is the last one: in every state some event is waited for, and an
/// event that is waited for moves the task on.
pub proof fn law_no_terminal_state(state: SyncState)
    ensures
        exists|event: SyncEvent| accepts(state, event),
        forall|event: SyncEvent| accepts(state, event) ==> next_state(state, event) != state,
{
    match state {
        SyncState::Idle => assert(accepts(state, SyncEvent::Wake)),
        SyncState::AcquiringLock => assert(accepts(state, SyncEvent::LockDenied)),
        SyncState::Fetching => assert(accepts(state, SyncEvent::FetchFailed)),
        SyncState::Persisting => assert(accepts(state, SyncEvent::PersistFailed)),
        SyncState::ReleasingLock => assert(accepts(state, SyncEvent::ReleaseFailed)),
        SyncState::Sleeping => assert(accepts(state, SyncEvent::SleepDone)),
    }
}

/// However its steps turn out, a cycle ends: every accepted event of a running
/// cycle brings the task closer to `Idle`, which it reaches through `Sleeping`
/// and from nowhere else.
pub proof fn law_cycle_ends(state: SyncState, event: SyncEvent)
    requires
        accepts(state, event),
    ensures
        state != SyncState::Idle ==> steps_left(next_state(state, event)) < steps_left(state),
        next_state(state, event) == SyncState::Idle ==> state == SyncState::Sleeping,
        state == SyncState::Idle ==> next_state(state, event) == SyncState::AcquiringLock,
{
}

/// The lock is taken only by a grant, and a task that holds it stops holding
/// it only by going through `ReleasingLock`: failure of the fetch or of the
/// write leads there too.
pub proof fn law_lock_bracket(state: SyncState, event: SyncEvent)
    requires
        accepts(state, event),
    ensures
        !holds_lock(state) && holds_lock(next_state(state, event)) ==> state
            == SyncState::AcquiringLock && event == SyncEvent::LockGranted,
        holds_lock(state) && !holds_lock(next_state(state, event)) ==> state
            == SyncState::ReleasingLock,
        state == SyncState::Fetching && event != SyncEvent::FetchOk ==> next_state(state, event)
            == SyncState::ReleasingLock,
        state == SyncState::Persisting ==> next_state(state, event) == SyncState::ReleasingLock,
        state == SyncState::AcquiringLock && event != SyncEvent::LockGranted ==> next_state(
            state,
            event,
        ) == SyncState::Sleeping,
{
}

/// The sleep is always the configured interval, however the cycle went, and
/// the fetch and the write are asked for only while the lock is held.
pub proof fn law_actions(state: SyncState, lock_id: i64, interval_secs: u64)
    ensures
        state == SyncState::Sleeping <==> action_in(state, lock_id, interval_secs)
            == (SyncAction::Sleep { secs: interval_secs }),
        action_in(state, lock_id, interval_secs) == SyncAction::Fetch ==> holds_lock(state),
        action_in(state, lock_id, interval_secs) == SyncAction::Persist ==> holds_lock(state),
        action_in(state, lock_id, interval_secs) == (SyncAction::Release { lock_id })
            ==> holds_lock(state),
{
}

/// Over any run of events from a state without the lock, every grant is
/// matched by one pass through the release, but for the grant of a cycle that
/// still holds the lock.
pub proof fn law_every_grant_released(start: SyncState, events: Seq<SyncEvent>)
    requires
        !holds_lock(start),
    ensures
        grants(start, events) == releases(start, events) + (if holds_lock(run(start, events)) {
            1nat
        } else {
            0nat
        }),
    decreases events.len(),
{
    if events.len() > 0 {
        law_every_grant_released(start, events.drop_last());
    }
}

/// How often, over a run of events, a payload was fetched and stored.
pub open spec fn completions(start: SyncState, events: Seq<SyncEvent>) -> nat
    decreases events.len(),
{
    if events.len() == 0 {
        0
    } else {
        let before = run(start, events.drop_last());
        let now: nat = if accepts(before, events.last()) && events.last()
            == SyncEvent::PersistOk {
            1
        } else {
            0
        };
        completions(start, events.drop_last()) + now
    }
}

/// Over any run of events from a state without the lock, no more payloads are
/// fetched and stored than locks were granted: each grant allows one
/// fetch-and-store and no more.
pub proof fn law_one_store_per_grant(start: SyncState, events: Seq<SyncEvent>)
    requires
        !holds_lock(start),
    ensures
        completions(start, events) <= grants(start, events),
        run(start, events) == SyncState::Fetching || run(start, events) == SyncState::Persisting
            ==> completions(start, events) < grants(start, events),
    decreases events.len(),
{
    if events.len() > 0 {
        law_one_store_per_grant(start, events.drop_last());
    }
}

} // verus!
