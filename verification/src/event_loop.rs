//! The loop abstraction for driving state changes.
//!
//! If updates were performed in a tight loop,
//! the state tracker would be all that is needed:
//! take an event, update the state, apply the outcome.
//! To stay conservative, updates happen only in reaction to events,
//! and animation steps are events that the loop needs from itself:
//! it has to ask for a wakeup.
//! Too few wakeups mean missed updates and wrong visible state,
//! too many slow the process down or make animations jittery.
//!
//! A single iteration of the loop is a function of its arguments,
//! so that all of the above can be stated and checked here.
//! Arming the timer and applying the commands is left to the caller.

use vstd::prelude::*;
use crate::time::Instant;
use crate::time::Duration;

verus! {

/// How long to wait at least, in milliseconds,
/// when a timeout gets reported before its time has come.
pub const EARLY_TIMEOUT_DELAY_MILLIS: u64 = 10;

/// Carries the incoming data to affect the actor state,
/// plus an event to help schedule timed events.
pub trait Event: Clone + Sized {
    /// The instant of the timeout that this event reports as reached,
    /// or `None` if the event is no timeout.
    spec fn timeout_reached(&self) -> Option<Instant>;

    /// Makes the event which reports that the given timeout was reached.
    fn new_timeout_reached(when: Instant) -> (event: Self)
        ensures
            event.timeout_reached() == Some(when),
    ;

    /// Returns the value of the reached timeout, if this event carries the timeout.
    fn get_timeout_reached(&self) -> (reached: Option<Instant>)
        ensures
            reached == self.timeout_reached(),
    ;
}

/// The externally observable state of the actor.
pub trait Outcome: Sized {
    type Commands;

    /// The instructions which change the visible state from `self` to `desired`.
    spec fn commands_to_reach(&self, desired: &Self) -> Self::Commands;

    /// Returns the instructions to emit in order to change the current visible state to the desired one.
    fn get_commands_to_reach(&self, desired: &Self) -> (commands: Self::Commands)
        ensures
            commands == self.commands_to_reach(desired),
    ;
}

/// Contains and calculates the internal state of the actor.
pub trait ActorState: Clone + Sized {
    type Event: Event;

    type Outcome: Outcome;

    /// The internal state after the event gets processed.
    spec fn after_event(self, e: Self::Event, time: Instant) -> Self;

    /// The observable state of the actor given this internal state.
    spec fn outcome(&self, time: Instant) -> Self::Outcome;

    /// The next wakeup that this state needs, if any.
    spec fn next_wake(&self, now: Instant) -> Option<Instant>;

    /// Returns the new internal state after the event gets processed.
    fn apply_event(self, e: Self::Event, time: Instant) -> (next: Self)
        ensures
            next == self.after_event(e, time),
    ;

    /// Returns the observable state of the actor given this internal state.
    fn get_outcome(&self, time: Instant) -> (outcome: Self::Outcome)
        ensures
            outcome == self.outcome(time),
    ;

    /// Returns the next wake up to schedule if one is needed.
    /// This may be called at any time, so should always return the correct value.
    fn get_next_wake(&self, now: Instant) -> (wake: Option<Instant>)
        ensures
            wake == self.next_wake(now),
    ;
}

/// The shortest wait before a timeout that came in early gets looked at again.
pub open spec fn early_timeout_delay() -> Duration {
    Duration { nanos: 10_000_000 }
}

/// Whether a timeout event reporting `reached` at the time `now`
/// can be answered with a wakeup that a clock reading can express.
/// This only ever fails within 10 ms of the end of representable time.
pub open spec fn timeout_can_be_answered(reached: Option<Instant>, now: Instant) -> bool {
    match reached {
        Some(when) => when.nanos > now.nanos ==> now.can_add(early_timeout_delay()),
        None => true,
    }
}

/// Tells whether [`handle_event`] can take an event which reports `reached` at the time `now`.
/// See [`timeout_can_be_answered`].
pub fn can_answer_timeout(reached: Option<Instant>, now: Instant) -> (possible: bool)
    ensures
        possible == timeout_can_be_answered(reached, now),
{
    match reached {
        Some(when) => {
            if now.is_before(when) {
                now.checked_plus(Duration::from_millis(EARLY_TIMEOUT_DELAY_MILLIS)).is_some()
            } else {
                true
            }
        },
        None => true,
    }
}

/// The wakeup that stays scheduled once the event itself has been accounted for.
///
/// Timeout events are special: they affect the scheduled timeout.
/// One that comes in early puts the wakeup off until its proper time,
/// but by no less than 10 ms, to avoid Zeno's paradox.
/// One that is due completes the only timeout in flight, and the slot gets cleared.
/// Any other event leaves the slot alone.
pub open spec fn wake_after_timeout(
    scheduled: Option<Instant>,
    reached: Option<Instant>,
    now: Instant,
) -> Option<Instant> {
    match reached {
        Some(when) => if when.nanos > now.nanos {
            Some(when.spec_latest(now.spec_plus(early_timeout_delay())))
        } else {
            None
        },
        None => scheduled,
    }
}

/// The single wakeup to keep, given the one already scheduled
/// and the one which the state desires.
///
/// The earlier one wins: skipping an expected wakeup is dangerous,
/// while one that comes too early is harmless as long as wakeups don't pile up.
/// For the same reason a scheduled wakeup is never dropped
/// just because the state stopped asking for it.
pub open spec fn merge_wakes(scheduled: Option<Instant>, desired: Option<Instant>) -> Option<
    Instant,
> {
    match (scheduled, desired) {
        (Some(scheduled), Some(next)) => if scheduled.nanos > next.nanos {
            Some(next)
        } else {
            Some(scheduled)
        },
        (None, Some(next)) => Some(next),
        (other, None) => other,
    }
}

/// Accounts for the event in the wakeup slot. See [`wake_after_timeout`].
pub fn reschedule_after_timeout(
    scheduled: Option<Instant>,
    reached: Option<Instant>,
    now: Instant,
) -> (wake: Option<Instant>)
    requires
        timeout_can_be_answered(reached, now),
    ensures
        wake == wake_after_timeout(scheduled, reached, now),
{
    match reached {
        Some(when) => {
            if now.is_before(when) {
                let delay = Duration::from_millis(EARLY_TIMEOUT_DELAY_MILLIS);
                Some(when.latest(now.plus(delay)))
            } else {
                None
            }
        },
        None => scheduled,
    }
}

/// Chooses between the scheduled and the desired wakeup. See [`merge_wakes`].
pub fn merge_wake(scheduled: Option<Instant>, desired: Option<Instant>) -> (wake: Option<Instant>)
    ensures
        wake == merge_wakes(scheduled, desired),
{
    match (scheduled, desired) {
        (Some(scheduled), Some(next)) => {
            if next.is_before(scheduled) {
                // State wants a wake to happen before the one which is already scheduled.
                // Only one is ever kept in flight, so the later one goes.
                Some(next)
            } else {
                Some(scheduled)
            }
        },
        (None, Some(next)) => Some(next),
        (other, None) => other,
    }
}

/// The wakeup to ask the timer for after an iteration: the scheduled one, if it is a new one.
/// The timer holds a single wakeup, and asking again replaces it.
/// A wakeup which is no longer scheduled is left to come, since it does no harm.
pub open spec fn wake_to_arm(before: Option<Instant>, after: Option<Instant>) -> Option<Instant> {
    if after != before {
        after
    } else {
        None
    }
}

/// Tells which wakeup to ask the timer for, given what was scheduled
/// before the iteration and what is scheduled after it. See [`wake_to_arm`].
pub fn rearm(before: Option<Instant>, after: Option<Instant>) -> (arm: Option<Instant>)
    ensures
        arm == wake_to_arm(before, after),
{
    match (before, after) {
        (Some(before), Some(after)) => if before.nanos == after.nanos {
            None
        } else {
            Some(after)
        },
        (None, Some(after)) => Some(after),
        (_, None) => None,
    }
}

/// This keeps the state of the tracker loop between iterations.
#[derive(Clone)]
pub struct State<S> {
    pub state: S,
    /// The single outstanding timer request, if there is one.
    pub scheduled_wakeup: Option<Instant>,
    pub last_update: Instant,
}

impl<S> State<S> {
    /// The state of a loop which has seen no event yet.
    pub fn new(initial_state: S, now: Instant) -> (loop_state: Self)
        ensures
            loop_state.state == initial_state,
            loop_state.scheduled_wakeup.is_none(),
            loop_state.last_update == now,
    {
        Self { state: initial_state, scheduled_wakeup: None, last_update: now }
    }

    /// The wakeups that are outstanding in this state.
    pub open spec fn pending_wakeups(self) -> Set<Instant> {
        match self.scheduled_wakeup {
            Some(when) => set![when],
            None => Set::empty(),
        }
    }
}

impl<S: ActorState> State<S> {
    /// The state of the loop after one iteration.
    pub open spec fn after_event(self, event: S::Event, now: Instant) -> State<S> {
        let state = self.state.after_event(event, now);
        State {
            state,
            scheduled_wakeup: merge_wakes(
                wake_after_timeout(self.scheduled_wakeup, event.timeout_reached(), now),
                state.next_wake(now),
            ),
            last_update: now,
        }
    }

    /// The message that one iteration sends onwards:
    /// what brings the outcome visible at the last update
    /// to the outcome of the new state.
    pub open spec fn commands_on_event(self, event: S::Event, now: Instant) -> <S::Outcome as Outcome>::Commands {
        self.state.outcome(self.last_update).commands_to_reach(
            &self.state.after_event(event, now).outcome(now),
        )
    }

    /// The state of the loop after a whole series of iterations,
    /// each given by its event and the time at which it gets handled.
    pub open spec fn after_events(self, events: Seq<(S::Event, Instant)>) -> State<S>
        decreases events.len(),
    {
        if events.len() == 0 {
            self
        } else {
            self.after_events(events.drop_last()).after_event(events.last().0, events.last().1)
        }
    }
}

/// A single iteration of the loop, updating its persistent state.
/// - updates tracker state,
/// - determines outcome,
/// - determines next scheduled animation wakeup,
/// and because the result depends on nothing but the arguments, it's easily testable.
/// It returns the new state, and the message to send onwards.
pub fn handle_event<S: ActorState>(loop_state: State<S>, event: S::Event, now: Instant) -> (r: (
    State<S>,
    <S::Outcome as Outcome>::Commands,
))
    requires
        timeout_can_be_answered(event.timeout_reached(), now),
    ensures
        r.0 == loop_state.after_event(event, now),
        r.1 == loop_state.commands_on_event(event, now),
        r.0.pending_wakeups().finite(),
        r.0.pending_wakeups().len() <= 1,
{
    // Calculate changes to send to the consumer,
    // based on publicly visible state.
    // The internal state may change more often than the publicly visible one,
    // so the resulting changes may be no-ops.
    let old_outcome = loop_state.state.get_outcome(loop_state.last_update);
    let reached = event.get_timeout_reached();
    let state = loop_state.state.apply_event(event, now);
    let new_outcome = state.get_outcome(now);
    let commands = old_outcome.get_commands_to_reach(&new_outcome);

    let scheduled = reschedule_after_timeout(loop_state.scheduled_wakeup, reached, now);
    // Reschedule timeout if the new state calls for it.
    let desired = state.get_next_wake(now);
    let scheduled_wakeup = merge_wake(scheduled, desired);

    (State { state, scheduled_wakeup, last_update: now }, commands)
}

/// Handling an event is deterministic:
/// two iterations on identical inputs end in identical outputs.
pub proof fn handle_event_is_deterministic<S: ActorState>(
    loop_state: State<S>,
    event: S::Event,
    now: Instant,
    first: (State<S>, <S::Outcome as Outcome>::Commands),
    second: (State<S>, <S::Outcome as Outcome>::Commands),
)
    requires
        call_ensures(handle_event::<S>, (loop_state, event, now), first),
        call_ensures(handle_event::<S>, (loop_state, event, now), second),
    ensures
        first == second,
{
}

/// However many events get handled, and whenever,
/// no more than one wakeup is scheduled after any of them.
pub proof fn at_most_one_wakeup_scheduled<S: ActorState>(
    loop_state: State<S>,
    events: Seq<(S::Event, Instant)>,
)
    ensures
        forall|n: int|
            0 <= n <= events.len() ==> {
                let reached = #[trigger] loop_state.after_events(events.take(n));
                reached.pending_wakeups().finite() && reached.pending_wakeups().len() <= 1
            },
{
}

/// Whether each event in the series gets handled no earlier than the one before it,
/// and the first no earlier than `start`.
pub open spec fn clock_moves_forward<E>(start: Instant, events: Seq<(E, Instant)>) -> bool {
    &&& forall|i: int| 0 <= i < events.len() ==> start.nanos <= (#[trigger] events[i]).1.nanos
    &&& forall|i: int, j: int|
        0 <= i <= j < events.len() ==> (#[trigger] events[i]).1.nanos <= (#[trigger] events[j]).1.nanos
}

/// The time of the last update is the time at which the last event got handled.
/// As long as the clock does not go back, it never goes back either.
pub proof fn last_update_follows_clock<S: ActorState>(
    loop_state: State<S>,
    events: Seq<(S::Event, Instant)>,
)
    requires
        clock_moves_forward(loop_state.last_update, events),
    ensures
        events.len() > 0 ==> loop_state.after_events(events).last_update == events.last().1,
        forall|n: int, m: int|
            0 <= n <= m <= events.len() ==> (#[trigger] loop_state.after_events(
                events.take(n),
            )).last_update.nanos <= (#[trigger] loop_state.after_events(
                events.take(m),
            )).last_update.nanos,
{
    assert forall|n: int|
        0 < n <= events.len() implies (#[trigger] loop_state.after_events(
        events.take(n),
    )).last_update == events[n - 1].1 by {
        assert(events.take(n).last() == events[n - 1]);
    }
    assert(events.take(0) =~= Seq::empty());
    assert(events.take(events.len() as int) =~= events);
}

/// Where a wakeup is outstanding once the event has been accounted for,
/// and the new state desires one too, the earlier of the two is scheduled.
/// An outstanding wakeup which is not later than the desired one stays as it is,
/// also where the new state desires none at all.
pub proof fn earlier_wakeup_wins<S: ActorState>(loop_state: State<S>, event: S::Event, now: Instant)
    ensures
        ({
            let outstanding = wake_after_timeout(
                loop_state.scheduled_wakeup,
                event.timeout_reached(),
                now,
            );
            let desired = loop_state.state.after_event(event, now).next_wake(now);
            let scheduled = loop_state.after_event(event, now).scheduled_wakeup;
            &&& outstanding is Some && desired is Some && desired->0.nanos < outstanding->0.nanos
                ==> scheduled == desired
            &&& outstanding is Some && desired is Some && desired->0.nanos >= outstanding->0.nanos
                ==> scheduled == outstanding
            &&& outstanding is Some && desired is None ==> scheduled == outstanding
            &&& outstanding is None ==> scheduled == desired
        }),
        event.timeout_reached() is None ==> wake_after_timeout(
            loop_state.scheduled_wakeup,
            event.timeout_reached(),
            now,
        ) == loop_state.scheduled_wakeup,
{
}

/// No wakeup which the new state desires is missed:
/// one is scheduled then, and it comes no later than the desired one.
pub proof fn desired_wakeup_is_never_missed<S: ActorState>(
    loop_state: State<S>,
    event: S::Event,
    now: Instant,
)
    requires
        loop_state.state.after_event(event, now).next_wake(now) is Some,
    ensures
        loop_state.after_event(event, now).scheduled_wakeup is Some,
        loop_state.after_event(event, now).scheduled_wakeup->0.nanos
            <= loop_state.state.after_event(event, now).next_wake(now)->0.nanos,
{
}

/// A timeout event which is due clears the schedule,
/// as long as the new state desires no wakeup.
pub proof fn due_timeout_clears_schedule<S: ActorState>(
    loop_state: State<S>,
    event: S::Event,
    now: Instant,
)
    requires
        event.timeout_reached() is Some,
        event.timeout_reached()->0.nanos <= now.nanos,
        loop_state.state.after_event(event, now).next_wake(now) is None,
    ensures
        loop_state.after_event(event, now).scheduled_wakeup is None,
{
}

/// A timeout event which came in early
/// rearms the timer at its own time, but no sooner than 10 ms from now,
/// as long as the new state desires no wakeup before that.
pub proof fn early_timeout_rearms<S: ActorState>(loop_state: State<S>, event: S::Event, now: Instant)
    requires
        event.timeout_reached() is Some,
        event.timeout_reached()->0.nanos > now.nanos,
        timeout_can_be_answered(event.timeout_reached(), now),
        ({
            let desired = loop_state.state.after_event(event, now).next_wake(now);
            desired is Some ==> desired->0.nanos >= event.timeout_reached()->0.nanos
                && desired->0.nanos >= now.nanos + 10_000_000
        }),
    ensures
        loop_state.after_event(event, now).scheduled_wakeup is Some,
        loop_state.after_event(event, now).scheduled_wakeup->0.nanos == vstd::math::max(
            event.timeout_reached()->0.nanos as int,
            now.nanos + 10_000_000,
        ),
        loop_state.after_event(event, now).scheduled_wakeup->0.nanos > now.nanos,
{
}

} // verus!
