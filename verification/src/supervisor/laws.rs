//! What holds of every run of the supervisor.

use crate::rpm::TrackerState;
use crate::supervisor::state::SupervisorState;
use crate::supervisor::{
    backoff_ticks, wheel_among, Action, Awaiting, ConnectionState, DeviceId, Event, FailureKind,
    HaltReason, Report, DEVICE_LOST_BACKOFF_TICKS, SEARCH_INTERVAL_TICKS,
    SOCKET_BIND_BACKOFF_TICKS, TICK_MILLIS,
};
use crate::telemetry::{GameType, TelemetryParser, TelemetryReading};
use vstd::prelude::*;

verus! {

/// A step keeps what holds of every state.
pub proof fn lemma_next_keeps_wf(state: SupervisorState, event: Event)
    requires
        state.wf(),
    ensures
        state.next(event).wf(),
{
}

/// A run of steps keeps what holds of every state. In particular the
/// tracker's counter stays within its bound whatever arrives.
pub proof fn lemma_run_keeps_wf(state: SupervisorState, events: Seq<Event>)
    requires
        state.wf(),
    ensures
        state.run(events).wf(),
    decreases events.len(),
{
    if events.len() > 0 {
        lemma_run_keeps_wf(state, events.drop_last());
        lemma_next_keeps_wf(state.run(events.drop_last()), events.last());
    }
}

/// A supervisor that has stopped stays as it is, whatever is reported to
/// it.
pub proof fn lemma_halted_stays_halted(state: SupervisorState, events: Seq<Event>)
    requires
        state.awaiting is Halted,
    ensures
        state.run(events) == state,
    decreases events.len(),
{
    if events.len() > 0 {
        lemma_halted_stays_halted(state, events.drop_last());
    }
}

/// No failure of the listener or of the device stops the supervisor: each
/// is classified, reported, and followed by a wait of the length that
/// belongs to its kind.
pub proof fn lemma_failures_are_waited_out(
    state: SupervisorState,
    event: Event,
    kind: FailureKind,
)
    requires
        state.classify(event) == Some(kind),
    ensures
        state.next(event) == state.failed(kind),
        state.next(event).connection == ConnectionState::RecoverableError(kind),
        state.next(event).pending() == Action::Wait,
        state.next(event).ticks_left == backoff_ticks(kind),
        state.report(event) == Some(Report::Failure(kind)),
        !state.next(event).holds_listener(),
        state.next(event).holds_device() <==> kind == FailureKind::SocketBind,
{
}

/// The supervisor stops on its own account for two reasons only: the
/// shutdown signal, and a first search that does not find a wheel that is
/// required.
pub proof fn lemma_reasons_to_halt(state: SupervisorState, event: Event)
    requires
        !(state.awaiting is Halted),
        state.next(event).awaiting is Halted,
    ensures
        match state.next(event).awaiting->Halted_0 {
            HaltReason::Shutdown => {
                ||| state.awaiting is Control && (event matches Event::Control { shutdown, .. }
                    && shutdown)
                ||| state.awaiting is Tick && (event matches Event::Tick { shutdown } && shutdown)
            },
            HaltReason::DeviceRequired => {
                &&& state.awaiting is Enumeration
                &&& state.require_device
                &&& state.first_search
                &&& event matches Event::Enumerated(devices) && !wheel_among(devices@)
            },
        },
{
}

/// Once a search has come back, a missing wheel never stops the
/// supervisor again: the requirement holds at startup only.
pub proof fn lemma_requirement_is_for_startup(state: SupervisorState, events: Seq<Event>)
    requires
        !state.first_search,
        state.awaiting != Awaiting::Halted(HaltReason::DeviceRequired),
    ensures
        !state.run(events).first_search,
        state.run(events).awaiting != Awaiting::Halted(HaltReason::DeviceRequired),
    decreases events.len(),
{
    if events.len() > 0 {
        lemma_requirement_is_for_startup(state, events.drop_last());
    }
}

/// Along every run from the start of a wait for a failure, the wait is
/// accounted for: this is what the run keeps true step by step.
proof fn lemma_backoff_is_accounted_for(
    state: SupervisorState,
    kind: FailureKind,
    events: Seq<Event>,
)
    requires
        state.awaiting is Tick,
        state.connection == ConnectionState::RecoverableError(kind),
        state.ticks_left == backoff_ticks(kind),
    ensures
        state.run(events).accounts_for(kind, state.ticks_slept(events)),
    decreases events.len(),
{
    if events.len() > 0 {
        lemma_backoff_is_accounted_for(state, kind, events.drop_last());
    }
}

/// The waits in time: a failed bind is waited out for five seconds, a lost
/// device for two, and two searches are five seconds apart.
pub proof fn lemma_wait_lengths()
    ensures
        backoff_ticks(FailureKind::SocketBind) * TICK_MILLIS == 5000,
        backoff_ticks(FailureKind::DeviceLost) * TICK_MILLIS == 2000,
        SEARCH_INTERVAL_TICKS * TICK_MILLIS == 5000,
{
}

/// From the moment a failure starts to be waited out, and whatever is
/// reported to the supervisor from then on, it asks for nothing but
/// waiting, unless it stops, until the ticks of that kind of failure have
/// all been slept through.
pub proof fn lemma_nothing_before_backoff(
    state: SupervisorState,
    kind: FailureKind,
    events: Seq<Event>,
)
    requires
        state.awaiting is Tick,
        state.connection == ConnectionState::RecoverableError(kind),
        state.ticks_left == backoff_ticks(kind),
    ensures
        !(state.run(events).pending() is Wait) && !(state.run(events).pending() is Halt)
            ==> state.ticks_slept(events) >= backoff_ticks(kind),
{
    lemma_backoff_is_accounted_for(state, kind, events);
}

/// After the listener could not be bound, the next attempt to bind it
/// comes no earlier than fifty ticks later: five seconds.
pub proof fn lemma_bind_retry_waits(state: SupervisorState, events: Seq<Event>)
    requires
        state.awaiting is Bind,
    ensures
        state.next(Event::BindFailed).run(events).pending() is BindListener ==> state.next(
            Event::BindFailed,
        ).ticks_slept(events) >= SOCKET_BIND_BACKOFF_TICKS,
{
    lemma_nothing_before_backoff(state.next(Event::BindFailed), FailureKind::SocketBind, events);
}

/// After the device was lost, in whichever way, the next search for it
/// comes no earlier than twenty ticks later: two seconds.
pub proof fn lemma_rediscovery_waits(state: SupervisorState, lost: Event, events: Seq<Event>)
    requires
        state.classify(lost) == Some(FailureKind::DeviceLost),
    ensures
        state.next(lost).run(events).pending() is Enumerate ==> state.next(lost).ticks_slept(
            events,
        ) >= DEVICE_LOST_BACKOFF_TICKS,
{
    lemma_nothing_before_backoff(state.next(lost), FailureKind::DeviceLost, events);
}

/// The shutdown signal, seen at the end of a tick or at the top of the
/// loop, stops the supervisor in that very step, however much of a wait is
/// left.
pub proof fn lemma_shutdown_stops(state: SupervisorState, game: GameType, port: u16)
    ensures
        state.awaiting is Tick ==> state.next(Event::Tick { shutdown: true }).pending()
            == Action::Halt(HaltReason::Shutdown),
        state.awaiting is Control ==> state.next(
            Event::Control { shutdown: true, game, port },
        ).pending() == Action::Halt(HaltReason::Shutdown),
{
}

/// Whether every report of a tick in a run of events carries the shutdown
/// signal.
pub open spec fn signal_is_up(events: Seq<Event>) -> bool {
    forall|i: int|
        0 <= i < events.len() ==> ((#[trigger] events[i]) matches Event::Tick { shutdown }
            ==> shutdown)
}

/// With the shutdown signal up during a wait, the supervisor sleeps
/// through one more tick at most, and with the report of that tick it has
/// stopped.
pub proof fn lemma_shutdown_within_one_tick(state: SupervisorState, events: Seq<Event>)
    requires
        state.awaiting is Tick,
        signal_is_up(events),
    ensures
        state.ticks_slept(events) <= 1,
        state.ticks_slept(events) == 1 ==> state.run(events).awaiting == Awaiting::Halted(
            HaltReason::Shutdown,
        ),
        state.ticks_slept(events) == 0 ==> state.run(events) == state,
    decreases events.len(),
{
    if events.len() > 0 {
        let earlier = events.drop_last();
        assert(signal_is_up(earlier)) by {
            assert forall|i: int| 0 <= i < earlier.len() implies ((#[trigger] earlier[i]) matches Event::Tick {
                shutdown,
            } ==> shutdown) by {
                assert(earlier[i] == events[i]);
            }
        }
        lemma_shutdown_within_one_tick(state, earlier);
        assert(events.last() == events[events.len() - 1]);
    }
}

/// A wait that nothing interrupts counts its ticks down one by one, and
/// with the last one the supervisor is back at the top of its loop.
pub proof fn lemma_wait_counts_down(state: SupervisorState, events: Seq<Event>)
    requires
        state.awaiting is Tick,
        1 <= state.ticks_left,
        events.len() <= state.ticks_left,
        forall|i: int| 0 <= i < events.len() ==> #[trigger] events[i] == (Event::Tick { shutdown: false }),
    ensures
        events.len() < state.ticks_left ==> state.run(events) == (SupervisorState {
            ticks_left: (state.ticks_left - events.len()) as nat,
            ..state
        }),
        events.len() == state.ticks_left ==> state.run(events) == (SupervisorState {
            awaiting: Awaiting::Control,
            ticks_left: 0,
            ..state
        }),
        state.ticks_slept(events) == events.len(),
    decreases events.len(),
{
    if events.len() > 0 {
        lemma_wait_counts_down(state, events.drop_last());
        assert(events.last() == events[events.len() - 1]);
    }
}

/// A failed bind is tried again after its wait with nothing changed: with
/// the same configuration in force, the supervisor is then exactly where it
/// was before the failure, the wheel still open. So the bind is retried
/// for as long as it fails.
pub proof fn lemma_bind_is_retried(state: SupervisorState, ticks: Seq<Event>)
    requires
        state.wf(),
        state.awaiting is Bind,
        ticks.len() == SOCKET_BIND_BACKOFF_TICKS,
        forall|i: int| 0 <= i < ticks.len() ==> #[trigger] ticks[i] == (Event::Tick { shutdown: false }),
    ensures
        state.next(Event::BindFailed).run(ticks).next(
            Event::Control { shutdown: false, game: state.game, port: state.port },
        ) == state,
        state.next(Event::BindFailed).run(ticks).holds_device(),
{
    lemma_wait_counts_down(state.next(Event::BindFailed), ticks);
}

/// A lost device is searched for again after its wait: with the same
/// configuration in force, the supervisor then asks for the attached
/// devices, and holds neither the wheel nor the listener.
pub proof fn lemma_lost_device_is_searched_for(
    state: SupervisorState,
    lost: Event,
    ticks: Seq<Event>,
)
    requires
        state.classify(lost) == Some(FailureKind::DeviceLost),
        ticks.len() == DEVICE_LOST_BACKOFF_TICKS,
        forall|i: int| 0 <= i < ticks.len() ==> #[trigger] ticks[i] == (Event::Tick { shutdown: false }),
    ensures
        ({
            let after = state.next(lost).run(ticks).next(
                Event::Control { shutdown: false, game: state.game, port: state.port },
            );
            &&& after == state.searching()
            &&& after.pending() == Action::Enumerate
            &&& !after.holds_device()
            &&& !after.holds_listener()
        }),
{
    lemma_wait_counts_down(state.next(lost), ticks);
}

/// A wheel that is not attached, or that is attached and cannot be opened,
/// is searched for again after the search interval: with the same
/// configuration in force, the supervisor then asks for the attached
/// devices once more. A wheel that is required and missing is the one
/// exception, and only on the first search.
pub proof fn lemma_search_is_repeated(state: SupervisorState, event: Event, ticks: Seq<Event>)
    requires
        ({
            ||| state.awaiting is Open && event is OpenFailed
            ||| state.awaiting is Enumeration && !(state.require_device && state.first_search)
                && (event matches Event::Enumerated(devices) && !wheel_among(devices@))
        }),
        ticks.len() == SEARCH_INTERVAL_TICKS,
        forall|i: int| 0 <= i < ticks.len() ==> #[trigger] ticks[i] == (Event::Tick { shutdown: false }),
    ensures
        ({
            let waiting = state.next(event);
            let after = waiting.run(ticks).next(
                Event::Control { shutdown: false, game: state.game, port: state.port },
            );
            &&& waiting.connection == ConnectionState::Searching
            &&& waiting.pending() == Action::Wait
            &&& waiting.ticks_left == SEARCH_INTERVAL_TICKS
            &&& !waiting.holds_device()
            &&& after.connection == ConnectionState::Searching
            &&& after.pending() == Action::Enumerate
        }),
{
    lemma_wait_counts_down(state.next(event), ticks);
}

/// At startup a wheel that is required and not attached stops the
/// supervisor with the first search, whatever the configuration.
pub proof fn lemma_required_wheel_is_missed_at_startup(
    game: GameType,
    port: u16,
    control: Event,
    devices: Vec<DeviceId>,
)
    requires
        control matches Event::Control { shutdown, .. } && !shutdown,
        !wheel_among(devices@),
    ensures
        SupervisorState::initial(game, port, true).next(control).next(
            Event::Enumerated(devices),
        ).pending() == Action::Halt(HaltReason::DeviceRequired),
        SupervisorState::initial(game, port, false).next(control).next(
            Event::Enumerated(devices),
        ).pending() == Action::Wait,
{
}

/// The listener is bound only while the wheel is open, and the tracker
/// holds something only while the listener is bound.
pub proof fn lemma_listener_needs_device(state: SupervisorState)
    requires
        state.wf(),
    ensures
        state.holds_listener() ==> state.holds_device(),
        state.holds_listener() ==> state.connection == ConnectionState::Streaming,
        !state.holds_listener() ==> state.tracker == TrackerState::initial(),
{
}

/// A datagram shorter than the simulator's packet is dropped: it changes
/// nothing, the supervisor asks for the next one, and a note is made.
pub proof fn lemma_short_datagram_is_dropped(state: SupervisorState, data: Vec<u8>)
    requires
        state.awaiting is Datagram,
        data@.len() < state.game.profile().packet_size(),
    ensures
        state.next(Event::Datagram(data)) == state,
        state.report(Event::Datagram(data)) == Some(
            Report::PacketTooSmall {
                received: data@.len() as usize,
                expected: state.game.profile().packet_size() as usize,
            },
        ),
{
}

/// Whether an event is a full datagram that decodes to the given reading.
pub open spec fn carries(state: SupervisorState, event: Event, reading: TelemetryReading) -> bool {
    event matches Event::Datagram(data) && data@.len() >= state.game.profile().packet_size()
        && state.game.profile().reading(data@) == reading
}

/// Whether a run of events is a stream of full datagrams, each taken by the
/// LED driver before the next arrives, that decode to the given readings in
/// the given order.
pub open spec fn streams(
    state: SupervisorState,
    events: Seq<Event>,
    readings: Seq<TelemetryReading>,
) -> bool {
    &&& events.len() == 2 * readings.len()
    &&& forall|i: int|
        0 <= i < readings.len() ==> carries(state, #[trigger] events[2 * i], readings[i])
    &&& forall|i: int| 0 <= i < readings.len() ==> #[trigger] events[2 * i + 1] is Forwarded
}

/// Datagrams are taken in the order of their arrival: after a stream of
/// them the tracker has seen their readings one by one, first to last, and
/// the supervisor asks for the next datagram.
pub proof fn lemma_datagrams_in_order(
    state: SupervisorState,
    events: Seq<Event>,
    readings: Seq<TelemetryReading>,
)
    requires
        state.awaiting is Datagram,
        streams(state, events, readings),
    ensures
        state.run(events) == (SupervisorState {
            tracker: state.tracker.observe_all(readings),
            ..state
        }),
    decreases readings.len(),
{
    if readings.len() > 0 {
        let n = readings.len() as int;
        let earlier = events.drop_last().drop_last();
        assert(earlier.len() == 2 * (n - 1));
        assert(streams(state, earlier, readings.drop_last())) by {
            assert forall|i: int| 0 <= i < n - 1 implies carries(
                state,
                #[trigger] earlier[2 * i],
                readings.drop_last()[i],
            ) by {
                assert(earlier[2 * i] == events[2 * i]);
            }
            assert forall|i: int| 0 <= i < n - 1 implies #[trigger] earlier[2 * i + 1] is Forwarded by {
                assert(earlier[2 * i + 1] == events[2 * i + 1]);
            }
        }
        lemma_datagrams_in_order(state, earlier, readings.drop_last());
        // The last two events are a datagram and the driver's answer to it.
        assert(events.drop_last().last() == events[2 * (n - 1)]);
        assert(carries(state, events[2 * (n - 1)], readings[n - 1]));
        assert(events.last() == events[2 * (n - 1) + 1]);
        assert(state.run(events.drop_last()) == state.run(earlier).next(events[2 * (n - 1)]));
    }
}

/// A changed configuration, seen at the top of the loop, ends the session:
/// the supervisor takes the new simulator and port, forgets what the
/// tracker held, holds neither wheel nor listener, and starts a search.
pub proof fn lemma_reconfiguration(state: SupervisorState, game: GameType, port: u16)
    requires
        state.awaiting is Control,
        game != state.game || port != state.port,
    ensures
        ({
            let after = state.next(Event::Control { shutdown: false, game, port });
            &&& after.game == game
            &&& after.port == port
            &&& after.tracker == TrackerState::initial()
            &&& after.pending() == Action::Enumerate
            &&& !after.holds_device()
            &&& !after.holds_listener()
            &&& state.report(Event::Control { shutdown: false, game, port }) == Some(
                Report::Switched { game, port },
            )
        }),
{
}

} // verus!
