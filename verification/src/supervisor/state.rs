//! What the supervisor knows between two steps, and how each event changes
//! it.

use crate::rpm::TrackerState;
use crate::supervisor::{
    backoff_ticks, wheel_among, Action, Awaiting, ConnectionState, DeviceId, Event, FailureKind,
    Frame, HaltReason, Report, MIN_RECEIVE_BUFFER, SEARCH_INTERVAL_TICKS,
};
use crate::telemetry::{GameType, TelemetryParser};
use vstd::prelude::*;

verus! {

/// Everything the supervisor knows between two steps.
pub struct SupervisorState {
    /// Where the bridge stands.
    pub connection: ConnectionState,
    /// The outcome that is waited for.
    pub awaiting: Awaiting,
    /// The ticks that the wait in progress still has to run.
    pub ticks_left: nat,
    /// Whether no search has come back yet.
    pub first_search: bool,
    /// Whether the wheel is required at startup.
    pub require_device: bool,
    /// The simulator of the session.
    pub game: GameType,
    /// The port of the session.
    pub port: u16,
    /// The reading tracker of the session.
    pub tracker: TrackerState,
}

impl SupervisorState {
    /// The state at the start: nothing found yet, and the first thing to
    /// do is to look at the shutdown signal and the configuration.
    pub open spec fn initial(game: GameType, port: u16, require_device: bool) -> SupervisorState {
        SupervisorState {
            connection: ConnectionState::Searching,
            awaiting: Awaiting::Control,
            ticks_left: 0,
            first_search: true,
            require_device,
            game,
            port,
            tracker: TrackerState::initial(),
        }
    }

    /// The same state, stopped for the given reason. A stopped supervisor
    /// holds no session.
    pub open spec fn halted(self, reason: HaltReason) -> SupervisorState {
        SupervisorState {
            awaiting: Awaiting::Halted(reason),
            ticks_left: 0,
            tracker: TrackerState::initial(),
            ..self
        }
    }

    /// The same state at the start of a wait of the given length, in the
    /// given place. A session that was running is over.
    pub open spec fn waiting(self, connection: ConnectionState, ticks: nat) -> SupervisorState {
        SupervisorState {
            connection,
            awaiting: Awaiting::Tick,
            ticks_left: ticks,
            tracker: TrackerState::initial(),
            ..self
        }
    }

    /// The same state with a failure of the given kind being waited out.
    pub open spec fn failed(self, kind: FailureKind) -> SupervisorState {
        self.waiting(ConnectionState::RecoverableError(kind), backoff_ticks(kind))
    }

    /// The same state at the start of a search.
    pub open spec fn searching(self) -> SupervisorState {
        SupervisorState {
            connection: ConnectionState::Searching,
            awaiting: Awaiting::Enumeration,
            ticks_left: 0,
            tracker: TrackerState::initial(),
            ..self
        }
    }

    /// The state after the shutdown signal and the configuration were read,
    /// at the top of the loop.
    ///
    /// The signal stops the supervisor. A changed configuration ends the
    /// session and starts a search under the new one. Otherwise a failed
    /// bind is tried again with the wheel still open, and everything else
    /// goes on with a search.
    pub open spec fn after_control(self, shutdown: bool, game: GameType, port: u16) -> SupervisorState {
        if shutdown {
            self.halted(HaltReason::Shutdown)
        } else if game != self.game || port != self.port {
            SupervisorState { game, port, ..self }.searching()
        } else if self.connection == ConnectionState::RecoverableError(FailureKind::SocketBind) {
            SupervisorState {
                connection: ConnectionState::Streaming,
                awaiting: Awaiting::Bind,
                ticks_left: 0,
                ..self
            }
        } else {
            self.searching()
        }
    }

    /// The state after a search came back with the attached devices.
    ///
    /// With the wheel among them, the next thing is to open it. Without it,
    /// the supervisor stops if the wheel is required and this was the first
    /// search; in every other case it waits and searches again.
    pub open spec fn after_enumeration(self, devices: Seq<DeviceId>) -> SupervisorState {
        if wheel_among(devices) {
            SupervisorState {
                connection: ConnectionState::Connected,
                awaiting: Awaiting::Open,
                first_search: false,
                ..self
            }
        } else if self.require_device && self.first_search {
            SupervisorState { first_search: false, ..self }.halted(HaltReason::DeviceRequired)
        } else {
            SupervisorState { first_search: false, ..self }.waiting(
                ConnectionState::Searching,
                SEARCH_INTERVAL_TICKS as nat,
            )
        }
    }

    /// The state after a datagram arrived.
    ///
    /// One shorter than the simulator's packet is dropped. Any other is
    /// decoded and tracked, and the next thing is to hand the result to the
    /// LED driver.
    pub open spec fn after_datagram(self, data: Seq<u8>) -> SupervisorState {
        if data.len() < self.game.profile().packet_size() {
            self
        } else {
            SupervisorState {
                awaiting: Awaiting::Driver,
                tracker: self.tracker.observe(self.game.profile().reading(data)),
                ..self
            }
        }
    }

    /// The state after one tick of a wait.
    ///
    /// The shutdown signal stops the supervisor at once, whatever is left
    /// of the wait. Without it one tick is taken off, and after the last
    /// one the supervisor is back at the top of its loop.
    pub open spec fn after_tick(self, shutdown: bool) -> SupervisorState {
        if shutdown {
            self.halted(HaltReason::Shutdown)
        } else if self.ticks_left > 1 {
            SupervisorState { ticks_left: (self.ticks_left - 1) as nat, ..self }
        } else {
            SupervisorState { awaiting: Awaiting::Control, ticks_left: 0, ..self }
        }
    }

    /// The kind of failure that an event is, if it is one: the failures
    /// that are waited out and retried.
    ///
    /// A port that cannot be bound is a failure of the listener. That the
    /// devices cannot be listed, that receiving fails and that the LED
    /// driver fails all count as the loss of the device. A wheel that is
    /// not attached, or that cannot be opened, is no failure of either
    /// kind: the search goes on at its own pace.
    pub open spec fn classify(self, event: Event) -> Option<FailureKind> {
        match (self.awaiting, event) {
            (Awaiting::Bind, Event::BindFailed) => Some(FailureKind::SocketBind),
            (Awaiting::Enumeration, Event::EnumerationFailed) => Some(FailureKind::DeviceLost),
            (Awaiting::Datagram, Event::ReceiveFailed) => Some(FailureKind::DeviceLost),
            (Awaiting::Driver, Event::DriverFailed) => Some(FailureKind::DeviceLost),
            _ => None,
        }
    }

    /// The state after an event.
    ///
    /// A failure starts the wait that belongs to its kind. Any other answer
    /// to what the supervisor is waiting for takes it one step on. An
    /// event that is no answer to that changes nothing.
    pub open spec fn next(self, event: Event) -> SupervisorState {
        match self.classify(event) {
            Some(kind) => self.failed(kind),
            None => match (self.awaiting, event) {
                (Awaiting::Control, Event::Control { shutdown, game, port }) => self.after_control(
                    shutdown,
                    game,
                    port,
                ),
                (Awaiting::Enumeration, Event::Enumerated(devices)) => self.after_enumeration(
                    devices@,
                ),
                (Awaiting::Open, Event::Opened) => SupervisorState {
                    connection: ConnectionState::Streaming,
                    awaiting: Awaiting::Bind,
                    ..self
                },
                (Awaiting::Open, Event::OpenFailed) => self.waiting(
                    ConnectionState::Searching,
                    SEARCH_INTERVAL_TICKS as nat,
                ),
                (Awaiting::Bind, Event::Bound) => SupervisorState {
                    awaiting: Awaiting::Datagram,
                    tracker: TrackerState::initial(),
                    ..self
                },
                (Awaiting::Datagram, Event::Datagram(data)) => self.after_datagram(data@),
                (Awaiting::Driver, Event::Forwarded) => SupervisorState {
                    awaiting: Awaiting::Datagram,
                    ..self
                },
                (Awaiting::Tick, Event::Tick { shutdown }) => self.after_tick(shutdown),
                _ => self,
            },
        }
    }

    /// What the supervisor has to say about the step that an event causes.
    /// Every failure is reported with its kind.
    pub open spec fn report(self, event: Event) -> Option<Report> {
        match self.classify(event) {
            Some(kind) => Some(Report::Failure(kind)),
            None => match (self.awaiting, event) {
                (Awaiting::Control, Event::Control { shutdown, game, port }) => {
                    if shutdown {
                        None
                    } else if game != self.game || port != self.port {
                        Some(Report::Switched { game, port })
                    } else if self.connection == ConnectionState::RecoverableError(
                        FailureKind::SocketBind,
                    ) {
                        None
                    } else {
                        Some(Report::Searching)
                    }
                },
                (Awaiting::Enumeration, Event::Enumerated(devices)) => {
                    if wheel_among(devices@) {
                        None
                    } else if self.require_device && self.first_search {
                        Some(Report::DeviceRequired)
                    } else {
                        Some(Report::NotFound)
                    }
                },
                (Awaiting::Open, Event::Opened) => Some(Report::Connected),
                (Awaiting::Open, Event::OpenFailed) => Some(Report::ConnectionFailed),
                (Awaiting::Bind, Event::Bound) => Some(
                    Report::Listening { game: self.game, port: self.port },
                ),
                (Awaiting::Datagram, Event::Datagram(data)) => {
                    if data@.len() < self.game.profile().packet_size() {
                        Some(
                            Report::PacketTooSmall {
                                received: data@.len() as usize,
                                expected: self.game.profile().packet_size() as usize,
                            },
                        )
                    } else {
                        None
                    }
                },
                _ => None,
            },
        }
    }

    /// The size of the buffer to receive into: the simulator's packet size,
    /// and no less than a fixed minimum.
    pub open spec fn receive_buffer_size(self) -> nat {
        if self.game.profile().packet_size() < MIN_RECEIVE_BUFFER {
            MIN_RECEIVE_BUFFER as nat
        } else {
            self.game.profile().packet_size()
        }
    }

    /// What is handed to the LED driver: what the tracker holds.
    pub open spec fn frame(self) -> Frame {
        Frame {
            reading: self.tracker.reading,
            staleness: self.tracker.staleness as u8,
            stale: self.tracker.stale(),
        }
    }

    /// What the supervisor is asking for.
    pub open spec fn pending(self) -> Action {
        match self.awaiting {
            Awaiting::Control => Action::PollControl,
            Awaiting::Enumeration => Action::Enumerate,
            Awaiting::Open => Action::OpenDevice,
            Awaiting::Bind => Action::BindListener { port: self.port },
            Awaiting::Datagram => Action::Receive {
                buffer_size: self.receive_buffer_size() as usize,
            },
            Awaiting::Driver => Action::Forward(self.frame()),
            Awaiting::Tick => Action::Wait,
            Awaiting::Halted(reason) => Action::Halt(reason),
        }
    }

    /// Whether the wheel is open.
    pub open spec fn holds_device(self) -> bool {
        !(self.awaiting is Halted) && (self.connection == ConnectionState::Streaming
            || self.connection == ConnectionState::RecoverableError(FailureKind::SocketBind))
    }

    /// Whether the listener is bound.
    pub open spec fn holds_listener(self) -> bool {
        self.awaiting is Datagram || self.awaiting is Driver
    }

    /// What holds of every state that the supervisor reaches.
    ///
    /// What is waited for fits where the bridge stands; a wait has at least
    /// one tick left and no more than its full length; the tracker is
    /// within its bound, and outside a bound listener it holds nothing.
    pub open spec fn wf(self) -> bool {
        &&& self.tracker.wf()
        &&& !self.holds_listener() ==> self.tracker == TrackerState::initial()
        &&& match self.awaiting {
            Awaiting::Control => {
                &&& self.ticks_left == 0
                &&& (self.connection is Searching || self.connection is RecoverableError)
            },
            Awaiting::Enumeration => self.ticks_left == 0 && self.connection is Searching,
            Awaiting::Open => self.ticks_left == 0 && self.connection is Connected,
            Awaiting::Bind | Awaiting::Datagram | Awaiting::Driver => {
                self.ticks_left == 0 && self.connection is Streaming
            },
            Awaiting::Tick => {
                &&& 1 <= self.ticks_left
                &&& match self.connection {
                    ConnectionState::Searching => self.ticks_left <= SEARCH_INTERVAL_TICKS,
                    ConnectionState::RecoverableError(kind) => self.ticks_left <= backoff_ticks(
                        kind,
                    ),
                    _ => false,
                }
            },
            Awaiting::Halted(_) => self.ticks_left == 0,
        }
    }

    /// The state after a run of events, first to last.
    pub open spec fn run(self, events: Seq<Event>) -> SupervisorState
        decreases events.len(),
    {
        if events.len() == 0 {
            self
        } else {
            self.run(events.drop_last()).next(events.last())
        }
    }

    /// The ticks that have been slept through in a run of events: the
    /// reports of a tick that came while the supervisor was waiting for
    /// one.
    pub open spec fn ticks_slept(self, events: Seq<Event>) -> nat
        decreases events.len(),
    {
        if events.len() == 0 {
            0
        } else {
            let before = self.run(events.drop_last());
            let this_one: nat = if before.awaiting is Tick && events.last() is Tick {
                1
            } else {
                0
            };
            self.ticks_slept(events.drop_last()) + this_one
        }
    }

    /// Whether a failure of the given kind has been waited out after
    /// `slept` ticks, or is still being waited out with the rest of its
    /// ticks to come, or no longer matters because the supervisor stopped.
    pub open spec fn accounts_for(self, kind: FailureKind, slept: nat) -> bool {
        ||| self.awaiting is Halted
        ||| {
            &&& self.awaiting is Tick
            &&& self.connection == ConnectionState::RecoverableError(kind)
            &&& slept + self.ticks_left >= backoff_ticks(kind)
        }
        ||| slept >= backoff_ticks(kind)
    }
}

} // verus!
