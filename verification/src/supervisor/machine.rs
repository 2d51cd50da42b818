//! The supervisor that runs: the state, and the step that takes an event.

use crate::rpm::RPM;
use crate::supervisor::laws::lemma_next_keeps_wf;
use crate::supervisor::state::SupervisorState;
use crate::supervisor::{
    device_connected, Action, Awaiting, ConnectionState, DeviceId, Event, FailureKind, Frame,
    HaltReason, Report, MIN_RECEIVE_BUFFER, SEARCH_INTERVAL_TICKS,
};
use crate::telemetry::{GameType, TelemetryParser};
use vstd::prelude::*;

verus! {

/// What a step gives back: the next thing to do, and what to tell.
#[derive(Clone, Copy, Debug, PartialEq, Eq, Structural)]
pub struct Step {
    pub action: Action,
    pub report: Option<Report>,
}

/// The bridge supervisor.
pub struct Supervisor {
    connection: ConnectionState,
    awaiting: Awaiting,
    ticks_left: u8,
    first_search: bool,
    require_device: bool,
    game: GameType,
    port: u16,
    tracker: RPM,
}

impl View for Supervisor {
    type V = SupervisorState;

    closed spec fn view(&self) -> SupervisorState {
        SupervisorState {
            connection: self.connection,
            awaiting: self.awaiting,
            ticks_left: self.ticks_left as nat,
            first_search: self.first_search,
            require_device: self.require_device,
            game: self.game,
            port: self.port,
            tracker: self.tracker@,
        }
    }
}

impl Supervisor {
    /// A supervisor at the start, for the given simulator and port.
    /// `require_device` says whether the process is to end when the first
    /// search does not find the wheel.
    pub fn new(game: GameType, port: u16, require_device: bool) -> (r: Supervisor)
        ensures
            r@ == SupervisorState::initial(game, port, require_device),
            r@.wf(),
    {
        Supervisor {
            connection: ConnectionState::Searching,
            awaiting: Awaiting::Control,
            ticks_left: 0,
            first_search: true,
            require_device,
            game,
            port,
            tracker: RPM::new(),
        }
    }

    /// Where the bridge stands.
    pub fn connection(&self) -> (r: ConnectionState)
        ensures
            r == self@.connection,
    {
        self.connection
    }

    /// The outcome that is waited for.
    pub fn awaiting(&self) -> (r: Awaiting)
        ensures
            r == self@.awaiting,
    {
        self.awaiting
    }

    /// The ticks that the wait in progress still has to run.
    pub fn ticks_left(&self) -> (r: u8)
        ensures
            r == self@.ticks_left,
    {
        self.ticks_left
    }

    /// The simulator of the session.
    pub fn game(&self) -> (r: GameType)
        ensures
            r == self@.game,
    {
        self.game
    }

    /// The port of the session.
    pub fn port(&self) -> (r: u16)
        ensures
            r == self@.port,
    {
        self.port
    }

    /// The reading tracker of the session.
    pub fn tracker(&self) -> (r: &RPM)
        ensures
            r@ == self@.tracker,
    {
        &self.tracker
    }

    /// Whether the wheel is to be kept open. The owner closes it when this
    /// is false.
    pub fn holds_device(&self) -> (r: bool)
        ensures
            r == self@.holds_device(),
    {
        let halted = match self.awaiting {
            Awaiting::Halted(_) => true,
            _ => false,
        };
        !halted && match self.connection {
            ConnectionState::Streaming => true,
            ConnectionState::RecoverableError(FailureKind::SocketBind) => true,
            _ => false,
        }
    }

    /// Whether the listener is to be kept bound. The owner closes it when
    /// this is false.
    pub fn holds_listener(&self) -> (r: bool)
        ensures
            r == self@.holds_listener(),
    {
        match self.awaiting {
            Awaiting::Datagram => true,
            Awaiting::Driver => true,
            _ => false,
        }
    }

    /// What the supervisor is asking for.
    pub fn pending_action(&self) -> (action: Action)
        ensures
            action == self@.pending(),
    {
        match self.awaiting {
            Awaiting::Control => Action::PollControl,
            Awaiting::Enumeration => Action::Enumerate,
            Awaiting::Open => Action::OpenDevice,
            Awaiting::Bind => Action::BindListener { port: self.port },
            Awaiting::Datagram => {
                let packet_size = self.game.parser().expected_packet_size();
                let buffer_size = if packet_size < MIN_RECEIVE_BUFFER {
                    MIN_RECEIVE_BUFFER
                } else {
                    packet_size
                };
                Action::Receive { buffer_size }
            },
            Awaiting::Driver => Action::Forward(
                Frame {
                    reading: self.tracker.reading(),
                    staleness: self.tracker.staleness(),
                    stale: self.tracker.is_stale(),
                },
            ),
            Awaiting::Tick => Action::Wait,
            Awaiting::Halted(reason) => Action::Halt(reason),
        }
    }

    fn halt(&mut self, reason: HaltReason)
        ensures
            final(self)@ == old(self)@.halted(reason),
    {
        self.awaiting = Awaiting::Halted(reason);
        self.ticks_left = 0;
        self.tracker = RPM::new();
    }

    fn wait(&mut self, connection: ConnectionState, ticks: u8)
        ensures
            final(self)@ == old(self)@.waiting(connection, ticks as nat),
    {
        self.connection = connection;
        self.awaiting = Awaiting::Tick;
        self.ticks_left = ticks;
        self.tracker = RPM::new();
    }

    fn fail(&mut self, kind: FailureKind) -> (report: Option<Report>)
        ensures
            final(self)@ == old(self)@.failed(kind),
            report == Some(Report::Failure(kind)),
    {
        self.wait(ConnectionState::RecoverableError(kind), kind.backoff());
        Some(Report::Failure(kind))
    }

    fn search(&mut self)
        ensures
            final(self)@ == old(self)@.searching(),
    {
        self.connection = ConnectionState::Searching;
        self.awaiting = Awaiting::Enumeration;
        self.ticks_left = 0;
        self.tracker = RPM::new();
    }

    fn on_control(&mut self, shutdown: bool, game: GameType, port: u16) -> (report: Option<Report>)
        requires
            old(self)@.awaiting is Control,
        ensures
            final(self)@ == old(self)@.after_control(shutdown, game, port),
            report == old(self)@.report(Event::Control { shutdown, game, port }),
    {
        if shutdown {
            self.halt(HaltReason::Shutdown);
            None
        } else if game != self.game || port != self.port {
            self.game = game;
            self.port = port;
            self.search();
            Some(Report::Switched { game, port })
        } else if self.connection == ConnectionState::RecoverableError(FailureKind::SocketBind) {
            self.connection = ConnectionState::Streaming;
            self.awaiting = Awaiting::Bind;
            self.ticks_left = 0;
            None
        } else {
            self.search();
            Some(Report::Searching)
        }
    }

    fn on_enumeration(&mut self, devices: Vec<DeviceId>) -> (report: Option<Report>)
        requires
            old(self)@.awaiting is Enumeration,
        ensures
            final(self)@ == old(self)@.after_enumeration(devices@),
            report == old(self)@.report(Event::Enumerated(devices)),
    {
        let first = self.first_search;
        self.first_search = false;
        if device_connected(devices.as_slice()) {
            self.connection = ConnectionState::Connected;
            self.awaiting = Awaiting::Open;
            None
        } else if self.require_device && first {
            self.halt(HaltReason::DeviceRequired);
            Some(Report::DeviceRequired)
        } else {
            self.wait(ConnectionState::Searching, SEARCH_INTERVAL_TICKS);
            Some(Report::NotFound)
        }
    }

    fn on_datagram(&mut self, data: Vec<u8>) -> (report: Option<Report>)
        requires
            old(self)@.awaiting is Datagram,
        ensures
            final(self)@ == old(self)@.after_datagram(data@),
            report == old(self)@.report(Event::Datagram(data)),
    {
        let parser = self.game.parser();
        let expected = parser.expected_packet_size();
        let received = data.len();
        if received < expected {
            Some(Report::PacketTooSmall { received, expected })
        } else {
            self.tracker.update(data.as_slice(), &parser);
            self.awaiting = Awaiting::Driver;
            None
        }
    }

    fn on_tick(&mut self, shutdown: bool)
        ensures
            final(self)@ == old(self)@.after_tick(shutdown),
    {
        if shutdown {
            self.halt(HaltReason::Shutdown);
        } else if self.ticks_left > 1 {
            self.ticks_left = self.ticks_left - 1;
        } else {
            self.awaiting = Awaiting::Control;
            self.ticks_left = 0;
        }
    }

    /// The kind of failure that an event is, if it is one.
    pub fn classify(&self, event: &Event) -> (kind: Option<FailureKind>)
        ensures
            kind == self@.classify(*event),
    {
        match (self.awaiting, event) {
            (Awaiting::Bind, Event::BindFailed) => Some(FailureKind::SocketBind),
            (Awaiting::Enumeration, Event::EnumerationFailed) => Some(FailureKind::DeviceLost),
            (Awaiting::Datagram, Event::ReceiveFailed) => Some(FailureKind::DeviceLost),
            (Awaiting::Driver, Event::DriverFailed) => Some(FailureKind::DeviceLost),
            _ => None,
        }
    }

    /// Takes the outcome of the action that the supervisor was waiting for,
    /// and says what to do next.
    ///
    /// The new state is the one that [`SupervisorState::next`] gives, the
    /// action is the one that the new state asks for, and the report is the
    /// one that [`SupervisorState::report`] gives. An event that is no
    /// answer to the pending action changes nothing and asks for the same
    /// action again.
    pub fn step(&mut self, event: Event) -> (step: Step)
        ensures
            final(self)@ == old(self)@.next(event),
            step.action == final(self)@.pending(),
            step.report == old(self)@.report(event),
            old(self)@.wf() ==> final(self)@.wf(),
    {
        let report = match self.classify(&event) {
            Some(kind) => self.fail(kind),
            None => match (self.awaiting, event) {
                (Awaiting::Control, Event::Control { shutdown, game, port }) => self.on_control(
                    shutdown,
                    game,
                    port,
                ),
                (Awaiting::Enumeration, Event::Enumerated(devices)) => self.on_enumeration(
                    devices,
                ),
                (Awaiting::Open, Event::Opened) => {
                    self.connection = ConnectionState::Streaming;
                    self.awaiting = Awaiting::Bind;
                    Some(Report::Connected)
                },
                (Awaiting::Open, Event::OpenFailed) => {
                    self.wait(ConnectionState::Searching, SEARCH_INTERVAL_TICKS);
                    Some(Report::ConnectionFailed)
                },
                (Awaiting::Bind, Event::Bound) => {
                    self.awaiting = Awaiting::Datagram;
                    self.tracker = RPM::new();
                    Some(Report::Listening { game: self.game, port: self.port })
                },
                (Awaiting::Datagram, Event::Datagram(data)) => self.on_datagram(data),
                (Awaiting::Driver, Event::Forwarded) => {
                    self.awaiting = Awaiting::Datagram;
                    None
                },
                (Awaiting::Tick, Event::Tick { shutdown }) => {
                    self.on_tick(shutdown);
                    None
                },
                _ => None,
            },
        };
        proof {
            if old(self)@.wf() {
                lemma_next_keeps_wf(old(self)@, event);
            }
        }
        Step { action: self.pending_action(), report }
    }
}

} // verus!
