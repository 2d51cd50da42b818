//! The bridge supervisor: what to do next about the device and the
//! listener, after each thing that happened to them.
//!
//! The supervisor itself touches neither the device nor the network. It is
//! a state machine. Its owner performs the [`Action`] that the supervisor is
//! waiting for, reports the outcome as an [`Event`], and gets the next
//! action back: search for the wheel, open it, bind the listener, receive,
//! hand a reading to the LED driver, wait one tick, or stop. Failures of
//! the listener and of the device are never final: each is followed by a
//! wait of its own length and a new attempt.
//!
//! This module holds the words that the supervisor and its owner exchange.
//! [`state`] says what the supervisor knows and how each event changes it,
//! [`machine`] is the supervisor that runs, and [`laws`] holds what is
//! proved of every run.

pub mod laws;
pub mod machine;
pub mod state;

pub use machine::{Step, Supervisor};
pub use state::SupervisorState;

use crate::telemetry::{GameType, TelemetryReading};
use vstd::prelude::*;

verus! {

/// The vendor identifier of the wheel.
pub const G27_VID: u16 = 0x046d;

/// The product identifier of the wheel.
pub const G27_PID: u16 = 0xc29b;

/// The length of one tick of a wait, in milliseconds. The shutdown signal
/// is looked at once per tick.
pub const TICK_MILLIS: u64 = 100;

/// The ticks to wait after the listener could not be bound: five seconds.
pub const SOCKET_BIND_BACKOFF_TICKS: u8 = 50;

/// The ticks to wait after the device was lost: two seconds.
pub const DEVICE_LOST_BACKOFF_TICKS: u8 = 20;

/// The ticks to wait between two searches for the wheel: five seconds.
pub const SEARCH_INTERVAL_TICKS: u8 = 50;

/// The least size of the buffer that a datagram is received into.
pub const MIN_RECEIVE_BUFFER: usize = 512;

/// The kinds of failure that the supervisor recovers from.
#[derive(Clone, Copy, Debug, PartialEq, Eq, Structural)]
pub enum FailureKind {
    /// The port could not be bound.
    SocketBind,
    /// The attached devices could not be listed, receiving failed, or the
    /// LED driver could not reach the device.
    DeviceLost,
}

/// Where the bridge stands.
#[derive(Clone, Copy, Debug, PartialEq, Eq, Structural)]
pub enum ConnectionState {
    /// No wheel is known to be attached.
    Searching,
    /// The wheel was seen among the attached devices and is not open yet.
    Connected,
    /// The wheel is open; the listener is being bound or is receiving.
    Streaming,
    /// A failure is being waited out.
    RecoverableError(FailureKind),
}

/// Why the supervisor stopped.
#[derive(Clone, Copy, Debug, PartialEq, Eq, Structural)]
pub enum HaltReason {
    /// The shutdown signal was seen.
    Shutdown,
    /// The wheel was required at startup and the first search did not find
    /// it. The process is to end with a status other than zero.
    DeviceRequired,
}

/// The outcome that the supervisor is waiting for.
#[derive(Clone, Copy, Debug, PartialEq, Eq, Structural)]
pub enum Awaiting {
    /// The shutdown signal and the configuration.
    Control,
    /// The list of attached devices.
    Enumeration,
    /// The outcome of opening the wheel.
    Open,
    /// The outcome of binding the listener.
    Bind,
    /// A datagram.
    Datagram,
    /// The outcome of handing a reading to the LED driver.
    Driver,
    /// The end of one tick of a wait.
    Tick,
    /// Nothing: the supervisor has stopped.
    Halted(HaltReason),
}

/// One attached device, as far as the search looks at it.
#[derive(Clone, Copy, Debug, PartialEq, Eq, Structural)]
pub struct DeviceId {
    pub vendor_id: u16,
    pub product_id: u16,
}

/// What is handed to the LED driver for one accepted packet.
#[derive(Clone, Copy, Debug, PartialEq, Eq, Structural)]
pub struct Frame {
    /// The reading that the tracker holds.
    pub reading: TelemetryReading,
    /// How many times in a row it has been seen again.
    pub staleness: u8,
    /// Whether that count has reached the threshold.
    pub stale: bool,
}

/// What the supervisor asks its owner to do.
#[derive(Clone, Copy, Debug, PartialEq, Eq, Structural)]
pub enum Action {
    /// Read the shutdown signal and the configuration, and report them.
    PollControl,
    /// List the attached devices.
    Enumerate,
    /// Open the wheel for exclusive use.
    OpenDevice,
    /// Bind the listener to the port on the loopback address.
    BindListener { port: u16 },
    /// Receive one datagram into a buffer of the given size.
    Receive { buffer_size: usize },
    /// Hand the frame to the LED driver.
    Forward(Frame),
    /// Sleep for one tick, then read the shutdown signal and report it.
    Wait,
    /// Leave the loop.
    Halt(HaltReason),
}

/// What happened, as the owner reports it.
#[derive(Debug)]
pub enum Event {
    /// The shutdown signal and the configuration, as just read.
    Control { shutdown: bool, game: GameType, port: u16 },
    /// The attached devices.
    Enumerated(Vec<DeviceId>),
    /// The attached devices could not be listed.
    EnumerationFailed,
    /// The wheel is open.
    Opened,
    /// The wheel could not be opened.
    OpenFailed,
    /// The listener is bound.
    Bound,
    /// The port could not be bound.
    BindFailed,
    /// A datagram arrived; these are its bytes.
    Datagram(Vec<u8>),
    /// Receiving failed.
    ReceiveFailed,
    /// The LED driver took the frame.
    Forwarded,
    /// The LED driver could not reach the device.
    DriverFailed,
    /// One tick has passed; the shutdown signal as read after it.
    Tick { shutdown: bool },
}

/// What the supervisor has to say about a step, for people to read.
#[derive(Clone, Copy, Debug, PartialEq, Eq, Structural)]
pub enum Report {
    /// A search for the wheel begins.
    Searching,
    /// The wheel is not attached.
    NotFound,
    /// The wheel is not attached and was required: the process ends.
    DeviceRequired,
    /// The wheel is open.
    Connected,
    /// The wheel is attached and could not be opened.
    ConnectionFailed,
    /// The listener is bound and waits for this simulator on this port.
    Listening { game: GameType, port: u16 },
    /// A datagram shorter than the simulator's packet was dropped.
    PacketTooSmall { received: usize, expected: usize },
    /// A failure that will be waited out and retried.
    Failure(FailureKind),
    /// The configuration changed: a new session starts with it.
    Switched { game: GameType, port: u16 },
}

/// Whether a device is the wheel.
pub open spec fn is_wheel(device: DeviceId) -> bool {
    device.vendor_id == G27_VID && device.product_id == G27_PID
}

/// Whether the wheel is among the devices.
pub open spec fn wheel_among(devices: Seq<DeviceId>) -> bool {
    exists|i: int| 0 <= i < devices.len() && is_wheel(#[trigger] devices[i])
}

/// The ticks that a failure of the given kind is waited out for.
pub open spec fn backoff_ticks(kind: FailureKind) -> nat {
    match kind {
        FailureKind::SocketBind => SOCKET_BIND_BACKOFF_TICKS as nat,
        FailureKind::DeviceLost => DEVICE_LOST_BACKOFF_TICKS as nat,
    }
}

/// Whether the wheel is among the attached devices.
pub fn device_connected(devices: &[DeviceId]) -> (found: bool)
    ensures
        found == wheel_among(devices@),
{
    let mut i: usize = 0;
    while i < devices.len()
        invariant
            i <= devices.len(),
            forall|j: int| 0 <= j < i ==> !is_wheel(#[trigger] devices@[j]),
        decreases devices.len() - i,
    {
        if devices[i].product_id == G27_PID && devices[i].vendor_id == G27_VID {
            return true;
        }
        i += 1;
    }
    false
}

impl FailureKind {
    /// The status message of a failure of this kind.
    pub open spec fn message(self) -> Seq<char> {
        match self {
            FailureKind::SocketBind => "UDP Socket Error - retrying in 5 seconds..."@,
            FailureKind::DeviceLost => "G27 connection lost - retrying in 2 seconds..."@,
        }
    }

    /// The ticks that a failure of this kind is waited out for.
    pub fn backoff(&self) -> (ticks: u8)
        ensures
            ticks == backoff_ticks(*self),
            ticks > 0,
    {
        match self {
            FailureKind::SocketBind => SOCKET_BIND_BACKOFF_TICKS,
            FailureKind::DeviceLost => DEVICE_LOST_BACKOFF_TICKS,
        }
    }

    /// The status message of a failure of this kind, for people to read.
    pub fn status_message(&self) -> (text: &'static str)
        ensures
            text@ == self.message(),
    {
        match self {
            FailureKind::SocketBind => "UDP Socket Error - retrying in 5 seconds...",
            FailureKind::DeviceLost => "G27 connection lost - retrying in 2 seconds...",
        }
    }
}

/// What the status line of the wheel is to show.
#[derive(Clone, Copy, Debug, PartialEq, Eq)]
pub struct WheelStatus {
    /// Whether the wheel is open.
    pub connected: bool,
    /// What went wrong, in a word or two, if something did.
    pub error: Option<&'static str>,
}

impl Report {
    /// Whether the report changes the status line of the wheel.
    pub open spec fn concerns_wheel(self) -> bool {
        !(self is Listening || self is PacketTooSmall || self is Switched)
    }

    /// Whether the report says that the wheel is open.
    pub open spec fn wheel_connected(self) -> bool {
        self is Connected
    }

    /// What went wrong with the wheel according to the report, in a word
    /// or two.
    pub open spec fn wheel_error(self) -> Option<Seq<char>> {
        match self {
            Report::Searching => Some("Searching..."@),
            Report::NotFound => Some("Not found"@),
            Report::DeviceRequired => Some("Not found"@),
            Report::ConnectionFailed => Some("Connection failed"@),
            Report::Failure(FailureKind::SocketBind) => Some("UDP Error"@),
            Report::Failure(FailureKind::DeviceLost) => Some("Disconnected"@),
            _ => None,
        }
    }

    /// What the status line of the wheel is to show after this report, if
    /// the report changes it.
    pub fn wheel_status(&self) -> (status: Option<WheelStatus>)
        ensures
            status is Some == self.concerns_wheel(),
            status matches Some(s) ==> {
                &&& s.connected == self.wheel_connected()
                &&& s.error is Some == self.wheel_error() is Some
                &&& s.error matches Some(text) ==> Some(text@) == self.wheel_error()
            },
    {
        match self {
            Report::Searching => Some(WheelStatus { connected: false, error: Some("Searching...") }),
            Report::NotFound => Some(WheelStatus { connected: false, error: Some("Not found") }),
            Report::DeviceRequired => Some(
                WheelStatus { connected: false, error: Some("Not found") },
            ),
            Report::Connected => Some(WheelStatus { connected: true, error: None }),
            Report::ConnectionFailed => Some(
                WheelStatus { connected: false, error: Some("Connection failed") },
            ),
            Report::Failure(FailureKind::SocketBind) => Some(
                WheelStatus { connected: false, error: Some("UDP Error") },
            ),
            Report::Failure(FailureKind::DeviceLost) => Some(
                WheelStatus { connected: false, error: Some("Disconnected") },
            ),
            Report::Listening { .. } => None,
            Report::PacketTooSmall { .. } => None,
            Report::Switched { .. } => None,
        }
    }
}

} // verus!
