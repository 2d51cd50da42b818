//! Telemetry ingestion and device bridging for a steering wheel's LED bar.
//!
//! A racing simulator broadcasts its telemetry in datagrams on the local
//! machine. This crate decodes them into engine-speed readings
//! ([`telemetry`]), tracks whether the readings are still changing
//! ([`rpm`]), and decides what the bridge does next after each thing that
//! happens to its device or its listener ([`supervisor`]): search, open,
//! bind, receive, wait out a failure and try again, or stop.
//!
//! The crate does no input or output. The program around it owns the wheel,
//! the socket, the settings file and the tray icon; [`settings`] and
//! [`systray`] hold the values and the rules behind the last two.
//!
//! Engine speeds arrive as single-precision floating-point numbers. They
//! are kept as their encodings, and compared by them ([`binary32`]).

pub mod binary32;
pub mod rpm;
pub mod settings;
pub mod supervisor;
pub mod systray;
pub mod telemetry;
