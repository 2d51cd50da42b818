//! The wire formats of the supported simulators, and their decoders.
//!
//! A packet is a byte buffer as it came off the network. Decoding never
//! fails: a buffer shorter than the format's packet size, or one whose
//! format says that no race is on, decodes to the reading that means "no
//! signal".

use crate::binary32::Binary32;
use vstd::prelude::*;

verus! {

/// The packet size of the DiRT Rally 2.0 format, in bytes.
pub const DIRT_RALLY2_PACKET_SIZE: usize = 264;

/// The packet size of the Forza Horizon 5 "Sled" format, in bytes.
pub const FORZA_HORIZON5_PACKET_SIZE: usize = 232;

/// The number that the four bytes of `data` from offset `at` on spell in
/// little-endian order: the first byte counts least.
pub open spec fn le_value(data: Seq<u8>, at: int) -> int
    recommends
        0 <= at,
        at + 4 <= data.len(),
{
    data[at] + 0x100 * data[at + 1] + 0x1_0000 * data[at + 2] + 0x100_0000 * data[at + 3]
}

/// The signed number that a 32-bit pattern stands for in two's complement.
pub open spec fn twos_complement(pattern: int) -> int
    recommends
        0 <= pattern < 0x1_0000_0000,
{
    if pattern >= 0x8000_0000 {
        pattern - 0x1_0000_0000
    } else {
        pattern
    }
}

/// The single-precision number encoded in the four bytes from `at` on.
pub open spec fn number_at(data: Seq<u8>, at: int) -> Binary32
    recommends
        0 <= at,
        at + 4 <= data.len(),
{
    Binary32 { bits: le_value(data, at) as u32 }
}

/// Reads four bytes as an unsigned little-endian number.
pub fn u32_from_byte_slice(slice: &[u8]) -> (r: u32)
    requires
        slice@.len() == 4,
    ensures
        r == le_value(slice@, 0),
{
    let b0: u32 = slice[0] as u32;
    let b1: u32 = slice[1] as u32;
    let b2: u32 = slice[2] as u32;
    let b3: u32 = slice[3] as u32;
    b0 + 0x100 * b1 + 0x1_0000 * b2 + 0x100_0000 * b3
}

/// Reads four bytes as a signed little-endian number.
pub fn i32_from_byte_slice(slice: &[u8]) -> (r: i32)
    requires
        slice@.len() == 4,
    ensures
        r == twos_complement(le_value(slice@, 0)),
{
    let pattern: u32 = u32_from_byte_slice(slice);
    if pattern >= 0x8000_0000 {
        let low: i32 = (pattern - 0x8000_0000) as i32;
        low + i32::MIN
    } else {
        pattern as i32
    }
}

/// Reads four bytes as the little-endian encoding of a single-precision
/// number.
pub fn f32_from_byte_slice(slice: &[u8]) -> (r: Binary32)
    requires
        slice@.len() == 4,
    ensures
        r == number_at(slice@, 0),
{
    Binary32::from_bits(u32_from_byte_slice(slice))
}

/// One decoded instant of telemetry.
#[derive(Clone, Copy, Debug, PartialEq, Eq, Structural)]
pub struct TelemetryReading {
    pub current_rpm: Binary32,
    pub max_rpm: Binary32,
    pub idle_rpm: Binary32,
    pub race_active: bool,
}

impl TelemetryReading {
    /// The reading that means "no signal": every speed zero, no race on.
    pub open spec fn no_signal() -> TelemetryReading {
        TelemetryReading {
            current_rpm: Binary32 { bits: 0 },
            max_rpm: Binary32 { bits: 0 },
            idle_rpm: Binary32 { bits: 0 },
            race_active: false,
        }
    }

    /// The reading as `(current, max, idle, race_active)`.
    pub open spec fn tuple(self) -> (Binary32, Binary32, Binary32, bool) {
        (self.current_rpm, self.max_rpm, self.idle_rpm, self.race_active)
    }

    /// Whether two readings are the same to a comparison of numbers: the
    /// three speeds are equal as numbers and the flags agree. A reading
    /// with a NaN in it is not the same as any reading, itself included.
    pub open spec fn same_as(self, other: TelemetryReading) -> bool {
        &&& self.current_rpm.same_number(other.current_rpm)
        &&& self.max_rpm.same_number(other.max_rpm)
        &&& self.idle_rpm.same_number(other.idle_rpm)
        &&& self.race_active == other.race_active
    }

    /// Whether any of the three speeds is a NaN.
    pub open spec fn has_nan(self) -> bool {
        self.current_rpm.nan() || self.max_rpm.nan() || self.idle_rpm.nan()
    }

    /// The "no signal" reading.
    pub fn sentinel() -> (r: TelemetryReading)
        ensures
            r == TelemetryReading::no_signal(),
    {
        TelemetryReading {
            current_rpm: Binary32::zero_value(),
            max_rpm: Binary32::zero_value(),
            idle_rpm: Binary32::zero_value(),
            race_active: false,
        }
    }

    /// Builds a reading from `(current, max, idle, race_active)`.
    pub fn from_tuple(t: (Binary32, Binary32, Binary32, bool)) -> (r: TelemetryReading)
        ensures
            r.tuple() == t,
    {
        TelemetryReading { current_rpm: t.0, max_rpm: t.1, idle_rpm: t.2, race_active: t.3 }
    }

    /// Compares two readings field by field, the speeds as numbers.
    pub fn matches(&self, other: &TelemetryReading) -> (r: bool)
        ensures
            r == self.same_as(*other),
    {
        self.current_rpm.equals(&other.current_rpm) && self.max_rpm.equals(&other.max_rpm)
            && self.idle_rpm.equals(&other.idle_rpm) && self.race_active == other.race_active
    }
}

/// What the DiRT Rally 2.0 format decodes a buffer to.
///
/// The current speed is at offset 148, the highest at 252 and the idle
/// speed at 256. The format has no flag for a race being on: one is taken
/// to be on when the highest speed is above zero and the current speed is
/// zero or more.
pub open spec fn dirt_rally2_reading(data: Seq<u8>) -> TelemetryReading {
    if data.len() < DIRT_RALLY2_PACKET_SIZE {
        TelemetryReading::no_signal()
    } else {
        let current = number_at(data, 148);
        let max = number_at(data, 252);
        let idle = number_at(data, 256);
        TelemetryReading {
            current_rpm: current,
            max_rpm: max,
            idle_rpm: idle,
            race_active: max.positive() && current.non_negative(),
        }
    }
}

/// What the Forza Horizon 5 format decodes a buffer to.
///
/// The packet starts with a signed flag that is 1 while a race is on. With
/// any other flag nothing else in the packet is looked at. With the flag
/// set, the highest speed is at offset 8, the idle speed at 12 and the
/// current one at 16.
pub open spec fn forza_horizon5_reading(data: Seq<u8>) -> TelemetryReading {
    if data.len() < FORZA_HORIZON5_PACKET_SIZE {
        TelemetryReading::no_signal()
    } else if twos_complement(le_value(data, 0)) != 1 {
        TelemetryReading::no_signal()
    } else {
        TelemetryReading {
            current_rpm: number_at(data, 16),
            max_rpm: number_at(data, 8),
            idle_rpm: number_at(data, 12),
            race_active: true,
        }
    }
}

/// A buffer shorter than a format's packet holds no signal in that format.
pub proof fn lemma_short_buffer_holds_no_signal(data: Seq<u8>)
    ensures
        data.len() < DIRT_RALLY2_PACKET_SIZE ==> dirt_rally2_reading(data)
            == TelemetryReading::no_signal(),
        data.len() < FORZA_HORIZON5_PACKET_SIZE ==> forza_horizon5_reading(data)
            == TelemetryReading::no_signal(),
{
}

/// Neither format looks past its packet: what follows the packet's bytes in
/// a longer buffer changes nothing.
pub proof fn lemma_reading_ignores_the_tail(data: Seq<u8>)
    ensures
        data.len() >= DIRT_RALLY2_PACKET_SIZE ==> dirt_rally2_reading(data) == dirt_rally2_reading(
            data.subrange(0, DIRT_RALLY2_PACKET_SIZE as int),
        ),
        data.len() >= FORZA_HORIZON5_PACKET_SIZE ==> forza_horizon5_reading(data)
            == forza_horizon5_reading(data.subrange(0, FORZA_HORIZON5_PACKET_SIZE as int)),
{
}

/// In the Forza Horizon 5 format a buffer whose leading flag is not 1 holds
/// no signal, whatever follows the flag and however long the buffer is.
pub proof fn lemma_forza_horizon5_goes_by_its_flag(data: Seq<u8>)
    requires
        data.len() >= 4,
        twos_complement(le_value(data, 0)) != 1,
    ensures
        forza_horizon5_reading(data) == TelemetryReading::no_signal(),
{
}

/// A decoder for one simulator's telemetry packets.
pub trait TelemetryParser {
    /// The packet size that the format declares.
    spec fn packet_size(&self) -> nat;

    /// The name of the simulator.
    spec fn name(&self) -> Seq<char>;

    /// The reading that a buffer holds in this format.
    spec fn reading(&self, data: Seq<u8>) -> TelemetryReading;

    /// Decodes a buffer to `(current_rpm, max_rpm, idle_rpm, race_active)`.
    /// A buffer shorter than the packet size holds no signal.
    fn parse_rpm_data(&self, data: &[u8]) -> (r: (Binary32, Binary32, Binary32, bool))
        ensures
            r == self.reading(data@).tuple(),
            data@.len() < self.packet_size() ==> r == TelemetryReading::no_signal().tuple(),
    ;

    /// The packet size that the format declares, in bytes.
    fn expected_packet_size(&self) -> (n: usize)
        ensures
            n == self.packet_size(),
    ;

    /// The name of the simulator, for people to read.
    fn game_name(&self) -> (s: &'static str)
        ensures
            s@ == self.name(),
    ;
}

/// The decoder for DiRT Rally 2.0.
#[derive(Clone, Copy, Debug, PartialEq, Eq, Structural)]
pub struct DirtRally2Parser;

impl TelemetryParser for DirtRally2Parser {
    open spec fn packet_size(&self) -> nat {
        DIRT_RALLY2_PACKET_SIZE as nat
    }

    open spec fn name(&self) -> Seq<char> {
        "DiRT Rally 2.0"@
    }

    open spec fn reading(&self, data: Seq<u8>) -> TelemetryReading {
        dirt_rally2_reading(data)
    }

    fn parse_rpm_data(&self, data: &[u8]) -> (r: (Binary32, Binary32, Binary32, bool)) {
        if data.len() < self.expected_packet_size() {
            return (Binary32::zero_value(), Binary32::zero_value(), Binary32::zero_value(), false);
        }
        let current_rpm = f32_from_byte_slice(&data[148..152]);
        let max_rpm = f32_from_byte_slice(&data[252..256]);
        let idle_rpm = f32_from_byte_slice(&data[256..260]);

        let is_race_active = max_rpm.is_positive() && current_rpm.is_non_negative();

        (current_rpm, max_rpm, idle_rpm, is_race_active)
    }

    fn expected_packet_size(&self) -> (n: usize) {
        DIRT_RALLY2_PACKET_SIZE
    }

    fn game_name(&self) -> (s: &'static str) {
        "DiRT Rally 2.0"
    }
}

/// The decoder for Forza Horizon 5.
#[derive(Clone, Copy, Debug, PartialEq, Eq, Structural)]
pub struct ForzaHorizon5Parser;

impl TelemetryParser for ForzaHorizon5Parser {
    open spec fn packet_size(&self) -> nat {
        FORZA_HORIZON5_PACKET_SIZE as nat
    }

    open spec fn name(&self) -> Seq<char> {
        "Forza Horizon 5"@
    }

    open spec fn reading(&self, data: Seq<u8>) -> TelemetryReading {
        forza_horizon5_reading(data)
    }

    /// Without the flag the packet holds no signal, whatever else is in it
    /// and however long it is.
    fn parse_rpm_data(&self, data: &[u8]) -> (r: (Binary32, Binary32, Binary32, bool))
        ensures
            data@.len() >= 4 && twos_complement(le_value(data@, 0)) != 1 ==> r
                == TelemetryReading::no_signal().tuple(),
    {
        if data.len() < self.expected_packet_size() {
            return (Binary32::zero_value(), Binary32::zero_value(), Binary32::zero_value(), false);
        }
        let is_race_on = i32_from_byte_slice(&data[0..4]) == 1;

        if !is_race_on {
            return (Binary32::zero_value(), Binary32::zero_value(), Binary32::zero_value(), false);
        }
        let max_rpm = f32_from_byte_slice(&data[8..12]);
        let idle_rpm = f32_from_byte_slice(&data[12..16]);
        let current_rpm = f32_from_byte_slice(&data[16..20]);

        (current_rpm, max_rpm, idle_rpm, is_race_on)
    }

    fn expected_packet_size(&self) -> (n: usize) {
        FORZA_HORIZON5_PACKET_SIZE
    }

    fn game_name(&self) -> (s: &'static str) {
        "Forza Horizon 5"
    }
}

/// The supported simulators.
#[derive(Clone, Copy, Debug, PartialEq, Eq, Structural)]
pub enum GameType {
    DirtRally2,
    ForzaHorizon5,
}

/// The packet layout and decoding rule of one supported simulator: a closed
/// choice among the decoders, which is itself a decoder.
#[derive(Clone, Copy, Debug, PartialEq, Eq, Structural)]
pub enum GameProfile {
    DirtRally2(DirtRally2Parser),
    ForzaHorizon5(ForzaHorizon5Parser),
}

impl GameProfile {
    /// The simulator that the profile belongs to.
    pub open spec fn game(self) -> GameType {
        match self {
            GameProfile::DirtRally2(_) => GameType::DirtRally2,
            GameProfile::ForzaHorizon5(_) => GameType::ForzaHorizon5,
        }
    }

    /// The simulator that the profile belongs to.
    pub fn game_type(&self) -> (g: GameType)
        ensures
            g == self.game(),
    {
        match self {
            GameProfile::DirtRally2(_) => GameType::DirtRally2,
            GameProfile::ForzaHorizon5(_) => GameType::ForzaHorizon5,
        }
    }

    /// Decodes a buffer into a reading.
    pub fn decode(&self, data: &[u8]) -> (r: TelemetryReading)
        ensures
            r == self.reading(data@),
            data@.len() < self.packet_size() ==> r == TelemetryReading::no_signal(),
    {
        TelemetryReading::from_tuple(self.parse_rpm_data(data))
    }
}

impl TelemetryParser for GameProfile {
    open spec fn packet_size(&self) -> nat {
        match self {
            GameProfile::DirtRally2(p) => p.packet_size(),
            GameProfile::ForzaHorizon5(p) => p.packet_size(),
        }
    }

    open spec fn name(&self) -> Seq<char> {
        match self {
            GameProfile::DirtRally2(p) => p.name(),
            GameProfile::ForzaHorizon5(p) => p.name(),
        }
    }

    open spec fn reading(&self, data: Seq<u8>) -> TelemetryReading {
        match self {
            GameProfile::DirtRally2(p) => p.reading(data),
            GameProfile::ForzaHorizon5(p) => p.reading(data),
        }
    }

    fn parse_rpm_data(&self, data: &[u8]) -> (r: (Binary32, Binary32, Binary32, bool)) {
        match self {
            GameProfile::DirtRally2(p) => p.parse_rpm_data(data),
            GameProfile::ForzaHorizon5(p) => p.parse_rpm_data(data),
        }
    }

    fn expected_packet_size(&self) -> (n: usize) {
        match self {
            GameProfile::DirtRally2(p) => p.expected_packet_size(),
            GameProfile::ForzaHorizon5(p) => p.expected_packet_size(),
        }
    }

    fn game_name(&self) -> (s: &'static str) {
        match self {
            GameProfile::DirtRally2(p) => p.game_name(),
            GameProfile::ForzaHorizon5(p) => p.game_name(),
        }
    }
}

/// The lowercase form of a string, as `str::to_lowercase` of the standard
/// library gives it.
pub uninterp spec fn lowercase_of(s: Seq<char>) -> Seq<char>;

/// `str::to_lowercase` of the standard library. Its result is taken to be a
/// function of the characters of its argument, and is given a name; nothing
/// else is claimed of it.
#[verifier::external_body]
fn to_lowercase(s: &str) -> (r: String)
    ensures
        r@ == lowercase_of(s@),
{
    s.to_lowercase()
}

impl GameType {
    /// The profile of the simulator.
    pub open spec fn profile(self) -> GameProfile {
        match self {
            GameType::DirtRally2 => GameProfile::DirtRally2(DirtRally2Parser),
            GameType::ForzaHorizon5 => GameProfile::ForzaHorizon5(ForzaHorizon5Parser),
        }
    }

    /// The port on which the simulator sends its telemetry by default.
    pub open spec fn standard_port(self) -> u16 {
        match self {
            GameType::DirtRally2 => 20777,
            GameType::ForzaHorizon5 => 9999,
        }
    }

    /// The simulator that a name in lowercase stands for, if any.
    pub open spec fn named(name: Seq<char>) -> Option<GameType> {
        if name == "dirt-rally-2"@ || name == "dr2"@ || name == "dirt"@ {
            Some(GameType::DirtRally2)
        } else if name == "forza-horizon-5"@ || name == "fh5"@ || name == "forza"@ {
            Some(GameType::ForzaHorizon5)
        } else {
            None
        }
    }

    /// The decoder of the simulator's packets.
    pub fn parser(&self) -> (p: GameProfile)
        ensures
            p == self.profile(),
            p.game() == *self,
    {
        match self {
            GameType::DirtRally2 => GameProfile::DirtRally2(DirtRally2Parser),
            GameType::ForzaHorizon5 => GameProfile::ForzaHorizon5(ForzaHorizon5Parser),
        }
    }

    /// The port on which the simulator sends its telemetry by default.
    pub fn default_port(&self) -> (port: u16)
        ensures
            port == self.standard_port(),
    {
        match self {
            GameType::DirtRally2 => 20777,
            GameType::ForzaHorizon5 => 9999,
        }
    }

    /// The simulator that a name stands for, where the name is already in
    /// lowercase: `dirt-rally-2`, `dr2` and `dirt` on the one hand,
    /// `forza-horizon-5`, `fh5` and `forza` on the other.
    pub fn from_lowercase(name: &str) -> (r: Option<GameType>)
        ensures
            r == GameType::named(name@),
    {
        let name = name.to_owned();
        if name == "dirt-rally-2".to_owned() || name == "dr2".to_owned() || name
            == "dirt".to_owned() {
            Some(GameType::DirtRally2)
        } else if name == "forza-horizon-5".to_owned() || name == "fh5".to_owned() || name
            == "forza".to_owned() {
            Some(GameType::ForzaHorizon5)
        } else {
            None
        }
    }

    /// The simulator that a name stands for, whatever the case of its
    /// letters.
    pub fn from_str(s: &str) -> (r: Option<GameType>)
        ensures
            r == GameType::named(lowercase_of(s@)),
    {
        let lowered = to_lowercase(s);
        GameType::from_lowercase(lowered.as_str())
    }
}

} // verus!
