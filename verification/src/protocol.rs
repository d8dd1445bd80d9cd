//! Packet layout and opcode catalog of the Akko feature-report protocol.
//!
//! | offset | field                      |
//! |--------|----------------------------|
//! | 0      | opcode                     |
//! | 1-2    | parameters                 |
//! | 3-6    | reserved / command data    |
//! | 7      | checksum (`0xFF - opcode`) |
//! | 8-63   | payload                    |

use crate::text::{hex_dump, to_hex};
use vstd::prelude::*;
use vstd::slice::slice_subrange;
use vstd::std_specs::convert::FromSpecImpl;

verus! {

/// Size in bytes of every packet exchanged with the keyboard.
pub const PACKET_SIZE: usize = 64;

/// Offset of the first payload byte.
pub const PAYLOAD_OFFSET: usize = 8;

/// The generic checksum of an opcode byte: `0xFF - opcode`.
pub open spec fn checksum_of(opcode: u8) -> u8 {
    (0xFF - opcode) as u8
}

/// Computes the checksum stored at offset 7 of a generic packet.
pub fn calc_checksum(opcode: u8) -> (sum: u8)
    ensures
        sum == checksum_of(opcode),
        sum as int == 0xFF - opcode as int,
{
    0xFF_u8 - opcode
}

/// The commands the keyboard is known to answer, and an open variant that
/// carries any other byte unchanged.
#[derive(Debug, Clone, Copy, PartialEq, Eq, Structural)]
pub enum AkkoOpcode {
    /// Handshake / init (0x8F). Reply: `[8F, fw_major, fw_minor, ..]`.
    Handshake,
    /// Profile count (0xF0). Reply: `[F0, count, active_profile, ..]`.
    GetProfileCount,
    /// Device info (0x80). Reply: `[80, type, status, ..]`.
    GetDeviceInfo,
    /// Set RGB settings (0x07).
    SetRgbSettings,
    /// RGB settings (0x87). Reply: `[87, mode, speed, dir, 0, R, G, B]`.
    GetRgbSettings,
    /// RGB mode (0x88). Reply: `[88, mode, p1, p2, brightness, R, G, B]`.
    GetRgbMode,
    /// Performance settings (0x92). Reply: `[92, debounce_dn, 0, debounce_up, ..]`.
    GetPerformance,
    /// FN lock status (0x84). Reply: `[84, 0, enabled, ..]`.
    GetFnLockStatus,
    /// Indicator LED settings (0x91). Reply: `[91, 0, enabled, ..]`.
    GetIndicatorLed,
    /// Sleep settings (0x97).
    GetSleepSettings,
    /// Custom RGB (0x86).
    GetCustomRgb,
    /// Macro status (0xAE).
    GetMacroStatus,
    /// Macro data (0xAD).
    GetMacroData,
    /// Layout info (0x85).
    GetLayoutInfo,
    /// Battery status (0x9D).
    GetBatteryStatus,
    /// Any byte outside the catalog, kept as it is.
    Unknown(u8),
}

/// The opcode that a wire byte stands for.
pub open spec fn opcode_from_byte(value: u8) -> AkkoOpcode {
    if value == 0x07 {
        AkkoOpcode::SetRgbSettings
    } else if value == 0x8F {
        AkkoOpcode::Handshake
    } else if value == 0xF0 {
        AkkoOpcode::GetProfileCount
    } else if value == 0x80 {
        AkkoOpcode::GetDeviceInfo
    } else if value == 0x87 {
        AkkoOpcode::GetRgbSettings
    } else if value == 0x88 {
        AkkoOpcode::GetRgbMode
    } else if value == 0x92 {
        AkkoOpcode::GetPerformance
    } else if value == 0x84 {
        AkkoOpcode::GetFnLockStatus
    } else if value == 0x91 {
        AkkoOpcode::GetIndicatorLed
    } else if value == 0x97 {
        AkkoOpcode::GetSleepSettings
    } else if value == 0x86 {
        AkkoOpcode::GetCustomRgb
    } else if value == 0xAE {
        AkkoOpcode::GetMacroStatus
    } else if value == 0xAD {
        AkkoOpcode::GetMacroData
    } else if value == 0x85 {
        AkkoOpcode::GetLayoutInfo
    } else if value == 0x9D {
        AkkoOpcode::GetBatteryStatus
    } else {
        AkkoOpcode::Unknown(value)
    }
}

/// The wire byte of an opcode.
pub open spec fn opcode_byte(opcode: AkkoOpcode) -> u8 {
    match opcode {
        AkkoOpcode::SetRgbSettings => 0x07,
        AkkoOpcode::Handshake => 0x8F,
        AkkoOpcode::GetProfileCount => 0xF0,
        AkkoOpcode::GetDeviceInfo => 0x80,
        AkkoOpcode::GetRgbSettings => 0x87,
        AkkoOpcode::GetRgbMode => 0x88,
        AkkoOpcode::GetPerformance => 0x92,
        AkkoOpcode::GetFnLockStatus => 0x84,
        AkkoOpcode::GetIndicatorLed => 0x91,
        AkkoOpcode::GetSleepSettings => 0x97,
        AkkoOpcode::GetCustomRgb => 0x86,
        AkkoOpcode::GetMacroStatus => 0xAE,
        AkkoOpcode::GetMacroData => 0xAD,
        AkkoOpcode::GetLayoutInfo => 0x85,
        AkkoOpcode::GetBatteryStatus => 0x9D,
        AkkoOpcode::Unknown(v) => v,
    }
}

/// The display name of an opcode.
pub open spec fn opcode_name(opcode: AkkoOpcode) -> Seq<char> {
    match opcode {
        AkkoOpcode::SetRgbSettings => "SetRgbSettings"@,
        AkkoOpcode::Handshake => "Handshake"@,
        AkkoOpcode::GetProfileCount => "GetProfileCount"@,
        AkkoOpcode::GetDeviceInfo => "GetDeviceInfo"@,
        AkkoOpcode::GetRgbSettings => "GetRgbSettings"@,
        AkkoOpcode::GetRgbMode => "GetRgbMode"@,
        AkkoOpcode::GetPerformance => "GetPerformance"@,
        AkkoOpcode::GetFnLockStatus => "GetFnLockStatus"@,
        AkkoOpcode::GetIndicatorLed => "GetIndicatorLed"@,
        AkkoOpcode::GetSleepSettings => "GetSleepSettings"@,
        AkkoOpcode::GetCustomRgb => "GetCustomRgb"@,
        AkkoOpcode::GetMacroStatus => "GetMacroStatus"@,
        AkkoOpcode::GetMacroData => "GetMacroData"@,
        AkkoOpcode::GetLayoutInfo => "GetLayoutInfo"@,
        AkkoOpcode::GetBatteryStatus => "GetBatteryStatus"@,
        AkkoOpcode::Unknown(_) => "Unknown"@,
    }
}

impl From<u8> for AkkoOpcode {
    fn from(value: u8) -> (opcode: Self) {
        match value {
            0x07 => AkkoOpcode::SetRgbSettings,
            0x8F => AkkoOpcode::Handshake,
            0xF0 => AkkoOpcode::GetProfileCount,
            0x80 => AkkoOpcode::GetDeviceInfo,
            0x87 => AkkoOpcode::GetRgbSettings,
            0x88 => AkkoOpcode::GetRgbMode,
            0x92 => AkkoOpcode::GetPerformance,
            0x84 => AkkoOpcode::GetFnLockStatus,
            0x91 => AkkoOpcode::GetIndicatorLed,
            0x97 => AkkoOpcode::GetSleepSettings,
            0x86 => AkkoOpcode::GetCustomRgb,
            0xAE => AkkoOpcode::GetMacroStatus,
            0xAD => AkkoOpcode::GetMacroData,
            0x85 => AkkoOpcode::GetLayoutInfo,
            0x9D => AkkoOpcode::GetBatteryStatus,
            other => AkkoOpcode::Unknown(other),
        }
    }
}

impl FromSpecImpl<u8> for AkkoOpcode {
    open spec fn obeys_from_spec() -> bool {
        true
    }

    open spec fn from_spec(value: u8) -> Self {
        opcode_from_byte(value)
    }
}

impl From<AkkoOpcode> for u8 {
    fn from(opcode: AkkoOpcode) -> (value: Self) {
        match opcode {
            AkkoOpcode::SetRgbSettings => 0x07,
            AkkoOpcode::Handshake => 0x8F,
            AkkoOpcode::GetProfileCount => 0xF0,
            AkkoOpcode::GetDeviceInfo => 0x80,
            AkkoOpcode::GetRgbSettings => 0x87,
            AkkoOpcode::GetRgbMode => 0x88,
            AkkoOpcode::GetPerformance => 0x92,
            AkkoOpcode::GetFnLockStatus => 0x84,
            AkkoOpcode::GetIndicatorLed => 0x91,
            AkkoOpcode::GetSleepSettings => 0x97,
            AkkoOpcode::GetCustomRgb => 0x86,
            AkkoOpcode::GetMacroStatus => 0xAE,
            AkkoOpcode::GetMacroData => 0xAD,
            AkkoOpcode::GetLayoutInfo => 0x85,
            AkkoOpcode::GetBatteryStatus => 0x9D,
            AkkoOpcode::Unknown(v) => v,
        }
    }
}

impl FromSpecImpl<AkkoOpcode> for u8 {
    open spec fn obeys_from_spec() -> bool {
        true
    }

    open spec fn from_spec(opcode: AkkoOpcode) -> Self {
        opcode_byte(opcode)
    }
}

impl AkkoOpcode {
    /// The opcode's name, for display and logs.
    pub fn name(&self) -> (name: &'static str)
        ensures
            name@ == opcode_name(*self),
    {
        match self {
            AkkoOpcode::SetRgbSettings => "SetRgbSettings",
            AkkoOpcode::Handshake => "Handshake",
            AkkoOpcode::GetProfileCount => "GetProfileCount",
            AkkoOpcode::GetDeviceInfo => "GetDeviceInfo",
            AkkoOpcode::GetRgbSettings => "GetRgbSettings",
            AkkoOpcode::GetRgbMode => "GetRgbMode",
            AkkoOpcode::GetPerformance => "GetPerformance",
            AkkoOpcode::GetFnLockStatus => "GetFnLockStatus",
            AkkoOpcode::GetIndicatorLed => "GetIndicatorLed",
            AkkoOpcode::GetSleepSettings => "GetSleepSettings",
            AkkoOpcode::GetCustomRgb => "GetCustomRgb",
            AkkoOpcode::GetMacroStatus => "GetMacroStatus",
            AkkoOpcode::GetMacroData => "GetMacroData",
            AkkoOpcode::GetLayoutInfo => "GetLayoutInfo",
            AkkoOpcode::GetBatteryStatus => "GetBatteryStatus",
            AkkoOpcode::Unknown(_) => "Unknown",
        }
    }
}

/// Reading a byte as an opcode and writing it back gives the same byte, for
/// every byte value.
pub proof fn lemma_opcode_round_trip(value: u8)
    ensures
        opcode_byte(opcode_from_byte(value)) == value,
{
}

/// Sixty-four zero bytes.
pub open spec fn zero_packet() -> Seq<u8> {
    Seq::new(PACKET_SIZE as nat, |i: int| 0u8)
}

/// The generic packet for an opcode byte and two parameters: zero everywhere
/// but at offsets 0 (opcode), 1 and 2 (parameters) and 7 (checksum).
pub open spec fn generic_packet(opcode: u8, param1: u8, param2: u8) -> Seq<u8> {
    zero_packet().update(0, opcode).update(1, param1).update(2, param2).update(
        7,
        checksum_of(opcode),
    )
}

/// The first sixty-four bytes of `bytes`, followed by zeros where it is shorter.
pub open spec fn padded(bytes: Seq<u8>) -> Seq<u8> {
    Seq::new(
        PACKET_SIZE as nat,
        |i: int|
            if i < bytes.len() {
                bytes[i]
            } else {
                0u8
            },
    )
}

/// `packet` with its payload region overwritten from the start by `payload`,
/// as far as either reaches.
pub open spec fn with_payload(packet: Seq<u8>, payload: Seq<u8>) -> Seq<u8> {
    Seq::new(
        packet.len(),
        |i: int|
            if PAYLOAD_OFFSET <= i < PAYLOAD_OFFSET + payload.len() {
                payload[i - PAYLOAD_OFFSET]
            } else {
                packet[i]
            },
    )
}

/// Whether any byte at offsets 1 to 6 is non-zero: the one sign that the
/// keyboard answered with content.
pub open spec fn carries_data(bytes: Seq<u8>) -> bool {
    bytes[1] != 0 || bytes[2] != 0 || bytes[3] != 0 || bytes[4] != 0 || bytes[5] != 0 || bytes[6]
        != 0
}

/// Whether the byte at offset 7 is the generic checksum of the byte at offset 0.
pub open spec fn checksum_holds(bytes: Seq<u8>) -> bool {
    bytes[7] == checksum_of(bytes[0])
}

/// A 64-byte packet. Its view is the sequence of its bytes.
#[derive(Debug, Clone)]
pub struct AkkoPacket {
    data: [u8; PACKET_SIZE],
}

impl View for AkkoPacket {
    type V = Seq<u8>;

    closed spec fn view(&self) -> Seq<u8> {
        self.data@
    }
}

impl AkkoPacket {
    /// An all-zero packet.
    pub fn new() -> (packet: Self)
        ensures
            packet@ == zero_packet(),
    {
        let packet = Self { data: [0u8; PACKET_SIZE] };
        assert(packet@ =~= zero_packet());
        packet
    }

    /// A packet that carries `opcode` and its checksum, and zeros elsewhere.
    pub fn with_opcode(opcode: AkkoOpcode) -> (packet: Self)
        ensures
            packet@ == generic_packet(opcode_byte(opcode), 0, 0),
            packet@[0] == opcode_byte(opcode),
            packet@[7] == checksum_of(opcode_byte(opcode)),
    {
        let mut packet = Self::new();
        let op_byte: u8 = u8::from(opcode);
        packet.data[0] = op_byte;
        packet.data[7] = calc_checksum(op_byte);
        assert(packet@ =~= generic_packet(op_byte, 0, 0));
        packet
    }

    /// A packet that carries `opcode`, two parameters and the checksum.
    pub fn with_opcode_params(opcode: AkkoOpcode, param1: u8, param2: u8) -> (packet: Self)
        ensures
            packet@ == generic_packet(opcode_byte(opcode), param1, param2),
    {
        let mut packet = Self::with_opcode(opcode);
        packet.data[1] = param1;
        packet.data[2] = param2;
        assert(packet@ =~= generic_packet(opcode_byte(opcode), param1, param2));
        packet
    }

    /// A packet read from raw bytes: longer input is cut at sixty-four bytes,
    /// shorter input is followed by zeros.
    pub fn from_bytes(data: &[u8]) -> (packet: Self)
        ensures
            packet@ == padded(data@),
    {
        let mut packet = Self::new();
        let len: usize = if data.len() < PACKET_SIZE {
            data.len()
        } else {
            PACKET_SIZE
        };
        let mut i: usize = 0;
        while i < len
            invariant
                i <= len,
                len <= data@.len(),
                len <= PACKET_SIZE,
                packet@.len() == PACKET_SIZE,
                forall|j: int| 0 <= j < i ==> packet@[j] == data@[j],
                forall|j: int| i <= j < PACKET_SIZE ==> packet@[j] == 0,
            decreases len - i,
        {
            packet.data[i] = data[i];
            i += 1;
        }
        assert(packet@ =~= padded(data@));
        packet
    }

    /// The opcode at offset 0.
    pub fn opcode(&self) -> (opcode: AkkoOpcode)
        ensures
            opcode == opcode_from_byte(self@[0]),
    {
        AkkoOpcode::from(self.data[0])
    }

    /// The two parameter bytes at offsets 1 and 2.
    pub fn params(&self) -> (params: (u8, u8))
        ensures
            params.0 == self@[1],
            params.1 == self@[2],
    {
        (self.data[1], self.data[2])
    }

    /// The checksum byte at offset 7.
    pub fn checksum(&self) -> (sum: u8)
        ensures
            sum == self@[7],
    {
        self.data[7]
    }

    /// Whether the stored checksum follows the generic formula.
    pub fn is_checksum_valid(&self) -> (valid: bool)
        ensures
            valid == checksum_holds(self@),
    {
        self.data[7] == calc_checksum(self.data[0])
    }

    /// The payload: the fifty-six bytes from offset 8 on.
    pub fn payload(&self) -> (payload: &[u8])
        ensures
            payload@ == self@.subrange(PAYLOAD_OFFSET as int, PACKET_SIZE as int),
    {
        slice_subrange(self.data.as_slice(), PAYLOAD_OFFSET, PACKET_SIZE)
    }

    /// Overwrites the payload from its start with `payload`; what does not fit
    /// into the fifty-six payload bytes is left out.
    pub fn set_payload(&mut self, payload: &[u8])
        ensures
            final(self)@ == with_payload(old(self)@, payload@),
    {
        let room: usize = PACKET_SIZE - PAYLOAD_OFFSET;
        let len: usize = if payload.len() < room {
            payload.len()
        } else {
            room
        };
        let mut i: usize = 0;
        while i < len
            invariant
                i <= len,
                len <= payload@.len(),
                len <= PACKET_SIZE - PAYLOAD_OFFSET,
                self@.len() == PACKET_SIZE,
                forall|j: int|
                    PAYLOAD_OFFSET <= j < PAYLOAD_OFFSET + i ==> self@[j] == payload@[j
                        - PAYLOAD_OFFSET],
                forall|j: int|
                    0 <= j < PACKET_SIZE && !(PAYLOAD_OFFSET <= j < PAYLOAD_OFFSET + i)
                        ==> self@[j] == old(self)@[j],
            decreases len - i,
        {
            self.data[PAYLOAD_OFFSET + i] = payload[i];
            i += 1;
        }
        assert(self@ =~= with_payload(old(self)@, payload@));
    }

    /// The packet's bytes.
    pub fn as_bytes(&self) -> (bytes: &[u8; PACKET_SIZE])
        ensures
            bytes@ == self@,
    {
        &self.data
    }

    /// The packet's bytes, for writing in place.
    pub fn as_bytes_mut(&mut self) -> (bytes: &mut [u8; PACKET_SIZE])
        ensures
            bytes@ == old(self)@,
            final(self)@ == final(bytes)@,
    {
        &mut self.data
    }

    /// Whether the packet carries data: any non-zero byte at offsets 1 to 6.
    pub fn has_data(&self) -> (present: bool)
        ensures
            present == carries_data(self@),
    {
        self.data[1] != 0 || self.data[2] != 0 || self.data[3] != 0 || self.data[4] != 0
            || self.data[5] != 0 || self.data[6] != 0
    }

    /// All sixty-four bytes in hexadecimal.
    pub fn to_hex_string(&self) -> (text: String)
        ensures
            text@ == hex_dump(self@),
    {
        to_hex(self.data.as_slice())
    }

    /// The first sixteen bytes in hexadecimal.
    pub fn to_hex_short(&self) -> (text: String)
        ensures
            text@ == hex_dump(self@.take(16)),
    {
        let head = slice_subrange(self.data.as_slice(), 0, 16);
        assert(head@ =~= self@.take(16));
        to_hex(head)
    }
}

impl Default for AkkoPacket {
    fn default() -> (packet: Self)
        ensures
            packet@ == zero_packet(),
    {
        Self::new()
    }
}

/// The RGB settings reported in answer to `GetRgbSettings`.
#[derive(Debug, Clone, Copy, PartialEq, Eq)]
pub struct RgbSettings {
    pub mode: u8,
    pub speed: u8,
    pub direction: u8,
    pub color: (u8, u8, u8),
}

/// The settings that a reply holds: mode, speed and direction at offsets 1 to
/// 3 and the colour at offsets 5 to 7, provided that the reply has at least
/// eight bytes and starts with 0x87.
pub open spec fn rgb_settings_of(data: Seq<u8>) -> Option<RgbSettings> {
    if data.len() < 8 || data[0] != 0x87 {
        None
    } else {
        Some(
            RgbSettings {
                mode: data[1],
                speed: data[2],
                direction: data[3],
                color: (data[5], data[6], data[7]),
            },
        )
    }
}

impl RgbSettings {
    /// Reads the settings out of a reply, or gives `None` where the reply is
    /// too short or answers another opcode.
    pub fn from_response(data: &[u8]) -> (settings: Option<Self>)
        ensures
            settings == rgb_settings_of(data@),
    {
        if data.len() < 8 || data[0] != 0x87 {
            return None;
        }
        Some(
            Self {
                mode: data[1],
                speed: data[2],
                direction: data[3],
                color: (data[5], data[6], data[7]),
            },
        )
    }
}

/// The debounce settings reported in answer to `GetPerformance`.
#[derive(Debug, Clone, Copy, PartialEq, Eq)]
pub struct PerformanceSettings {
    pub debounce_down: u8,
    pub debounce_up: u8,
}

/// The settings that a reply holds: the bytes at offsets 1 and 3, provided
/// that the reply has at least four bytes and starts with 0x92.
pub open spec fn performance_settings_of(data: Seq<u8>) -> Option<PerformanceSettings> {
    if data.len() < 4 || data[0] != 0x92 {
        None
    } else {
        Some(PerformanceSettings { debounce_down: data[1], debounce_up: data[3] })
    }
}

impl PerformanceSettings {
    /// Reads the settings out of a reply, or gives `None` where the reply is
    /// too short or answers another opcode.
    pub fn from_response(data: &[u8]) -> (settings: Option<Self>)
        ensures
            settings == performance_settings_of(data@),
    {
        if data.len() < 4 || data[0] != 0x92 {
            return None;
        }
        Some(Self { debounce_down: data[1], debounce_up: data[3] })
    }
}

/// The profile count and active profile reported in answer to
/// `GetProfileCount`.
#[derive(Debug, Clone, Copy, PartialEq, Eq)]
pub struct ProfileInfo {
    pub count: u8,
    pub active: u8,
}

/// The profile information that a reply holds: the bytes at offsets 1 and 2,
/// provided that the reply has at least three bytes and starts with 0xF0.
pub open spec fn profile_info_of(data: Seq<u8>) -> Option<ProfileInfo> {
    if data.len() < 3 || data[0] != 0xF0 {
        None
    } else {
        Some(ProfileInfo { count: data[1], active: data[2] })
    }
}

impl ProfileInfo {
    /// Reads the profile information out of a reply, or gives `None` where the
    /// reply is too short or answers another opcode.
    pub fn from_response(data: &[u8]) -> (info: Option<Self>)
        ensures
            info == profile_info_of(data@),
    {
        if data.len() < 3 || data[0] != 0xF0 {
            return None;
        }
        Some(Self { count: data[1], active: data[2] })
    }
}

/// A packet built for an opcode stores `0xFF` minus the opcode's byte as its
/// checksum, and the checksum is valid.
pub proof fn lemma_builder_checksum(opcode: AkkoOpcode, param1: u8, param2: u8)
    ensures
        generic_packet(opcode_byte(opcode), param1, param2)[7] as int == 0xFF - opcode_byte(
            opcode,
        ) as int,
        generic_packet(opcode_byte(opcode), param1, param2)[0] == opcode_byte(opcode),
        checksum_holds(generic_packet(opcode_byte(opcode), param1, param2)),
{
}

/// An all-zero packet carries no data.
pub proof fn lemma_zero_packet_carries_no_data()
    ensures
        !carries_data(zero_packet()),
{
}

/// A packet carries data exactly when some byte at offsets 1 to 6 is non-zero.
pub proof fn lemma_carries_data_iff(bytes: Seq<u8>)
    ensures
        carries_data(bytes) <==> exists|i: int| 1 <= i <= 6 && bytes[i] != 0,
{
    if carries_data(bytes) {
        let i: int = if bytes[1] != 0 {
            1
        } else if bytes[2] != 0 {
            2
        } else if bytes[3] != 0 {
            3
        } else if bytes[4] != 0 {
            4
        } else if bytes[5] != 0 {
            5
        } else {
            6
        };
        assert(1 <= i <= 6 && bytes[i] != 0);
    }
}

} // verus!
