//! The command executor, the named commands of the keyboard and the opcode
//! prober.
//!
//! Every command is one exchange: a packet goes out as a feature report and
//! the 64-byte reply comes back. What the reply holds is the keyboard's
//! matter; what is made of it is stated here for every reply.

use crate::error::AkkoError;
use crate::hid::AkkoHidDevice;
use crate::protocol::{
    carries_data, opcode_byte, opcode_from_byte, opcode_name, padded, zero_packet, AkkoOpcode,
    AkkoPacket,
};
use crate::text::hex_dump;
use vstd::prelude::*;
use vstd::string::StringExecFns;

verus! {

/// Whether a reply counts as a success for the opcode byte that was sent: it
/// carries data, or it echoes the opcode in its first byte.
///
/// This is a reading of captured traffic, not a rule of the protocol; it is
/// kept in this one place.
pub open spec fn reply_succeeds(opcode: u8, response: Seq<u8>) -> bool {
    carries_data(padded(response)) || response[0] == opcode
}

/// The preview of a reply: its first sixteen bytes in hexadecimal, with
/// zeros standing in for what a short reply lacks.
pub open spec fn preview(response: Seq<u8>) -> Seq<char> {
    hex_dump(padded(response).take(16))
}

/// The outcome of one command.
#[derive(Debug, Clone)]
pub struct CommandResult {
    pub success: bool,
    pub opcode: u8,
    pub opcode_name: String,
    pub response: Vec<u8>,
    pub hex_short: String,
}

/// The outcome of probing one opcode.
#[derive(Debug, Clone)]
pub struct ProbeResult {
    pub opcode: u8,
    pub opcode_name: String,
    pub responded: bool,
    pub has_data: bool,
    pub response_hex: String,
}

impl CommandResult {
    /// Whether this is the outcome of sending `opcode` and receiving
    /// `response`.
    pub open spec fn describes(self, opcode: AkkoOpcode, response: Seq<u8>) -> bool {
        &&& self.success == reply_succeeds(opcode_byte(opcode), response)
        &&& self.opcode == opcode_byte(opcode)
        &&& self.opcode_name@ == opcode_name(opcode)
        &&& self.response@ == response
        &&& self.hex_short@ == preview(response)
    }

    /// Wraps the reply to `opcode` into a result.
    pub fn from_response(opcode: AkkoOpcode, response: Vec<u8>) -> (result: Self)
        requires
            response@.len() > 0,
        ensures
            result.describes(opcode, response@),
    {
        let packet = AkkoPacket::from_bytes(response.as_slice());
        let op_byte: u8 = u8::from(opcode);
        Self {
            success: packet.has_data() || response[0] == op_byte,
            opcode: op_byte,
            opcode_name: String::from_str(opcode.name()),
            hex_short: packet.to_hex_short(),
            response,
        }
    }
}

impl ProbeResult {
    /// Whether this is the outcome of probing `opcode` with the given end of
    /// the exchange: the reply, or `None` where the transport failed.
    pub open spec fn describes(self, opcode: u8, reply: Option<Seq<u8>>) -> bool {
        &&& self.opcode == opcode
        &&& self.opcode_name@ == opcode_name(opcode_from_byte(opcode))
        &&& match reply {
            Some(response) => {
                &&& self.responded
                &&& self.has_data == carries_data(padded(response))
                &&& self.response_hex@ == preview(response)
            },
            None => {
                &&& !self.responded
                &&& !self.has_data
                &&& self.response_hex@ == Seq::<char>::empty()
            },
        }
    }

    /// Whether this is the outcome of probing `opcode`, however the exchange
    /// ended.
    pub open spec fn is_probe_of(self, opcode: u8) -> bool {
        exists|reply: Option<Seq<u8>>| #[trigger] self.describes(opcode, reply)
    }

    /// Classifies the end of one probe exchange. A reply counts as an
    /// answer, with or without data; a transport failure counts as no
    /// answer.
    pub fn from_exchange(opcode: u8, reply: &Result<Vec<u8>, AkkoError>) -> (result: Self)
        ensures
            result.describes(
                opcode,
                match reply {
                    Ok(response) => Some(response@),
                    Err(_) => None,
                },
            ),
    {
        let akko_opcode = AkkoOpcode::from(opcode);
        match reply {
            Ok(response) => {
                let resp_packet = AkkoPacket::from_bytes(response.as_slice());
                ProbeResult {
                    opcode,
                    opcode_name: String::from_str(akko_opcode.name()),
                    responded: true,
                    has_data: resp_packet.has_data(),
                    response_hex: resp_packet.to_hex_short(),
                }
            },
            Err(_) => ProbeResult {
                opcode,
                opcode_name: String::from_str(akko_opcode.name()),
                responded: false,
                has_data: false,
                response_hex: String::new(),
            },
        }
    }
}

/// Sends the generic packet of `opcode` and wraps the reply.
pub fn execute_command(device: &AkkoHidDevice, opcode: AkkoOpcode) -> (outcome: Result<
    CommandResult,
    AkkoError,
>)
    ensures
        outcome matches Ok(result) ==> result.response@.len() == 64 && result.describes(
            opcode,
            result.response@,
        ),
        outcome matches Err(e) ==> e is TransportIoError,
{
    let packet = AkkoPacket::with_opcode(opcode);
    match device.send_feature_report(packet.as_bytes()) {
        Ok(response) => Ok(CommandResult::from_response(opcode, response)),
        Err(e) => Err(e),
    }
}

/// Sends the generic packet of `opcode` with two parameters and wraps the
/// reply.
pub fn execute_command_with_params(
    device: &AkkoHidDevice,
    opcode: AkkoOpcode,
    param1: u8,
    param2: u8,
) -> (outcome: Result<CommandResult, AkkoError>)
    ensures
        outcome matches Ok(result) ==> result.response@.len() == 64 && result.describes(
            opcode,
            result.response@,
        ),
        outcome matches Err(e) ==> e is TransportIoError,
{
    let packet = AkkoPacket::with_opcode_params(opcode, param1, param2);
    match device.send_feature_report(packet.as_bytes()) {
        Ok(response) => Ok(CommandResult::from_response(opcode, response)),
        Err(e) => Err(e),
    }
}

/// Performs the handshake, which the keyboard expects before any other
/// command.
pub fn cmd_handshake(device: &AkkoHidDevice) -> (outcome: Result<CommandResult, AkkoError>)
    ensures
        outcome matches Ok(result) ==> result.response@.len() == 64 && result.describes(
            AkkoOpcode::Handshake,
            result.response@,
        ),
        outcome matches Err(e) ==> e is TransportIoError,
{
    execute_command(device, AkkoOpcode::Handshake)
}

/// Asks for the profile count and the active profile.
pub fn cmd_get_profile_count(device: &AkkoHidDevice) -> (outcome: Result<CommandResult, AkkoError>)
    ensures
        outcome matches Ok(result) ==> result.response@.len() == 64 && result.describes(
            AkkoOpcode::GetProfileCount,
            result.response@,
        ),
        outcome matches Err(e) ==> e is TransportIoError,
{
    execute_command(device, AkkoOpcode::GetProfileCount)
}

/// Asks for the device info.
pub fn cmd_get_device_info(device: &AkkoHidDevice) -> (outcome: Result<CommandResult, AkkoError>)
    ensures
        outcome matches Ok(result) ==> result.response@.len() == 64 && result.describes(
            AkkoOpcode::GetDeviceInfo,
            result.response@,
        ),
        outcome matches Err(e) ==> e is TransportIoError,
{
    execute_command(device, AkkoOpcode::GetDeviceInfo)
}

/// Asks for the RGB settings: mode, speed, direction and colour.
pub fn cmd_get_rgb_settings(device: &AkkoHidDevice) -> (outcome: Result<CommandResult, AkkoError>)
    ensures
        outcome matches Ok(result) ==> result.response@.len() == 64 && result.describes(
            AkkoOpcode::GetRgbSettings,
            result.response@,
        ),
        outcome matches Err(e) ==> e is TransportIoError,
{
    execute_command(device, AkkoOpcode::GetRgbSettings)
}

/// Asks for the details of the RGB mode.
pub fn cmd_get_rgb_mode(device: &AkkoHidDevice) -> (outcome: Result<CommandResult, AkkoError>)
    ensures
        outcome matches Ok(result) ==> result.response@.len() == 64 && result.describes(
            AkkoOpcode::GetRgbMode,
            result.response@,
        ),
        outcome matches Err(e) ==> e is TransportIoError,
{
    execute_command(device, AkkoOpcode::GetRgbMode)
}

/// Asks for the performance settings (debounce).
pub fn cmd_get_performance(device: &AkkoHidDevice) -> (outcome: Result<CommandResult, AkkoError>)
    ensures
        outcome matches Ok(result) ==> result.response@.len() == 64 && result.describes(
            AkkoOpcode::GetPerformance,
            result.response@,
        ),
        outcome matches Err(e) ==> e is TransportIoError,
{
    execute_command(device, AkkoOpcode::GetPerformance)
}

/// Asks for the FN lock status.
pub fn cmd_get_fn_lock(device: &AkkoHidDevice) -> (outcome: Result<CommandResult, AkkoError>)
    ensures
        outcome matches Ok(result) ==> result.response@.len() == 64 && result.describes(
            AkkoOpcode::GetFnLockStatus,
            result.response@,
        ),
        outcome matches Err(e) ==> e is TransportIoError,
{
    execute_command(device, AkkoOpcode::GetFnLockStatus)
}

/// Asks for the indicator LED status.
pub fn cmd_get_indicator_led(device: &AkkoHidDevice) -> (outcome: Result<CommandResult, AkkoError>)
    ensures
        outcome matches Ok(result) ==> result.response@.len() == 64 && result.describes(
            AkkoOpcode::GetIndicatorLed,
            result.response@,
        ),
        outcome matches Err(e) ==> e is TransportIoError,
{
    execute_command(device, AkkoOpcode::GetIndicatorLed)
}

/// The RGB mode that cycles through colours.
pub const MODE_DAZZLE: u8 = 0x07;

/// The RGB mode that shows one colour.
pub const MODE_STATIC_COLOR: u8 = 0x08;

/// The highest speed and brightness step of the settings.
pub const MAX_LEVEL: u8 = 4;

/// The speed byte on the wire. The keyboard counts speed downwards: step 4
/// goes out as 1 and step 0 as 5; a step above 4 counts as 4.
pub open spec fn wire_speed(speed: u8) -> u8 {
    if speed >= 4 {
        1u8
    } else {
        (5 - speed) as u8
    }
}

/// The brightness byte on the wire: the step itself, and 4 for any step
/// above 4.
pub open spec fn wire_brightness(brightness: u8) -> u8 {
    if brightness >= 4 {
        4u8
    } else {
        brightness
    }
}

/// The checksum of a set-RGB packet: `0xFF` minus the sum of its first eight
/// bytes modulo 256.
pub open spec fn rgb_checksum(bytes: Seq<u8>) -> u8 {
    (0xFF - (bytes[0] + bytes[1] + bytes[2] + bytes[3] + bytes[4] + bytes[5] + bytes[6]
        + bytes[7]) % 256) as u8
}

/// The first eight bytes of a set-RGB packet, and zeros behind them.
pub open spec fn set_rgb_head(
    brightness: u8,
    speed: u8,
    direction: u8,
    color: (u8, u8, u8),
    mode: u8,
) -> Seq<u8> {
    zero_packet().update(0, 0x07u8).update(1, direction).update(2, wire_speed(speed)).update(
        3,
        wire_brightness(brightness),
    ).update(4, mode).update(5, color.0).update(6, color.1).update(7, color.2)
}

/// The set-RGB packet. Its layout is its own: opcode 0x07, direction, wire
/// speed, brightness, mode and the colour in the first eight bytes, and at
/// offset 8 the checksum over those eight.
pub open spec fn set_rgb_packet(
    brightness: u8,
    speed: u8,
    direction: u8,
    color: (u8, u8, u8),
    mode: u8,
) -> Seq<u8> {
    set_rgb_head(brightness, speed, direction, color, mode).update(
        8,
        rgb_checksum(set_rgb_head(brightness, speed, direction, color, mode)),
    )
}

/// Speed step 4 goes out as 1, step 0 as 5, and every step above 4 as step 4
/// does; the wire speed always lies between 1 and 5, and within the range a
/// higher step gives a lower wire value.
pub proof fn lemma_speed_inversion(speed: u8)
    ensures
        wire_speed(4) == 1,
        wire_speed(0) == 5,
        speed > 4 ==> wire_speed(speed) == wire_speed(4),
        speed <= 4 ==> wire_speed(speed) + speed == 5,
        1 <= wire_speed(speed) <= 5,
{
}

/// Builds the set-RGB packet.
pub fn encode_set_rgb(
    brightness: u8,
    speed: u8,
    direction: u8,
    color: (u8, u8, u8),
    mode: u8,
) -> (packet: AkkoPacket)
    ensures
        packet@ == set_rgb_packet(brightness, speed, direction, color, mode),
{
    let mut packet = AkkoPacket::with_opcode(AkkoOpcode::SetRgbSettings);
    let level: u8 = if speed < MAX_LEVEL {
        speed
    } else {
        MAX_LEVEL
    };
    let data = packet.as_bytes_mut();
    data[0] = 0x07;
    data[1] = direction;
    data[2] = 5 - level;
    data[3] = if brightness < MAX_LEVEL {
        brightness
    } else {
        MAX_LEVEL
    };
    data[4] = mode;
    data[5] = color.0;
    data[6] = color.1;
    data[7] = color.2;
    let sum: u16 = data[0] as u16 + data[1] as u16 + data[2] as u16 + data[3] as u16
        + data[4] as u16 + data[5] as u16 + data[6] as u16 + data[7] as u16;
    data[8] = (0xFF_u16 - sum % 256) as u8;
    assert(data@ =~= set_rgb_packet(brightness, speed, direction, color, mode));
    packet
}

/// Sets the RGB settings in Dazzle mode.
pub fn cmd_set_rgb_settings(
    device: &AkkoHidDevice,
    brightness: u8,
    speed: u8,
    direction: u8,
    color: (u8, u8, u8),
) -> (outcome: Result<CommandResult, AkkoError>)
    ensures
        outcome matches Ok(result) ==> result.response@.len() == 64 && result.describes(
            AkkoOpcode::SetRgbSettings,
            result.response@,
        ),
        outcome matches Err(e) ==> e is TransportIoError,
{
    cmd_set_rgb_settings_with_mode(device, brightness, speed, direction, color, MODE_DAZZLE)
}

/// Sets the RGB settings in the given mode: sends the set-RGB packet and
/// wraps the reply.
pub fn cmd_set_rgb_settings_with_mode(
    device: &AkkoHidDevice,
    brightness: u8,
    speed: u8,
    direction: u8,
    color: (u8, u8, u8),
    mode: u8,
) -> (outcome: Result<CommandResult, AkkoError>)
    ensures
        outcome matches Ok(result) ==> result.response@.len() == 64 && result.describes(
            AkkoOpcode::SetRgbSettings,
            result.response@,
        ),
        outcome matches Err(e) ==> e is TransportIoError,
{
    let packet = encode_set_rgb(brightness, speed, direction, color, mode);
    match device.send_feature_report(packet.as_bytes()) {
        Ok(response) => Ok(CommandResult::from_response(AkkoOpcode::SetRgbSettings, response)),
        Err(e) => Err(e),
    }
}

/// Probes one opcode: sends its generic packet and classifies the end of
/// the exchange. A transport failure is no error here: it is reported as an
/// opcode that did not respond, so the result is always `Ok`.
pub fn probe_opcode(device: &AkkoHidDevice, opcode: u8) -> (probed: Result<ProbeResult, AkkoError>)
    ensures
        probed matches Ok(result) && result.is_probe_of(opcode),
{
    let akko_opcode = AkkoOpcode::from(opcode);
    let packet = AkkoPacket::with_opcode(akko_opcode);
    let reply = device.send_feature_report(packet.as_bytes());
    let result = ProbeResult::from_exchange(opcode, &reply);
    proof {
        let end = match reply {
            Ok(response) => Some(response@),
            Err(_) => None,
        };
        assert(result.describes(opcode, end));
    }
    Ok(result)
}

/// The number of opcodes from `start` to `end`, both included.
pub open spec fn range_len(start: u8, end: u8) -> nat {
    if start <= end {
        (end - start + 1) as nat
    } else {
        0
    }
}

/// Whether `results` is a scan of the opcodes from `start` to `end`, both
/// included: one result for each opcode, in ascending order of the opcodes,
/// however each exchange ended.
pub open spec fn is_range_probe(results: Seq<ProbeResult>, start: u8, end: u8) -> bool {
    &&& results.len() == range_len(start, end)
    &&& forall|i: int|
        0 <= i < results.len() ==> (#[trigger] results[i]).is_probe_of((start + i) as u8)
}

/// In a scan every opcode of the range appears exactly once: the result at
/// position `op - start` is that of `op`, and the opcodes ascend strictly, so
/// no other position holds it. A scan of all opcodes has 256 results.
pub proof fn lemma_range_probe_covers_each_once(results: Seq<ProbeResult>, start: u8, end: u8)
    requires
        is_range_probe(results, start, end),
    ensures
        forall|op: u8| start <= op <= end ==> (#[trigger] results[op - start]).opcode == op,
        forall|i: int, j: int|
            0 <= i < j < results.len() ==> (#[trigger] results[i]).opcode < (
            #[trigger] results[j]).opcode,
        forall|i: int| 0 <= i < results.len() ==> start <= (#[trigger] results[i]).opcode <= end,
        start == 0 && end == 0xFF ==> results.len() == 256,
{
    assert forall|i: int| 0 <= i < results.len() implies (#[trigger] results[i]).opcode == start
        + i by {
        assert(results[i].is_probe_of((start + i) as u8));
    }
}

/// Probes every opcode from `start` to `end`, both included, in ascending
/// order. Each opcode gives exactly one result, whatever became of its
/// exchange; with `start` above `end` nothing is probed.
pub fn probe_opcode_range(device: &AkkoHidDevice, start: u8, end: u8) -> (probed: Result<
    Vec<ProbeResult>,
    AkkoError,
>)
    ensures
        probed matches Ok(results) && is_range_probe(results@, start, end),
{
    let mut results: Vec<ProbeResult> = Vec::new();
    if start > end {
        return Ok(results);
    }
    let mut opcode: u8 = start;
    loop
        invariant_except_break
            results@.len() == opcode - start,
        invariant
            start <= opcode <= end,
            forall|i: int|
                0 <= i < results@.len() ==> (#[trigger] results@[i]).is_probe_of((start + i) as u8),
        ensures
            results@.len() == range_len(start, end),
            forall|i: int|
                0 <= i < results@.len() ==> (#[trigger] results@[i]).is_probe_of((start + i) as u8),
        decreases end - opcode,
    {
        match probe_opcode(device, opcode) {
            Ok(result) => {
                results.push(result);
            },
            Err(_) => {},
        }
        if opcode == end {
            break ;
        }
        opcode += 1;
    }
    Ok(results)
}

/// The number of results that carry data.
pub open spec fn data_count(results: Seq<ProbeResult>) -> nat
    decreases results.len(),
{
    if results.len() == 0 {
        0
    } else {
        data_count(results.drop_last()) + if results.last().has_data {
            1nat
        } else {
            0nat
        }
    }
}

/// Counts the probed opcodes whose reply carried data.
pub fn count_with_data(results: &Vec<ProbeResult>) -> (count: usize)
    ensures
        count == data_count(results@),
{
    let mut count: usize = 0;
    let mut i: usize = 0;
    while i < results.len()
        invariant
            i <= results.len(),
            count == data_count(results@.take(i as int)),
            count <= i,
        decreases results.len() - i,
    {
        assert(results@.take(i + 1).drop_last() =~= results@.take(i as int));
        if results[i].has_data {
            count += 1;
        }
        i += 1;
    }
    assert(results@.take(results.len() as int) =~= results@);
    count
}

/// The commands that a full run sends, in order.
pub open spec fn all_commands() -> Seq<AkkoOpcode> {
    seq![
        AkkoOpcode::Handshake,
        AkkoOpcode::GetProfileCount,
        AkkoOpcode::GetDeviceInfo,
        AkkoOpcode::GetRgbSettings,
        AkkoOpcode::GetRgbMode,
        AkkoOpcode::GetPerformance,
        AkkoOpcode::GetFnLockStatus,
        AkkoOpcode::GetIndicatorLed,
        AkkoOpcode::GetSleepSettings,
        AkkoOpcode::GetMacroStatus,
    ]
}

/// Whether `outcome` is what one exchange for `opcode` may end in: the result
/// of `opcode` and of the 64-byte reply that it records, or a transport
/// error.
pub open spec fn is_exchange_outcome(
    outcome: Result<CommandResult, AkkoError>,
    opcode: AkkoOpcode,
) -> bool {
    match outcome {
        Ok(result) => result.response@.len() == 64 && result.describes(opcode, result.response@),
        Err(e) => e is TransportIoError,
    }
}

/// `results` after one more exchange: its result is added at the end where
/// the exchange succeeded, and nothing changes where it failed.
pub open spec fn kept(
    results: Seq<CommandResult>,
    outcome: Result<CommandResult, AkkoError>,
) -> Seq<CommandResult> {
    match outcome {
        Ok(result) => results.push(result),
        Err(_) => results,
    }
}

/// The results of the exchanges that succeeded, in the order of the
/// exchanges.
pub open spec fn successes(outcomes: Seq<Result<CommandResult, AkkoError>>) -> Seq<CommandResult>
    decreases outcomes.len(),
{
    if outcomes.len() == 0 {
        Seq::empty()
    } else {
        kept(successes(outcomes.drop_last()), outcomes.last())
    }
}

/// Whether a run of `commands` that ended in `outcomes`, one exchange for
/// each command in order, gives `results`: the results of the exchanges that
/// succeeded, in command order.
pub open spec fn run_gives(
    outcomes: Seq<Result<CommandResult, AkkoError>>,
    commands: Seq<AkkoOpcode>,
    results: Seq<CommandResult>,
) -> bool {
    &&& outcomes.len() == commands.len()
    &&& forall|i: int|
        0 <= i < outcomes.len() ==> is_exchange_outcome(#[trigger] outcomes[i], commands[i])
    &&& results == successes(outcomes)
}

/// Whether `results` is what a run of `commands` gives, however each
/// exchange ended.
pub open spec fn is_run_of(results: Seq<CommandResult>, commands: Seq<AkkoOpcode>) -> bool {
    exists|outcomes: Seq<Result<CommandResult, AkkoError>>|
        #[trigger] run_gives(outcomes, commands, results)
}

/// No more exchanges succeeded than were made.
pub proof fn lemma_successes_bound(outcomes: Seq<Result<CommandResult, AkkoError>>)
    ensures
        successes(outcomes).len() <= outcomes.len(),
    decreases outcomes.len(),
{
    if outcomes.len() > 0 {
        lemma_successes_bound(outcomes.drop_last());
    }
}

/// Takes the end of one exchange into the results of a run: a result is
/// added at the end, a failure is left out.
pub fn keep_success(results: &mut Vec<CommandResult>, outcome: Result<CommandResult, AkkoError>)
    ensures
        final(results)@ == kept(old(results)@, outcome),
{
    match outcome {
        Ok(result) => {
            results.push(result);
        },
        Err(_) => {},
    }
}

/// Runs all known commands in order and collects the results of those whose
/// exchange succeeded. A failed exchange is left out and does not stop the
/// run, so the result is always `Ok`: it holds one result for each exchange
/// that succeeded, in command order, and so at most ten.
pub fn run_all_commands(device: &AkkoHidDevice) -> (outcome: Result<Vec<CommandResult>, AkkoError>)
    ensures
        outcome matches Ok(results) && is_run_of(results@, all_commands()) && results@.len() <= 10,
{
    let commands = [
        AkkoOpcode::Handshake,
        AkkoOpcode::GetProfileCount,
        AkkoOpcode::GetDeviceInfo,
        AkkoOpcode::GetRgbSettings,
        AkkoOpcode::GetRgbMode,
        AkkoOpcode::GetPerformance,
        AkkoOpcode::GetFnLockStatus,
        AkkoOpcode::GetIndicatorLed,
        AkkoOpcode::GetSleepSettings,
        AkkoOpcode::GetMacroStatus,
    ];
    assert(commands@ =~= all_commands());
    let mut results: Vec<CommandResult> = Vec::new();
    let ghost mut outcomes: Seq<Result<CommandResult, AkkoError>> = Seq::empty();
    let mut i: usize = 0;
    while i < commands.len()
        invariant
            i <= commands@.len(),
            commands@.len() == 10,
            outcomes.len() == i,
            forall|j: int|
                0 <= j < outcomes.len() ==> is_exchange_outcome(
                    #[trigger] outcomes[j],
                    commands@[j],
                ),
            results@ == successes(outcomes),
        decreases commands@.len() - i,
    {
        let outcome = execute_command(device, commands[i]);
        proof {
            assert(outcomes.push(outcome).drop_last() =~= outcomes);
            outcomes = outcomes.push(outcome);
        }
        keep_success(&mut results, outcome);
        i += 1;
    }
    proof {
        assert(run_gives(outcomes, all_commands(), results@));
        lemma_successes_bound(outcomes);
    }
    Ok(results)
}

} // verus!
