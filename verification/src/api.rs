//! The operations offered to callers. Each takes a keyboard model, opens a
//! fresh handle to that keyboard, and closes it when it returns.
//!
//! The keyboard answers other commands only after a handshake, so every
//! operation that sends another command performs the handshake first.

use crate::commands::{
    all_commands, cmd_get_performance, cmd_get_profile_count, cmd_get_rgb_mode,
    cmd_get_rgb_settings, cmd_handshake, cmd_set_rgb_settings, cmd_set_rgb_settings_with_mode,
    is_range_probe, is_run_of, probe_opcode, probe_opcode_range, run_all_commands, CommandResult,
    ProbeResult,
};
use crate::detector::{model_pid, model_vid, AkkoModel};
use crate::error::AkkoError;
use crate::hid::AkkoHidDevice;
use crate::protocol::{AkkoOpcode, PACKET_SIZE};
use vstd::prelude::*;

verus! {

/// The errors that reaching the keyboard of `model` can end in: the HID
/// layer does not start, no interface has the model's identifiers, the
/// interface does not open, or an exchange fails.
pub open spec fn is_link_error(e: AkkoError, model: AkkoModel) -> bool {
    ||| e is HidInitFailure
    ||| e == (AkkoError::DeviceNotFound {
        vendor_id: model_vid(model),
        product_id: model_pid(model),
    })
    ||| e is InterfaceOpenFailure
    ||| e is TransportIoError
}

/// Whether `outcome` is what a command for `opcode` on `model` may give: the
/// result of `opcode` and of a 64-byte reply, or a link error.
pub open spec fn is_command_outcome(
    outcome: Result<CommandResult, AkkoError>,
    model: AkkoModel,
    opcode: AkkoOpcode,
) -> bool {
    match outcome {
        Ok(result) => result.response@.len() == 64 && result.describes(opcode, result.response@),
        Err(e) => is_link_error(e, model),
    }
}

/// Opens the keyboard of `model`.
fn open_model(model: AkkoModel) -> (opened: Result<AkkoHidDevice, AkkoError>)
    ensures
        opened matches Ok(device) ==> device.well_selected(),
        opened matches Err(e) ==> is_link_error(e, model),
{
    AkkoHidDevice::open(model.vid(), model.pid())
}

/// Opens the keyboard of `model` and performs the handshake.
fn open_session(model: AkkoModel) -> (opened: Result<AkkoHidDevice, AkkoError>)
    ensures
        opened matches Ok(device) ==> device.well_selected(),
        opened matches Err(e) ==> is_link_error(e, model),
{
    let device = match open_model(model) {
        Ok(device) => device,
        Err(e) => {
            return Err(e);
        },
    };
    match cmd_handshake(&device) {
        Ok(_) => Ok(device),
        Err(e) => Err(e),
    }
}

/// Performs the handshake and returns the keyboard's 64-byte reply.
pub fn akko_handshake(model: AkkoModel) -> (outcome: Result<Vec<u8>, AkkoError>)
    ensures
        outcome matches Ok(response) ==> response@.len() == 64,
        outcome matches Err(e) ==> is_link_error(e, model),
{
    let device = match open_model(model) {
        Ok(device) => device,
        Err(e) => {
            return Err(e);
        },
    };
    match cmd_handshake(&device) {
        Ok(result) => Ok(result.response),
        Err(e) => Err(e),
    }
}

/// Sends one 64-byte packet as it is and returns the 64-byte reply. No
/// handshake is sent first.
pub fn akko_send_packet(model: AkkoModel, packet: [u8; 64]) -> (outcome: Result<Vec<u8>, AkkoError>)
    ensures
        outcome matches Ok(response) ==> response@.len() == 64,
        outcome matches Err(e) ==> is_link_error(e, model),
{
    let device = match open_model(model) {
        Ok(device) => device,
        Err(e) => {
            return Err(e);
        },
    };
    device.send_feature_report(&packet)
}

/// Reads a raw packet of exactly sixty-four bytes; any other length is
/// refused with `UnsupportedPacketSize`, which holds that length.
pub fn packet_from_raw(bytes: &[u8]) -> (packet: Result<[u8; 64], AkkoError>)
    ensures
        bytes@.len() == PACKET_SIZE ==> (packet matches Ok(array) && array@ == bytes@),
        bytes@.len() != PACKET_SIZE ==> packet == Err::<[u8; 64], AkkoError>(
            AkkoError::UnsupportedPacketSize(bytes@.len() as usize),
        ),
{
    if bytes.len() != PACKET_SIZE {
        return Err(AkkoError::UnsupportedPacketSize(bytes.len()));
    }
    let mut array = [0u8; 64];
    let mut i: usize = 0;
    while i < PACKET_SIZE
        invariant
            i <= PACKET_SIZE,
            bytes@.len() == PACKET_SIZE,
            array@.len() == PACKET_SIZE,
            forall|j: int| 0 <= j < i ==> array@[j] == bytes@[j],
        decreases PACKET_SIZE - i,
    {
        array[i] = bytes[i];
        i += 1;
    }
    assert(array@ =~= bytes@);
    Ok(array)
}

/// Sends a raw packet given as a byte string and returns the 64-byte reply.
/// A packet that is not exactly sixty-four bytes long is refused before the
/// keyboard is looked for.
pub fn akko_send_raw(model: AkkoModel, packet: &[u8]) -> (outcome: Result<Vec<u8>, AkkoError>)
    ensures
        packet@.len() != PACKET_SIZE ==> outcome == Err::<Vec<u8>, AkkoError>(
            AkkoError::UnsupportedPacketSize(packet@.len() as usize),
        ),
        packet@.len() == PACKET_SIZE ==> {
            &&& outcome matches Ok(response) ==> response@.len() == 64
            &&& outcome matches Err(e) ==> is_link_error(e, model)
        },
{
    match packet_from_raw(packet) {
        Ok(array) => akko_send_packet(model, array),
        Err(e) => Err(e),
    }
}

/// Probes one opcode after a handshake. A failed exchange of the probe
/// itself is part of the result, not an error.
pub fn akko_probe_opcode(model: AkkoModel, opcode: u8) -> (outcome: Result<ProbeResult, AkkoError>)
    ensures
        outcome matches Ok(result) ==> result.is_probe_of(opcode),
        outcome matches Err(e) ==> is_link_error(e, model),
{
    let device = match open_session(model) {
        Ok(device) => device,
        Err(e) => {
            return Err(e);
        },
    };
    probe_opcode(&device, opcode)
}

/// Probes every opcode from `start` to `end`, both included, after a
/// handshake: one result for each opcode, in ascending order.
pub fn akko_probe_range(model: AkkoModel, start: u8, end: u8) -> (outcome: Result<
    Vec<ProbeResult>,
    AkkoError,
>)
    ensures
        outcome matches Ok(results) ==> is_range_probe(results@, start, end),
        outcome matches Err(e) ==> is_link_error(e, model),
{
    let device = match open_session(model) {
        Ok(device) => device,
        Err(e) => {
            return Err(e);
        },
    };
    probe_opcode_range(&device, start, end)
}

/// Runs all known commands, the handshake first, and collects the results
/// of those whose exchange succeeded.
pub fn akko_run_all(model: AkkoModel) -> (outcome: Result<Vec<CommandResult>, AkkoError>)
    ensures
        outcome matches Ok(results) ==> is_run_of(results@, all_commands()) && results@.len() <= 10,
        outcome matches Err(e) ==> is_link_error(e, model),
{
    let device = match open_model(model) {
        Ok(device) => device,
        Err(e) => {
            return Err(e);
        },
    };
    run_all_commands(&device)
}

/// Asks for the profile count and the active profile.
pub fn akko_get_profile_count(model: AkkoModel) -> (outcome: Result<CommandResult, AkkoError>)
    ensures
        is_command_outcome(outcome, model, AkkoOpcode::GetProfileCount),
{
    let device = match open_session(model) {
        Ok(device) => device,
        Err(e) => {
            return Err(e);
        },
    };
    cmd_get_profile_count(&device)
}

/// Asks for the RGB settings.
pub fn akko_get_rgb_settings(model: AkkoModel) -> (outcome: Result<CommandResult, AkkoError>)
    ensures
        is_command_outcome(outcome, model, AkkoOpcode::GetRgbSettings),
{
    let device = match open_session(model) {
        Ok(device) => device,
        Err(e) => {
            return Err(e);
        },
    };
    cmd_get_rgb_settings(&device)
}

/// Asks for the RGB mode, which holds the brightness.
pub fn akko_get_rgb_mode(model: AkkoModel) -> (outcome: Result<CommandResult, AkkoError>)
    ensures
        is_command_outcome(outcome, model, AkkoOpcode::GetRgbMode),
{
    let device = match open_session(model) {
        Ok(device) => device,
        Err(e) => {
            return Err(e);
        },
    };
    cmd_get_rgb_mode(&device)
}

/// Asks for the performance settings (debounce).
pub fn akko_get_performance(model: AkkoModel) -> (outcome: Result<CommandResult, AkkoError>)
    ensures
        is_command_outcome(outcome, model, AkkoOpcode::GetPerformance),
{
    let device = match open_session(model) {
        Ok(device) => device,
        Err(e) => {
            return Err(e);
        },
    };
    cmd_get_performance(&device)
}

/// Sets brightness, speed, direction and colour, in Dazzle mode.
pub fn akko_set_rgb_settings(
    model: AkkoModel,
    brightness: u8,
    speed: u8,
    direction: u8,
    color: (u8, u8, u8),
) -> (outcome: Result<CommandResult, AkkoError>)
    ensures
        is_command_outcome(outcome, model, AkkoOpcode::SetRgbSettings),
{
    let device = match open_session(model) {
        Ok(device) => device,
        Err(e) => {
            return Err(e);
        },
    };
    cmd_set_rgb_settings(&device, brightness, speed, direction, color)
}

/// Sets brightness, speed, direction and colour in the given mode (0x07 is
/// Dazzle, 0x08 is Static Color).
pub fn akko_set_rgb_settings_with_mode(
    model: AkkoModel,
    brightness: u8,
    speed: u8,
    direction: u8,
    color: (u8, u8, u8),
    mode: u8,
) -> (outcome: Result<CommandResult, AkkoError>)
    ensures
        is_command_outcome(outcome, model, AkkoOpcode::SetRgbSettings),
{
    let device = match open_session(model) {
        Ok(device) => device,
        Err(e) => {
            return Err(e);
        },
    };
    cmd_set_rgb_settings_with_mode(&device, brightness, speed, direction, color, mode)
}

} // verus!
