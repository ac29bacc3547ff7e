//! Wire encoding of the arm's channels.
//!
//! Every value written to the device is one byte; the device takes it either
//! alone or as a two-byte little-endian word. The controller's status comes
//! back as one or two bytes, of which only the last one counts.

use vstd::prelude::*;
use crate::error::{ControlError, ErrorModel};

verus! {

/// Rest position of a joystick axis.
pub const JOYSTICK_ZERO_VALUE: u8 = 0x7F;

/// Status byte by which the device reports that it accepts joystick frames.
pub const CONTROLLER_USABLE: u8 = 0x01;

/// Status byte by which the device reports that it does not.
pub const CONTROLLER_NOT_USABLE: u8 = 0x00;

/// How many bytes a device variant takes for one value.
#[derive(Clone, Copy, Debug, PartialEq, Eq, Structural)]
pub enum PayloadWidth {
    /// The value alone.
    OneByte,
    /// The value as a little-endian 16-bit word.
    TwoBytes,
}

/// The joystick and actuator values of the arm as 16-bit words, with the
/// controller's readiness.
#[derive(Clone, Copy, Debug, PartialEq, Eq, Structural)]
pub struct ArmData {
    pub x: u16,
    pub y: u16,
    pub r: u16,
    pub controller_usable: bool,
}

/// The three axes of one joystick sample; `0x7F` is the rest position.
#[derive(Clone, Copy, Debug, PartialEq, Eq, Structural)]
pub struct JoystickFrame {
    pub x: u8,
    pub y: u8,
    pub r: u8,
}

/// What the claw can be told to do.
#[derive(Clone, Copy, Debug, PartialEq, Eq, Structural)]
pub enum ArmCommand {
    Grab,
    Release,
}

/// The payload that carries `value` at the given width.
pub open spec fn value_payload(value: u8, width: PayloadWidth) -> Seq<u8> {
    match width {
        PayloadWidth::OneByte => seq![value],
        PayloadWidth::TwoBytes => seq![value, 0u8],
    }
}

/// The two-byte little-endian payload that carries `value`.
pub open spec fn axis_payload(value: u8) -> Seq<u8> {
    value_payload(value, PayloadWidth::TwoBytes)
}

/// The value that a payload carries: its first byte, where the payload is one
/// byte long, or two with a zero high byte.
pub open spec fn payload_value(payload: Seq<u8>) -> Option<u8> {
    if payload.len() == 1 || (payload.len() == 2 && payload[1] == 0) {
        Some(payload[0])
    } else {
        None
    }
}

/// Whether a status response says that the controller is usable: its last
/// byte is `0x01`. An empty response, `0x00` and every other byte say no.
pub open spec fn status_usable(buffer: Seq<u8>) -> bool {
    buffer.len() > 0 && buffer.last() == CONTROLLER_USABLE
}

/// The byte that the claw switch takes for a command.
pub open spec fn arm_switch_byte(command: ArmCommand) -> u8 {
    match command {
        ArmCommand::Grab => 0x01,
        ArmCommand::Release => 0x00,
    }
}

/// The command that a word names: `grab` or `release`, and nothing else.
pub open spec fn arm_command_named(word: Seq<char>) -> Option<ArmCommand> {
    if word == "grab"@ {
        Some(ArmCommand::Grab)
    } else if word == "release"@ {
        Some(ArmCommand::Release)
    } else {
        None
    }
}

/// Encodes a value at the width that the device variant takes.
pub fn encode_value(value: u8, width: PayloadWidth) -> (payload: Vec<u8>)
    ensures
        payload@ == value_payload(value, width),
{
    let mut payload: Vec<u8> = Vec::new();
    payload.push(value);
    match width {
        PayloadWidth::OneByte => {},
        PayloadWidth::TwoBytes => {
            payload.push(0u8);
        },
    }
    payload
}

/// Encodes one axis or actuator value as the two-byte pair `[value, 0x00]`.
pub fn encode_axis(value: u8) -> (payload: Vec<u8>)
    ensures
        payload@ == axis_payload(value),
        payload@ == seq![value, 0u8],
{
    encode_value(value, PayloadWidth::TwoBytes)
}

/// Reads back the value that a payload carries, at either width.
pub fn decode_axis(payload: &[u8]) -> (value: Option<u8>)
    ensures
        value == payload_value(payload@),
{
    if payload.len() == 1 || (payload.len() == 2 && payload[1] == 0) {
        Some(payload[0])
    } else {
        None
    }
}

/// Decodes the response of the controller-usable characteristic. Only the last
/// byte counts, so that a padding byte in front is tolerated.
pub fn decode_controller_usable(buffer: &[u8]) -> (usable: bool)
    ensures
        usable == status_usable(buffer@),
        usable <==> buffer@.len() > 0 && buffer@[buffer@.len() - 1] == 0x01,
{
    let n: usize = buffer.len();
    n > 0 && buffer[n - 1] == CONTROLLER_USABLE
}

/// Encodes a claw command: grab is `0x01`, release is `0x00`.
pub fn encode_arm_switch(command: ArmCommand) -> (byte: u8)
    ensures
        byte == arm_switch_byte(command),
{
    match command {
        ArmCommand::Grab => 0x01,
        ArmCommand::Release => 0x00,
    }
}

/// Reads a claw command from the word that names it. Every word but `grab` and
/// `release` is refused as unsupported, and the error carries the word.
pub fn parse_arm_command(word: &str) -> (parsed: Result<ArmCommand, ControlError>)
    ensures
        match arm_command_named(word@) {
            Some(command) => parsed == Ok::<ArmCommand, ControlError>(command),
            None => parsed is Err && parsed->Err_0@ == (ErrorModel::UnsupportedCommand {
                command: word@,
            }),
        },
{
    let owned: String = word.to_owned();
    if owned == "grab".to_owned() {
        Ok(ArmCommand::Grab)
    } else if owned == "release".to_owned() {
        Ok(ArmCommand::Release)
    } else {
        Err(ControlError::UnsupportedCommand { command: owned })
    }
}

/// Encoding a value and reading the payload back gives the value again, at
/// either width; at two bytes the payload is the value followed by `0x00`, so
/// that stripping the second byte leaves the value alone.
pub proof fn lemma_axis_round_trip(value: u8, width: PayloadWidth)
    ensures
        payload_value(value_payload(value, width)) == Some(value),
        payload_value(axis_payload(value)) == Some(value),
        axis_payload(value).len() == 2,
        axis_payload(value)[1] == 0x00,
        axis_payload(value).drop_last() == seq![value],
{
    assert(axis_payload(value).drop_last() =~= seq![value]);
}

/// The last byte decides the controller's status, whatever stands before it.
pub proof fn lemma_status_last_byte_wins(prefix: Seq<u8>, last: u8)
    ensures
        status_usable(prefix.push(last)) == (last == 0x01),
{
}

} // verus!
