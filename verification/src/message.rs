//! The texts in which replies and errors are shown to the user.

use vstd::prelude::*;
use vstd::string::*;
use crate::codec::{arm_switch_byte, encode_arm_switch, ArmCommand};
use crate::device::Channel;
use crate::error::{ControlError, ErrorModel, Reply, ReplyModel};
use crate::text::{bool_str, bool_text, decimal_text, hex_text, push_decimal, push_hex, quote, quoted};

verus! {

/// The word that names a claw command.
pub open spec fn command_word(command: ArmCommand) -> Seq<char> {
    match command {
        ArmCommand::Grab => "grab"@,
        ArmCommand::Release => "release"@,
    }
}

/// What a channel carries, in words.
pub open spec fn channel_label(channel: Channel) -> Seq<char> {
    match channel {
        Channel::AxisX => "X value"@,
        Channel::AxisY => "Y value"@,
        Channel::AxisR => "R value"@,
        Channel::ControllerUsable => "controller status"@,
        Channel::LiftingArm => "lifting arm value"@,
        Channel::ClawSwitch => "arm command"@,
    }
}

/// The text of a reply, for the replies that are shown as text. A status, a
/// permission and the end of discovery are values and have none.
pub open spec fn reply_text(reply: ReplyModel) -> Option<Seq<char>> {
    match reply {
        ReplyModel::JoystickSent { x, y, r } => Some(
            "Joystick data sent: X="@ + decimal_text(x as nat) + ", Y="@ + decimal_text(y as nat)
                + ", R="@ + decimal_text(r as nat),
        ),
        ReplyModel::LiftingArmSent { value } => Some(
            "Lifting arm value sent: 0x"@ + hex_text(value) + "00"@,
        ),
        ReplyModel::ArmCommandSent { command } => Some(
            "Arm command '"@ + command_word(command) + "' sent with value 0x"@ + hex_text(
                arm_switch_byte(command),
            ) + "00"@,
        ),
        ReplyModel::ControllerStatus { usable } => None,
        ReplyModel::ScanStopped => Some("Scan terminated."@),
        ReplyModel::Connected { address } => Some("Connected device: "@ + address),
        ReplyModel::Disconnected => Some("Disconnected device and reset state"@),
        ReplyModel::Preloaded => None,
        ReplyModel::Permissions { granted } => None,
    }
}

/// The text of a failed connection, given the quoted form of the address.
pub open spec fn connection_failed_text(quoted_address: Seq<char>, detail: Seq<char>) -> Seq<char> {
    "Connect "@ + quoted_address + " error occurred: "@ + detail
}

/// The text of an error.
pub open spec fn error_text(error: ErrorModel) -> Seq<char> {
    match error {
        ErrorModel::TransportUnavailable { detail } => "Get handle failed: "@ + detail,
        ErrorModel::ScanFailed { detail } => "Scan failed: "@ + detail,
        ErrorModel::DeviceNotFound { target } => "Target device "@ + target
            + " not found within scan period"@,
        ErrorModel::ConnectionFailed { address, detail } => connection_failed_text(
            quoted(address),
            detail,
        ),
        ErrorModel::DisconnectFailed { detail } => "Disconnect failed: "@ + detail,
        ErrorModel::StopScanFailed { detail } => "Stop scan failed: "@ + detail,
        ErrorModel::ControllerNotUsable => "Controller is not usable, cannot send joystick data"@,
        ErrorModel::UnsupportedCommand { command } => "Unsupported arm command: "@ + command,
        ErrorModel::WriteFailed { channel, detail } => "Failed to write "@ + channel_label(channel)
            + ": "@ + detail,
        ErrorModel::ReadFailed { channel, detail } => "Failed to read "@ + channel_label(channel)
            + ": "@ + detail,
        ErrorModel::PermissionCheckFailed { detail } => "Permission check failed: "@ + detail,
    }
}

/// The text by which a change of the recorded address is confirmed, given the
/// quoted form of the address: the empty address clears the record.
pub open spec fn address_text(address: Seq<char>, quoted_address: Seq<char>) -> Seq<char> {
    if address.len() == 0 {
        "Connected device address cleared."@
    } else {
        "Connected device address Some("@ + quoted_address + ") set."@
    }
}

/// The text by which a change of the controller's readiness is confirmed.
pub open spec fn usable_text(usable: bool) -> Seq<char> {
    "Controller usable state set to: "@ + bool_text(usable)
}

/// The word that names a claw command.
pub fn command_name(command: ArmCommand) -> (word: &'static str)
    ensures
        word@ == command_word(command),
{
    match command {
        ArmCommand::Grab => "grab",
        ArmCommand::Release => "release",
    }
}

/// What a channel carries, in words.
pub fn channel_name(channel: Channel) -> (label: &'static str)
    ensures
        label@ == channel_label(channel),
{
    match channel {
        Channel::AxisX => "X value",
        Channel::AxisY => "Y value",
        Channel::AxisR => "R value",
        Channel::ControllerUsable => "controller status",
        Channel::LiftingArm => "lifting arm value",
        Channel::ClawSwitch => "arm command",
    }
}

/// A text made of a fixed beginning and a text that follows it.
pub fn prefixed(prefix: &str, rest: &str) -> (text: String)
    ensures
        text@ == prefix@ + rest@,
{
    let mut text: String = String::from_str(prefix);
    text.append(rest);
    text
}

/// The text of a failed connection, given the quoted form of the address.
pub fn connection_failed_message(quoted_address: &str, detail: &str) -> (text: String)
    ensures
        text@ == connection_failed_text(quoted_address@, detail@),
{
    let mut text: String = String::from_str("Connect ");
    text.append(quoted_address);
    text.append(" error occurred: ");
    text.append(detail);
    text
}

/// The text by which a change of the recorded address is confirmed, given the
/// quoted form of the address.
pub fn address_message(address: &str, quoted_address: &str) -> (text: String)
    ensures
        text@ == address_text(address@, quoted_address@),
{
    if address.is_empty() {
        String::from_str("Connected device address cleared.")
    } else {
        let mut text: String = String::from_str("Connected device address Some(");
        text.append(quoted_address);
        text.append(") set.");
        text
    }
}

/// The text by which a change of the controller's readiness is confirmed.
pub fn usable_message(usable: bool) -> (text: String)
    ensures
        text@ == usable_text(usable),
{
    prefixed("Controller usable state set to: ", bool_str(usable))
}

impl Reply {
    /// The text in which the reply is shown, where it is shown as text.
    pub fn message(&self) -> (text: Option<String>)
        ensures
            match reply_text(self@) {
                Some(expected) => text is Some && text->Some_0@ == expected,
                None => text is None,
            },
    {
        match self {
            Reply::JoystickSent { x, y, r } => {
                let mut text: String = String::from_str("Joystick data sent: X=");
                push_decimal(&mut text, *x);
                text.append(", Y=");
                push_decimal(&mut text, *y);
                text.append(", R=");
                push_decimal(&mut text, *r);
                Some(text)
            },
            Reply::LiftingArmSent { value } => {
                let mut text: String = String::from_str("Lifting arm value sent: 0x");
                push_hex(&mut text, *value);
                text.append("00");
                Some(text)
            },
            Reply::ArmCommandSent { command } => {
                let mut text: String = String::from_str("Arm command '");
                text.append(command_name(*command));
                text.append("' sent with value 0x");
                push_hex(&mut text, encode_arm_switch(*command));
                text.append("00");
                Some(text)
            },
            Reply::ControllerStatus { usable } => None,
            Reply::ScanStopped => Some(String::from_str("Scan terminated.")),
            Reply::Connected { address } => Some(prefixed("Connected device: ", address.as_str())),
            Reply::Disconnected => Some(String::from_str("Disconnected device and reset state")),
            Reply::Preloaded => None,
            Reply::Permissions { granted } => None,
        }
    }
}

impl ControlError {
    /// The text in which the error is shown.
    pub fn message(&self) -> (text: String)
        ensures
            text@ == error_text(self@),
    {
        match self {
            ControlError::TransportUnavailable { detail } => prefixed(
                "Get handle failed: ",
                detail.as_str(),
            ),
            ControlError::ScanFailed { detail } => prefixed("Scan failed: ", detail.as_str()),
            ControlError::DeviceNotFound { target } => {
                let mut text: String = String::from_str("Target device ");
                text.append(target.as_str());
                text.append(" not found within scan period");
                text
            },
            ControlError::ConnectionFailed { address, detail } => {
                let quoted_address: String = quote(address.as_str());
                connection_failed_message(quoted_address.as_str(), detail.as_str())
            },
            ControlError::DisconnectFailed { detail } => prefixed(
                "Disconnect failed: ",
                detail.as_str(),
            ),
            ControlError::StopScanFailed { detail } => prefixed(
                "Stop scan failed: ",
                detail.as_str(),
            ),
            ControlError::ControllerNotUsable => String::from_str(
                "Controller is not usable, cannot send joystick data",
            ),
            ControlError::UnsupportedCommand { command } => prefixed(
                "Unsupported arm command: ",
                command.as_str(),
            ),
            ControlError::WriteFailed { channel, detail } => {
                let mut text: String = String::from_str("Failed to write ");
                text.append(channel_name(*channel));
                text.append(": ");
                text.append(detail.as_str());
                text
            },
            ControlError::ReadFailed { channel, detail } => {
                let mut text: String = String::from_str("Failed to read ");
                text.append(channel_name(*channel));
                text.append(": ");
                text.append(detail.as_str());
                text
            },
            ControlError::PermissionCheckFailed { detail } => prefixed(
                "Permission check failed: ",
                detail.as_str(),
            ),
        }
    }
}

} // verus!
