//! What a transport call can report, and the errors and replies of commands.

use vstd::prelude::*;
use crate::codec::ArmCommand;
use crate::device::Channel;

verus! {

/// Why a transport call did not succeed.
#[derive(Clone, Debug, PartialEq, Eq)]
pub enum Fault {
    /// The platform handler was not ready; no call was made.
    Unavailable { detail: String },
    /// The call was made and the transport reported an error.
    Rejected { detail: String },
}

/// Mathematical value of a [`Fault`].
pub enum FaultModel {
    Unavailable { detail: Seq<char> },
    Rejected { detail: Seq<char> },
}

impl View for Fault {
    type V = FaultModel;

    open spec fn view(&self) -> FaultModel {
        match *self {
            Fault::Unavailable { detail } => FaultModel::Unavailable { detail: detail@ },
            Fault::Rejected { detail } => FaultModel::Rejected { detail: detail@ },
        }
    }
}

/// Why a command failed.
#[derive(Clone, Debug, PartialEq, Eq)]
pub enum ControlError {
    /// The platform handler was not ready.
    TransportUnavailable { detail: String },
    /// The scan could not be started.
    ScanFailed { detail: String },
    /// The scan ended without a device of the wanted address.
    DeviceNotFound { target: String },
    /// The transport could not connect to the device.
    ConnectionFailed { address: String, detail: String },
    /// The transport could not disconnect from the device.
    DisconnectFailed { detail: String },
    /// The transport could not stop the scan.
    StopScanFailed { detail: String },
    /// The device does not accept joystick frames at present.
    ControllerNotUsable,
    /// The arm command is neither `grab` nor `release`.
    UnsupportedCommand { command: String },
    /// A write to the channel failed.
    WriteFailed { channel: Channel, detail: String },
    /// A read from the channel failed.
    ReadFailed { channel: Channel, detail: String },
    /// The platform could not say whether BLE may be used.
    PermissionCheckFailed { detail: String },
}

/// Mathematical value of a [`ControlError`].
pub enum ErrorModel {
    TransportUnavailable { detail: Seq<char> },
    ScanFailed { detail: Seq<char> },
    DeviceNotFound { target: Seq<char> },
    ConnectionFailed { address: Seq<char>, detail: Seq<char> },
    DisconnectFailed { detail: Seq<char> },
    StopScanFailed { detail: Seq<char> },
    ControllerNotUsable,
    UnsupportedCommand { command: Seq<char> },
    WriteFailed { channel: Channel, detail: Seq<char> },
    ReadFailed { channel: Channel, detail: Seq<char> },
    PermissionCheckFailed { detail: Seq<char> },
}

impl View for ControlError {
    type V = ErrorModel;

    open spec fn view(&self) -> ErrorModel {
        match *self {
            ControlError::TransportUnavailable { detail } => ErrorModel::TransportUnavailable {
                detail: detail@,
            },
            ControlError::ScanFailed { detail } => ErrorModel::ScanFailed { detail: detail@ },
            ControlError::DeviceNotFound { target } => ErrorModel::DeviceNotFound {
                target: target@,
            },
            ControlError::ConnectionFailed { address, detail } => ErrorModel::ConnectionFailed {
                address: address@,
                detail: detail@,
            },
            ControlError::DisconnectFailed { detail } => ErrorModel::DisconnectFailed {
                detail: detail@,
            },
            ControlError::StopScanFailed { detail } => ErrorModel::StopScanFailed {
                detail: detail@,
            },
            ControlError::ControllerNotUsable => ErrorModel::ControllerNotUsable,
            ControlError::UnsupportedCommand { command } => ErrorModel::UnsupportedCommand {
                command: command@,
            },
            ControlError::WriteFailed { channel, detail } => ErrorModel::WriteFailed {
                channel,
                detail: detail@,
            },
            ControlError::ReadFailed { channel, detail } => ErrorModel::ReadFailed {
                channel,
                detail: detail@,
            },
            ControlError::PermissionCheckFailed { detail } => ErrorModel::PermissionCheckFailed {
                detail: detail@,
            },
        }
    }
}

/// What a command that succeeded has done.
#[derive(Clone, Debug, PartialEq, Eq)]
pub enum Reply {
    /// The three axes were written.
    JoystickSent { x: u8, y: u8, r: u8 },
    /// The lifting-arm value was written.
    LiftingArmSent { value: u8 },
    /// The claw switch was written.
    ArmCommandSent { command: ArmCommand },
    /// The device reported whether it accepts joystick frames.
    ControllerStatus { usable: bool },
    /// The scan was stopped.
    ScanStopped,
    /// The device of this address is connected.
    Connected { address: String },
    /// The device is disconnected and the session is reset.
    Disconnected,
    /// The arm was found and connected.
    Preloaded,
    /// Whether BLE may be used.
    Permissions { granted: bool },
}

/// Mathematical value of a [`Reply`].
pub enum ReplyModel {
    JoystickSent { x: u8, y: u8, r: u8 },
    LiftingArmSent { value: u8 },
    ArmCommandSent { command: ArmCommand },
    ControllerStatus { usable: bool },
    ScanStopped,
    Connected { address: Seq<char> },
    Disconnected,
    Preloaded,
    Permissions { granted: bool },
}

impl View for Reply {
    type V = ReplyModel;

    open spec fn view(&self) -> ReplyModel {
        match *self {
            Reply::JoystickSent { x, y, r } => ReplyModel::JoystickSent { x, y, r },
            Reply::LiftingArmSent { value } => ReplyModel::LiftingArmSent { value },
            Reply::ArmCommandSent { command } => ReplyModel::ArmCommandSent { command },
            Reply::ControllerStatus { usable } => ReplyModel::ControllerStatus { usable },
            Reply::ScanStopped => ReplyModel::ScanStopped,
            Reply::Connected { address } => ReplyModel::Connected { address: address@ },
            Reply::Disconnected => ReplyModel::Disconnected,
            Reply::Preloaded => ReplyModel::Preloaded,
            Reply::Permissions { granted } => ReplyModel::Permissions { granted },
        }
    }
}

/// The error of a write that failed: the handler was not ready, or the
/// transport refused the write to this channel.
pub open spec fn write_error(channel: Channel, fault: FaultModel) -> ErrorModel {
    match fault {
        FaultModel::Unavailable { detail } => ErrorModel::TransportUnavailable { detail },
        FaultModel::Rejected { detail } => ErrorModel::WriteFailed { channel, detail },
    }
}

/// The error of a read that failed.
pub open spec fn read_error(channel: Channel, fault: FaultModel) -> ErrorModel {
    match fault {
        FaultModel::Unavailable { detail } => ErrorModel::TransportUnavailable { detail },
        FaultModel::Rejected { detail } => ErrorModel::ReadFailed { channel, detail },
    }
}

/// The error of a scan that could not be started.
pub open spec fn scan_error(fault: FaultModel) -> ErrorModel {
    match fault {
        FaultModel::Unavailable { detail } => ErrorModel::TransportUnavailable { detail },
        FaultModel::Rejected { detail } => ErrorModel::ScanFailed { detail },
    }
}

/// The error of a scan that could not be stopped.
pub open spec fn stop_scan_error(fault: FaultModel) -> ErrorModel {
    match fault {
        FaultModel::Unavailable { detail } => ErrorModel::TransportUnavailable { detail },
        FaultModel::Rejected { detail } => ErrorModel::StopScanFailed { detail },
    }
}

/// The error of a connection to `address` that failed.
pub open spec fn connect_error(address: Seq<char>, fault: FaultModel) -> ErrorModel {
    match fault {
        FaultModel::Unavailable { detail } => ErrorModel::TransportUnavailable { detail },
        FaultModel::Rejected { detail } => ErrorModel::ConnectionFailed { address, detail },
    }
}

/// The error of a disconnect that failed.
pub open spec fn disconnect_error(fault: FaultModel) -> ErrorModel {
    match fault {
        FaultModel::Unavailable { detail } => ErrorModel::TransportUnavailable { detail },
        FaultModel::Rejected { detail } => ErrorModel::DisconnectFailed { detail },
    }
}

/// The error of a permission check that failed.
pub open spec fn permission_error(fault: FaultModel) -> ErrorModel {
    match fault {
        FaultModel::Unavailable { detail } => ErrorModel::TransportUnavailable { detail },
        FaultModel::Rejected { detail } => ErrorModel::PermissionCheckFailed { detail },
    }
}

/// The fault of a transport call that returns nothing, if it failed.
pub open spec fn fault_of(outcome: Result<(), Fault>) -> Option<FaultModel> {
    match outcome {
        Ok(_) => None,
        Err(fault) => Some(fault@),
    }
}

/// Mathematical value of a command's result.
pub open spec fn result_model(result: Result<Reply, ControlError>) -> Result<
    ReplyModel,
    ErrorModel,
> {
    match result {
        Ok(reply) => Ok(reply@),
        Err(error) => Err(error@),
    }
}

impl ControlError {
    /// The error of a write to `channel` that failed with `fault`.
    pub fn from_write(channel: Channel, fault: Fault) -> (error: ControlError)
        ensures
            error@ == write_error(channel, fault@),
    {
        match fault {
            Fault::Unavailable { detail } => ControlError::TransportUnavailable { detail },
            Fault::Rejected { detail } => ControlError::WriteFailed { channel, detail },
        }
    }

    /// The error of a read from `channel` that failed with `fault`.
    pub fn from_read(channel: Channel, fault: Fault) -> (error: ControlError)
        ensures
            error@ == read_error(channel, fault@),
    {
        match fault {
            Fault::Unavailable { detail } => ControlError::TransportUnavailable { detail },
            Fault::Rejected { detail } => ControlError::ReadFailed { channel, detail },
        }
    }

    /// The error of a scan that could not be started.
    pub fn from_scan(fault: Fault) -> (error: ControlError)
        ensures
            error@ == scan_error(fault@),
    {
        match fault {
            Fault::Unavailable { detail } => ControlError::TransportUnavailable { detail },
            Fault::Rejected { detail } => ControlError::ScanFailed { detail },
        }
    }

    /// The error of a scan that could not be stopped.
    pub fn from_stop_scan(fault: Fault) -> (error: ControlError)
        ensures
            error@ == stop_scan_error(fault@),
    {
        match fault {
            Fault::Unavailable { detail } => ControlError::TransportUnavailable { detail },
            Fault::Rejected { detail } => ControlError::StopScanFailed { detail },
        }
    }

    /// The error of a connection to `address` that failed with `fault`.
    pub fn from_connect(address: String, fault: Fault) -> (error: ControlError)
        ensures
            error@ == connect_error(address@, fault@),
    {
        match fault {
            Fault::Unavailable { detail } => ControlError::TransportUnavailable { detail },
            Fault::Rejected { detail } => ControlError::ConnectionFailed { address, detail },
        }
    }

    /// The error of a disconnect that failed with `fault`.
    pub fn from_disconnect(fault: Fault) -> (error: ControlError)
        ensures
            error@ == disconnect_error(fault@),
    {
        match fault {
            Fault::Unavailable { detail } => ControlError::TransportUnavailable { detail },
            Fault::Rejected { detail } => ControlError::DisconnectFailed { detail },
        }
    }

    /// The error of a permission check that failed with `fault`.
    pub fn from_permissions(fault: Fault) -> (error: ControlError)
        ensures
            error@ == permission_error(fault@),
    {
        match fault {
            Fault::Unavailable { detail } => ControlError::TransportUnavailable { detail },
            Fault::Rejected { detail } => ControlError::PermissionCheckFailed { detail },
        }
    }
}

} // verus!
