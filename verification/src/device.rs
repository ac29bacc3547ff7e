//! The arm's logical channels and the identifiers under which the device
//! exposes them.

use vstd::prelude::*;
use uuid::Uuid;

verus! {

/// Service that groups every characteristic of the arm.
pub const SERVICE_UUID: [u8; 16] = [
    0x00, 0x81, 0x19, 0x14, 0x45, 0x11, 0x19, 0x19, 0x19, 0x19, 0x45, 0x11, 0xD4, 0xE6, 0xC6, 0xA1,
];

/// Joystick X axis.
pub const X_CHARACTERISTIC_UUID: [u8; 16] = [
    0x00, 0x81, 0x19, 0x14, 0x45, 0x11, 0x19, 0x19, 0x19, 0x19, 0x45, 0x11, 0x6B, 0xB3, 0x91, 0x05,
];

/// Joystick Y axis.
pub const Y_CHARACTERISTIC_UUID: [u8; 16] = [
    0x00, 0x81, 0x19, 0x14, 0x45, 0x11, 0x19, 0x19, 0x19, 0x19, 0x45, 0x11, 0x5D, 0xD1, 0x09, 0xD3,
];

/// Joystick rotation axis.
pub const R_CHARACTERISTIC_UUID: [u8; 16] = [
    0x00, 0x81, 0x19, 0x14, 0x45, 0x11, 0x19, 0x19, 0x19, 0x19, 0x45, 0x11, 0x4E, 0xC5, 0x2E, 0xF4,
];

/// Readiness flag of the controller.
pub const CONTROLLER_USABLE_CHARACTERISTIC_UUID: [u8; 16] = [
    0x00, 0x81, 0x19, 0x14, 0x45, 0x11, 0x19, 0x19, 0x19, 0x19, 0x45, 0x11, 0xB3, 0xC2, 0xA1, 0xE7,
];

/// Lifting-arm actuator.
pub const LIFTING_ARM_CHARACTERISTIC_UUID: [u8; 16] = [
    0x00, 0x81, 0x19, 0x14, 0x45, 0x11, 0x19, 0x19, 0x19, 0x19, 0x45, 0x11, 0xE3, 0xD7, 0xA9, 0xA7,
];

/// Claw open/close switch.
pub const MCLAW_SWITCH_CHARACTERISTIC_UUID: [u8; 16] = [
    0x00, 0x81, 0x19, 0x14, 0x45, 0x11, 0x19, 0x19, 0x19, 0x19, 0x45, 0x11, 0xC4, 0xD4, 0xD3, 0xE2,
];

/// Address of the arm that discovery looks for.
pub const DEVICE_ADDRESS: &'static str = "3c:0f:02:d1:d3:8a";

/// Longest time a scan may run, in milliseconds.
pub const MAXIMUM_DISCOVER_PERIOD: u64 = 10000;

/// `uuid::Uuid`, carried as a value that is not looked into.
#[verifier::external_type_specification]
#[verifier::external_body]
pub struct ExUuid(uuid::Uuid);

/// The sixteen bytes that a UUID holds, in the order in which its text shows
/// them.
pub uninterp spec fn uuid_bytes(id: Uuid) -> Seq<u8>;

/// Calls `Uuid::from_bytes`. Taken on trust: the identifier holds the sixteen
/// bytes as they are given, in the same order.
#[verifier::external_body]
fn uuid_from_bytes(bytes: [u8; 16]) -> (id: Uuid)
    ensures
        uuid_bytes(id) == bytes@,
{
    Uuid::from_bytes(bytes)
}

/// One joystick axis.
#[derive(Clone, Copy, Debug, PartialEq, Eq, Structural)]
pub enum Axis {
    X,
    Y,
    R,
}

/// One logical function of the arm.
#[derive(Clone, Copy, Debug, PartialEq, Eq, Structural)]
pub enum Channel {
    AxisX,
    AxisY,
    AxisR,
    ControllerUsable,
    LiftingArm,
    ClawSwitch,
}

/// Where a channel lives on the device: its service and its characteristic.
#[derive(Clone, Copy, Debug, PartialEq, Eq)]
pub struct DeviceEndpoint {
    pub service_id: Uuid,
    pub characteristic_id: Uuid,
}

/// Mathematical value of a [`DeviceEndpoint`]: the bytes of its two
/// identifiers.
pub struct EndpointModel {
    pub service_id: Seq<u8>,
    pub characteristic_id: Seq<u8>,
}

impl View for DeviceEndpoint {
    type V = EndpointModel;

    open spec fn view(&self) -> EndpointModel {
        EndpointModel {
            service_id: uuid_bytes(self.service_id),
            characteristic_id: uuid_bytes(self.characteristic_id),
        }
    }
}

impl Axis {
    /// The channel that carries this axis.
    pub open spec fn channel_spec(self) -> Channel {
        match self {
            Axis::X => Channel::AxisX,
            Axis::Y => Channel::AxisY,
            Axis::R => Channel::AxisR,
        }
    }

    /// The channel that carries this axis.
    pub fn channel(self) -> (channel: Channel)
        ensures
            channel == self.channel_spec(),
    {
        match self {
            Axis::X => Channel::AxisX,
            Axis::Y => Channel::AxisY,
            Axis::R => Channel::AxisR,
        }
    }
}

impl Channel {
    /// The bytes of the characteristic identifier of this channel.
    pub open spec fn characteristic_bytes(self) -> Seq<u8> {
        match self {
            Channel::AxisX => X_CHARACTERISTIC_UUID@,
            Channel::AxisY => Y_CHARACTERISTIC_UUID@,
            Channel::AxisR => R_CHARACTERISTIC_UUID@,
            Channel::ControllerUsable => CONTROLLER_USABLE_CHARACTERISTIC_UUID@,
            Channel::LiftingArm => LIFTING_ARM_CHARACTERISTIC_UUID@,
            Channel::ClawSwitch => MCLAW_SWITCH_CHARACTERISTIC_UUID@,
        }
    }

    /// The endpoint of this channel: its own characteristic, in the one
    /// service of the arm.
    pub open spec fn endpoint_model(self) -> EndpointModel {
        EndpointModel { service_id: SERVICE_UUID@, characteristic_id: self.characteristic_bytes() }
    }

    /// The endpoint to which a transport call for this channel is addressed.
    pub fn endpoint(self) -> (endpoint: DeviceEndpoint)
        ensures
            endpoint@ == self.endpoint_model(),
    {
        let characteristic: [u8; 16] = match self {
            Channel::AxisX => X_CHARACTERISTIC_UUID,
            Channel::AxisY => Y_CHARACTERISTIC_UUID,
            Channel::AxisR => R_CHARACTERISTIC_UUID,
            Channel::ControllerUsable => CONTROLLER_USABLE_CHARACTERISTIC_UUID,
            Channel::LiftingArm => LIFTING_ARM_CHARACTERISTIC_UUID,
            Channel::ClawSwitch => MCLAW_SWITCH_CHARACTERISTIC_UUID,
        };
        DeviceEndpoint {
            service_id: uuid_from_bytes(SERVICE_UUID),
            characteristic_id: uuid_from_bytes(characteristic),
        }
    }
}

/// Every endpoint serves exactly one channel: two channels with the same
/// endpoint are the same channel.
pub proof fn lemma_endpoint_serves_one_channel(a: Channel, b: Channel)
    requires
        a.endpoint_model() == b.endpoint_model(),
    ensures
        a == b,
{
    assert(a.characteristic_bytes()[12] == b.characteristic_bytes()[12]);
}

} // verus!
