//! The commands of the arm as steps between transport calls.
//!
//! A command begins with a function named after it, which returns the first
//! [`Step`]. A step either names the transport call to make next, together
//! with the stage to hand back with the call's outcome, or is `Done` and
//! holds the command's result. The functions `resume_*` take the outcome of
//! one kind of call and return the step after it.

use vstd::prelude::*;
use vstd::string::*;
use crate::codec::{
    arm_command_named, arm_switch_byte, axis_payload, decode_controller_usable, encode_arm_switch,
    encode_axis, parse_arm_command, status_usable, ArmCommand, JoystickFrame, JOYSTICK_ZERO_VALUE,
};
use crate::device::{Axis, Channel, DEVICE_ADDRESS, MAXIMUM_DISCOVER_PERIOD};
use crate::error::{
    connect_error, disconnect_error, fault_of, permission_error, read_error, result_model,
    scan_error, stop_scan_error, write_error, ControlError, ErrorModel, Fault, FaultModel, Reply,
    ReplyModel,
};
use crate::message::{address_message, address_text, usable_message, usable_text};
use crate::state::{AppState, SessionModel};
use crate::text::{address_matches, quote, quoted, same_address};

verus! {

/// A device that a scan has seen.
#[derive(Clone, Debug, PartialEq, Eq)]
pub struct DeviceDescriptor {
    pub address: String,
    pub name: String,
}

/// Mathematical value of a [`DeviceDescriptor`].
pub struct DeviceModel {
    pub address: Seq<char>,
    pub name: Seq<char>,
}

impl View for DeviceDescriptor {
    type V = DeviceModel;

    open spec fn view(&self) -> DeviceModel {
        DeviceModel { address: self.address@, name: self.name@ }
    }
}

/// What a write that is under way belongs to.
#[derive(Clone, Copy, Debug, PartialEq, Eq, Structural)]
pub enum WriteStage {
    /// One axis of a joystick frame.
    Joystick { frame: JoystickFrame, axis: Axis },
    /// The lifting-arm value.
    LiftingArm { value: u8 },
    /// The claw switch.
    ArmSwitch { command: ArmCommand },
    /// The rest position of one axis, before a disconnect.
    Neutral { axis: Axis },
}

/// What a read that is under way belongs to.
#[derive(Clone, Copy, Debug, PartialEq, Eq, Structural)]
pub enum ReadStage {
    /// A poll of the controller's status.
    Poll,
    /// The first look at the controller's status, right after discovery has
    /// connected the arm.
    AfterConnect,
}

/// What a connection attempt belongs to.
#[derive(Clone, Copy, Debug, PartialEq, Eq, Structural)]
pub enum ConnectStage {
    /// The connect command.
    Direct,
    /// Discovery, which goes on to read the controller's status.
    Discovered,
}

/// Why a scan is being stopped.
#[derive(Clone, Debug, PartialEq, Eq)]
pub enum StopStage {
    /// The stop-scan command.
    Requested,
    /// Discovery has seen the arm at this address and goes on to connect.
    Matched { address: String },
}

/// Mathematical value of a [`StopStage`].
pub enum StopStageModel {
    Requested,
    Matched { address: Seq<char> },
}

impl View for StopStage {
    type V = StopStageModel;

    open spec fn view(&self) -> StopStageModel {
        match *self {
            StopStage::Requested => StopStageModel::Requested,
            StopStage::Matched { address } => StopStageModel::Matched { address: address@ },
        }
    }
}

/// The next thing to do for a command.
#[allow(inconsistent_fields)]
#[derive(Debug, PartialEq, Eq)]
pub enum Step {
    /// Write `payload` to `channel` without response; then `resume_write`.
    Write { channel: Channel, payload: Vec<u8>, stage: WriteStage },
    /// Read `channel`; then `resume_read`.
    Read { channel: Channel, stage: ReadStage },
    /// Start a scan of at most `timeout_ms`; then `resume_scan_start`.
    StartScan { target: String, timeout_ms: u64 },
    /// Wait for the next batch of the scan; then `resume_batch`.
    AwaitBatch { target: String },
    /// Stop the scan; then `resume_stop_scan`.
    StopScan { stage: StopStage },
    /// Connect to `address`, without a disconnect handler and without
    /// reconnecting; then `resume_connect`.
    Connect { address: String, stage: ConnectStage },
    /// Disconnect; then `resume_disconnect`.
    Disconnect,
    /// Ask whether BLE may be used; then `resume_permissions`.
    CheckPermissions { request_if_missing: bool },
    /// The command has ended with this result.
    Done { result: Result<Reply, ControlError> },
}

/// Mathematical value of a [`Step`].
#[allow(inconsistent_fields)]
pub enum StepModel {
    Write { channel: Channel, payload: Seq<u8>, stage: WriteStage },
    Read { channel: Channel, stage: ReadStage },
    StartScan { target: Seq<char>, timeout_ms: u64 },
    AwaitBatch { target: Seq<char> },
    StopScan { stage: StopStageModel },
    Connect { address: Seq<char>, stage: ConnectStage },
    Disconnect,
    CheckPermissions { request_if_missing: bool },
    Done { result: Result<ReplyModel, ErrorModel> },
}

impl View for Step {
    type V = StepModel;

    open spec fn view(&self) -> StepModel {
        match *self {
            Step::Write { channel, payload, stage } => StepModel::Write {
                channel,
                payload: payload@,
                stage,
            },
            Step::Read { channel, stage } => StepModel::Read { channel, stage },
            Step::StartScan { target, timeout_ms } => StepModel::StartScan {
                target: target@,
                timeout_ms,
            },
            Step::AwaitBatch { target } => StepModel::AwaitBatch { target: target@ },
            Step::StopScan { stage } => StepModel::StopScan { stage: stage@ },
            Step::Connect { address, stage } => StepModel::Connect { address: address@, stage },
            Step::Disconnect => StepModel::Disconnect,
            Step::CheckPermissions { request_if_missing } => StepModel::CheckPermissions {
                request_if_missing,
            },
            Step::Done { result } => StepModel::Done { result: result_model(result) },
        }
    }
}

impl StepModel {
    /// A command that ended well.
    pub open spec fn done(reply: ReplyModel) -> StepModel {
        StepModel::Done { result: Ok(reply) }
    }

    /// A command that failed.
    pub open spec fn failed(error: ErrorModel) -> StepModel {
        StepModel::Done { result: Err(error) }
    }

    /// Whether the step asks the transport to write.
    pub open spec fn is_write(self) -> bool {
        self is Write
    }

    /// Whether the step asks the transport to connect.
    pub open spec fn is_connect(self) -> bool {
        self is Connect
    }
}

impl WriteStage {
    /// The channel that the write of this stage goes to.
    pub open spec fn channel(self) -> Channel {
        match self {
            WriteStage::Joystick { frame, axis } => axis.channel_spec(),
            WriteStage::LiftingArm { value } => Channel::LiftingArm,
            WriteStage::ArmSwitch { command } => Channel::ClawSwitch,
            WriteStage::Neutral { axis } => axis.channel_spec(),
        }
    }

    /// The byte that the write of this stage carries.
    pub open spec fn value(self) -> u8 {
        match self {
            WriteStage::Joystick { frame, axis } => match axis {
                Axis::X => frame.x,
                Axis::Y => frame.y,
                Axis::R => frame.r,
            },
            WriteStage::LiftingArm { value } => value,
            WriteStage::ArmSwitch { command } => arm_switch_byte(command),
            WriteStage::Neutral { axis } => JOYSTICK_ZERO_VALUE,
        }
    }

    /// The step that asks for the write of this stage: the stage's byte as a
    /// two-byte payload, to the stage's channel.
    pub open spec fn request(self) -> StepModel {
        StepModel::Write {
            channel: self.channel(),
            payload: axis_payload(self.value()),
            stage: self,
        }
    }

    /// The step that asks for the write of this stage.
    pub fn into_step(self) -> (step: Step)
        ensures
            step@ == self.request(),
    {
        let (channel, value): (Channel, u8) = match self {
            WriteStage::Joystick { frame, axis } => {
                let value: u8 = match axis {
                    Axis::X => frame.x,
                    Axis::Y => frame.y,
                    Axis::R => frame.r,
                };
                (axis.channel(), value)
            },
            WriteStage::LiftingArm { value } => (Channel::LiftingArm, value),
            WriteStage::ArmSwitch { command } => (Channel::ClawSwitch, encode_arm_switch(command)),
            WriteStage::Neutral { axis } => (axis.channel(), JOYSTICK_ZERO_VALUE),
        };
        Step::Write { channel, payload: encode_axis(value), stage: self }
    }
}

/// What follows a write of `stage`, given the fault of the write, if any.
///
/// A joystick frame goes on axis by axis, X, Y, R, and ends at the first write
/// that fails. The two actuator writes end their command either way. A write
/// of a rest position is followed by the next one, and the last one by the
/// disconnect, whether or not it failed.
pub open spec fn after_write(stage: WriteStage, fault: Option<FaultModel>) -> StepModel {
    match stage {
        WriteStage::Joystick { frame, axis } => match fault {
            Some(fault) => StepModel::failed(write_error(axis.channel_spec(), fault)),
            None => match axis {
                Axis::X => (WriteStage::Joystick { frame, axis: Axis::Y }).request(),
                Axis::Y => (WriteStage::Joystick { frame, axis: Axis::R }).request(),
                Axis::R => StepModel::done(
                    ReplyModel::JoystickSent { x: frame.x, y: frame.y, r: frame.r },
                ),
            },
        },
        WriteStage::LiftingArm { value } => match fault {
            Some(fault) => StepModel::failed(write_error(Channel::LiftingArm, fault)),
            None => StepModel::done(ReplyModel::LiftingArmSent { value }),
        },
        WriteStage::ArmSwitch { command } => match fault {
            Some(fault) => StepModel::failed(write_error(Channel::ClawSwitch, fault)),
            None => StepModel::done(ReplyModel::ArmCommandSent { command }),
        },
        WriteStage::Neutral { axis } => match axis {
            Axis::X => (WriteStage::Neutral { axis: Axis::Y }).request(),
            Axis::Y => (WriteStage::Neutral { axis: Axis::R }).request(),
            Axis::R => StepModel::Disconnect,
        },
    }
}

/// The first step of sending a joystick frame: refused where the controller
/// is not usable, else the write of the X axis.
pub open spec fn joystick_start(session: SessionModel, x: u8, y: u8, r: u8) -> StepModel {
    if session.controller_usable {
        (WriteStage::Joystick { frame: JoystickFrame { x, y, r }, axis: Axis::X }).request()
    } else {
        StepModel::failed(ErrorModel::ControllerNotUsable)
    }
}

/// The first step of an arm command: the write of its byte to the claw
/// switch, or a refusal of a word that names no command.
pub open spec fn arm_command_start(word: Seq<char>) -> StepModel {
    match arm_command_named(word) {
        Some(command) => (WriteStage::ArmSwitch { command }).request(),
        None => StepModel::failed(ErrorModel::UnsupportedCommand { command: word }),
    }
}

/// Sends a joystick frame: X, then Y, then R. Nothing is written while the
/// session says that the controller is not usable.
pub fn send_joystick_data(state: &AppState, x: u8, y: u8, r: u8) -> (step: Step)
    ensures
        step@ == joystick_start(state@, x, y, r),
        !state@.controller_usable ==> step@ == StepModel::failed(ErrorModel::ControllerNotUsable),
        !state@.controller_usable ==> !step@.is_write(),
{
    if !state.controller_usable {
        return Step::Done { result: Err(ControlError::ControllerNotUsable) };
    }
    (WriteStage::Joystick { frame: JoystickFrame { x, y, r }, axis: Axis::X }).into_step()
}

/// Sends a value to the lifting arm, whatever the controller's status.
pub fn send_lifting_arm_value(value: u8) -> (step: Step)
    ensures
        step@ == (WriteStage::LiftingArm { value }).request(),
{
    (WriteStage::LiftingArm { value }).into_step()
}

/// Sends `grab` or `release` to the claw switch. Any other word is refused
/// and nothing is written.
pub fn send_arm_command(command: &str) -> (step: Step)
    ensures
        step@ == arm_command_start(command@),
        arm_command_named(command@) is None ==> !step@.is_write(),
{
    match parse_arm_command(command) {
        Ok(parsed) => (WriteStage::ArmSwitch { command: parsed }).into_step(),
        Err(error) => Step::Done { result: Err(error) },
    }
}

/// Takes up a command after a write.
pub fn resume_write(stage: WriteStage, outcome: Result<(), Fault>) -> (step: Step)
    ensures
        step@ == after_write(stage, fault_of(outcome)),
{
    match stage {
        WriteStage::Joystick { frame, axis } => match outcome {
            Err(fault) => Step::Done { result: Err(ControlError::from_write(axis.channel(), fault)) },
            Ok(_) => match axis {
                Axis::X => (WriteStage::Joystick { frame, axis: Axis::Y }).into_step(),
                Axis::Y => (WriteStage::Joystick { frame, axis: Axis::R }).into_step(),
                Axis::R => Step::Done {
                    result: Ok(Reply::JoystickSent { x: frame.x, y: frame.y, r: frame.r }),
                },
            },
        },
        WriteStage::LiftingArm { value } => match outcome {
            Err(fault) => Step::Done {
                result: Err(ControlError::from_write(Channel::LiftingArm, fault)),
            },
            Ok(_) => Step::Done { result: Ok(Reply::LiftingArmSent { value }) },
        },
        WriteStage::ArmSwitch { command } => match outcome {
            Err(fault) => Step::Done {
                result: Err(ControlError::from_write(Channel::ClawSwitch, fault)),
            },
            Ok(_) => Step::Done { result: Ok(Reply::ArmCommandSent { command }) },
        },
        WriteStage::Neutral { axis } => match axis {
            Axis::X => (WriteStage::Neutral { axis: Axis::Y }).into_step(),
            Axis::Y => (WriteStage::Neutral { axis: Axis::R }).into_step(),
            Axis::R => Step::Disconnect,
        },
    }
}

/// What follows a read of the controller's status, and the session after it.
///
/// A response sets the session's readiness to what its last byte says. A poll
/// that fails is an error and leaves the session as it was; the first look
/// after discovery is best effort, so that discovery succeeds either way.
pub open spec fn after_read(
    session: SessionModel,
    stage: ReadStage,
    outcome: Result<Seq<u8>, FaultModel>,
) -> (SessionModel, StepModel) {
    match outcome {
        Ok(data) => (
            session.with_controller_usable(status_usable(data)),
            match stage {
                ReadStage::Poll => StepModel::done(
                    ReplyModel::ControllerStatus { usable: status_usable(data) },
                ),
                ReadStage::AfterConnect => StepModel::done(ReplyModel::Preloaded),
            },
        ),
        Err(fault) => (
            session,
            match stage {
                ReadStage::Poll => StepModel::failed(
                    read_error(Channel::ControllerUsable, fault),
                ),
                ReadStage::AfterConnect => StepModel::done(ReplyModel::Preloaded),
            },
        ),
    }
}

/// Mathematical value of the outcome of a read.
pub open spec fn read_model(outcome: Result<Vec<u8>, Fault>) -> Result<Seq<u8>, FaultModel> {
    match outcome {
        Ok(data) => Ok(data@),
        Err(fault) => Err(fault@),
    }
}

/// Reads the controller's status from the device and records it.
pub fn poll_controller_status() -> (step: Step)
    ensures
        step@ == (StepModel::Read { channel: Channel::ControllerUsable, stage: ReadStage::Poll }),
{
    Step::Read { channel: Channel::ControllerUsable, stage: ReadStage::Poll }
}

/// Takes up a command after a read of the controller's status.
pub fn resume_read(state: &mut AppState, stage: ReadStage, outcome: Result<Vec<u8>, Fault>) -> (step:
    Step)
    ensures
        (final(state)@, step@) == after_read(old(state)@, stage, read_model(outcome)),
{
    match outcome {
        Ok(data) => {
            let usable: bool = decode_controller_usable(data.as_slice());
            state.set_controller_usable(usable);
            match stage {
                ReadStage::Poll => Step::Done { result: Ok(Reply::ControllerStatus { usable }) },
                ReadStage::AfterConnect => Step::Done { result: Ok(Reply::Preloaded) },
            }
        },
        Err(fault) => match stage {
            ReadStage::Poll => Step::Done {
                result: Err(ControlError::from_read(Channel::ControllerUsable, fault)),
            },
            ReadStage::AfterConnect => Step::Done { result: Ok(Reply::Preloaded) },
        },
    }
}

/// The devices of a batch as mathematical values.
pub open spec fn batch_model(devices: Seq<DeviceDescriptor>) -> Seq<DeviceModel> {
    Seq::new(devices.len(), |i: int| devices[i]@)
}

/// Whether the device at `index` has the wanted address and none before it
/// has.
pub open spec fn is_first_match(devices: Seq<DeviceModel>, target: Seq<char>, index: int) -> bool {
    &&& 0 <= index < devices.len()
    &&& same_address(devices[index].address, target)
    &&& forall|j: int| 0 <= j < index ==> !same_address((#[trigger] devices[j]).address, target)
}

/// Whether some device of the batch has the wanted address.
pub open spec fn has_match(devices: Seq<DeviceModel>, target: Seq<char>) -> bool {
    exists|i: int| 0 <= i < devices.len() && same_address((#[trigger] devices[i]).address, target)
}

/// The place of the first device with the wanted address, if there is one.
pub open spec fn first_match(devices: Seq<DeviceModel>, target: Seq<char>) -> Option<int> {
    if exists|i: int| is_first_match(devices, target, i) {
        Some(choose|i: int| is_first_match(devices, target, i))
    } else {
        None
    }
}

/// A batch has at most one first match.
pub proof fn lemma_first_match_unique(
    devices: Seq<DeviceModel>,
    target: Seq<char>,
    i: int,
    j: int,
)
    requires
        is_first_match(devices, target, i),
        is_first_match(devices, target, j),
    ensures
        i == j,
{
    if i < j {
        assert(!same_address(devices[i].address, target));
    } else if j < i {
        assert(!same_address(devices[j].address, target));
    }
}

/// A batch without a device of the wanted address has no first match.
pub proof fn lemma_no_match_no_first(devices: Seq<DeviceModel>, target: Seq<char>)
    requires
        !has_match(devices, target),
    ensures
        first_match(devices, target) is None,
{
    if exists|i: int| is_first_match(devices, target, i) {
        let i = choose|i: int| is_first_match(devices, target, i);
        assert(same_address(devices[i].address, target));
    }
}

/// Looks for the first device of a batch whose address is the wanted one,
/// without regard to case.
pub fn find_device(devices: &Vec<DeviceDescriptor>, target: &str) -> (found: Option<usize>)
    ensures
        match found {
            Some(index) => first_match(batch_model(devices@), target@) == Some(index as int)
                && is_first_match(batch_model(devices@), target@, index as int),
            None => first_match(batch_model(devices@), target@) is None && !has_match(
                batch_model(devices@),
                target@,
            ),
        },
{
    let ghost batch = batch_model(devices@);
    let mut index: usize = 0;
    while index < devices.len()
        invariant
            index <= devices.len(),
            batch == batch_model(devices@),
            forall|j: int| 0 <= j < index ==> !same_address((#[trigger] batch[j]).address, target@),
        decreases devices.len() - index,
    {
        if address_matches(devices[index].address.as_str(), target) {
            proof {
                assert(is_first_match(batch, target@, index as int));
                let chosen = choose|i: int| is_first_match(batch, target@, i);
                lemma_first_match_unique(batch, target@, chosen, index as int);
            }
            return Some(index);
        }
        index += 1;
    }
    proof {
        lemma_no_match_no_first(batch, target@);
    }
    None
}

/// What follows the start of a scan for `target`: the wait for its first
/// batch, or the error by which the scan could not start.
pub open spec fn after_scan_start(target: Seq<char>, fault: Option<FaultModel>) -> StepModel {
    match fault {
        None => StepModel::AwaitBatch { target },
        Some(fault) => StepModel::failed(scan_error(fault)),
    }
}

/// What follows a batch of the scan, or its end where `batch` is `None`.
///
/// The first device of the batch with the wanted address stops the scan, to
/// be connected next. A batch without one leaves discovery waiting. When the
/// scan ends, no device was found.
pub open spec fn after_batch(target: Seq<char>, batch: Option<Seq<DeviceModel>>) -> StepModel {
    match batch {
        None => StepModel::failed(ErrorModel::DeviceNotFound { target }),
        Some(devices) => match first_match(devices, target) {
            Some(index) => StepModel::StopScan {
                stage: StopStageModel::Matched { address: devices[index].address },
            },
            None => StepModel::AwaitBatch { target },
        },
    }
}

/// What follows a request to stop the scan: the end of the stop-scan command,
/// or, in discovery, the connection to the device that was seen, whether or
/// not the scan could be stopped.
pub open spec fn after_stop_scan(stage: StopStageModel, fault: Option<FaultModel>) -> StepModel {
    match stage {
        StopStageModel::Requested => match fault {
            None => StepModel::done(ReplyModel::ScanStopped),
            Some(fault) => StepModel::failed(stop_scan_error(fault)),
        },
        StopStageModel::Matched { address } => StepModel::Connect {
            address,
            stage: ConnectStage::Discovered,
        },
    }
}

/// What follows a connection attempt, and the session after it.
///
/// A failure leaves the session as it was. A success records the address and
/// the connection; the connect command then ends, and discovery goes on to
/// read the controller's status.
pub open spec fn after_connect(
    session: SessionModel,
    address: Seq<char>,
    stage: ConnectStage,
    fault: Option<FaultModel>,
) -> (SessionModel, StepModel) {
    match fault {
        Some(fault) => (session, StepModel::failed(connect_error(address, fault))),
        None => (
            session.connected_to(address),
            match stage {
                ConnectStage::Direct => StepModel::done(ReplyModel::Connected { address }),
                ConnectStage::Discovered => StepModel::Read {
                    channel: Channel::ControllerUsable,
                    stage: ReadStage::AfterConnect,
                },
            },
        ),
    }
}

/// What follows the transport's disconnect, and the session after it: idle
/// where the transport succeeded, unchanged where it failed.
pub open spec fn after_disconnect(session: SessionModel, fault: Option<FaultModel>) -> (
    SessionModel,
    StepModel,
) {
    match fault {
        None => (SessionModel::idle(), StepModel::done(ReplyModel::Disconnected)),
        Some(fault) => (session, StepModel::failed(disconnect_error(fault))),
    }
}

/// What follows a permission check.
pub open spec fn after_permissions(outcome: Result<bool, FaultModel>) -> StepModel {
    match outcome {
        Ok(granted) => StepModel::done(ReplyModel::Permissions { granted }),
        Err(fault) => StepModel::failed(permission_error(fault)),
    }
}

/// Mathematical value of the outcome of a permission check.
pub open spec fn permissions_model(outcome: Result<bool, Fault>) -> Result<bool, FaultModel> {
    match outcome {
        Ok(granted) => Ok(granted),
        Err(fault) => Err(fault@),
    }
}

/// Mathematical value of a batch, or of the scan's end.
pub open spec fn arrival_model(batch: Option<Vec<DeviceDescriptor>>) -> Option<Seq<DeviceModel>> {
    match batch {
        Some(devices) => Some(batch_model(devices@)),
        None => None,
    }
}

/// Scans for the device of address `target` for at most `timeout_ms`, and
/// connects to it as soon as a batch of the scan holds it.
pub fn discover_and_connect(target: &str, timeout_ms: u64) -> (step: Step)
    ensures
        step@ == (StepModel::StartScan { target: target@, timeout_ms }),
{
    Step::StartScan { target: String::from_str(target), timeout_ms }
}

/// Discovers and connects the arm at its fixed address, within the longest
/// scan period.
pub fn preload_operation() -> (step: Step)
    ensures
        step@ == (StepModel::StartScan {
            target: DEVICE_ADDRESS@,
            timeout_ms: MAXIMUM_DISCOVER_PERIOD,
        }),
{
    discover_and_connect(DEVICE_ADDRESS, MAXIMUM_DISCOVER_PERIOD)
}

/// Takes up discovery after the scan was asked to start.
pub fn resume_scan_start(target: String, outcome: Result<(), Fault>) -> (step: Step)
    ensures
        step@ == after_scan_start(target@, fault_of(outcome)),
{
    match outcome {
        Ok(_) => Step::AwaitBatch { target },
        Err(fault) => Step::Done { result: Err(ControlError::from_scan(fault)) },
    }
}

/// Takes up discovery after a batch of the scan, or after its end where
/// `batch` is `None`.
pub fn resume_batch(target: String, batch: Option<Vec<DeviceDescriptor>>) -> (step: Step)
    ensures
        step@ == after_batch(target@, arrival_model(batch)),
{
    match batch {
        None => Step::Done { result: Err(ControlError::DeviceNotFound { target }) },
        Some(devices) => match find_device(&devices, target.as_str()) {
            Some(index) => Step::StopScan {
                stage: StopStage::Matched { address: devices[index].address.clone() },
            },
            None => Step::AwaitBatch { target },
        },
    }
}

/// Stops a scan that is under way.
pub fn stop_scan() -> (step: Step)
    ensures
        step@ == (StepModel::StopScan { stage: StopStageModel::Requested }),
{
    Step::StopScan { stage: StopStage::Requested }
}

/// Takes up a command after the scan was asked to stop.
pub fn resume_stop_scan(stage: StopStage, outcome: Result<(), Fault>) -> (step: Step)
    ensures
        step@ == after_stop_scan(stage@, fault_of(outcome)),
{
    match stage {
        StopStage::Requested => match outcome {
            Ok(_) => Step::Done { result: Ok(Reply::ScanStopped) },
            Err(fault) => Step::Done { result: Err(ControlError::from_stop_scan(fault)) },
        },
        StopStage::Matched { address } => Step::Connect {
            address,
            stage: ConnectStage::Discovered,
        },
    }
}

/// Connects to the device of this address.
pub fn connect(addr: &str) -> (step: Step)
    ensures
        step@ == (StepModel::Connect { address: addr@, stage: ConnectStage::Direct }),
{
    Step::Connect { address: String::from_str(addr), stage: ConnectStage::Direct }
}

/// Takes up a command after a connection attempt.
pub fn resume_connect(
    state: &mut AppState,
    address: String,
    stage: ConnectStage,
    outcome: Result<(), Fault>,
) -> (step: Step)
    ensures
        (final(state)@, step@) == after_connect(old(state)@, address@, stage, fault_of(outcome)),
{
    match outcome {
        Err(fault) => Step::Done { result: Err(ControlError::from_connect(address, fault)) },
        Ok(_) => match stage {
            ConnectStage::Direct => {
                state.mark_connected(address.clone());
                Step::Done { result: Ok(Reply::Connected { address }) }
            },
            ConnectStage::Discovered => {
                state.mark_connected(address);
                Step::Read { channel: Channel::ControllerUsable, stage: ReadStage::AfterConnect }
            },
        },
    }
}

/// Disconnects from the device. The three axes are first sent to their rest
/// position, as far as the writes succeed; then the transport disconnects.
pub fn disconnect() -> (step: Step)
    ensures
        step@ == (WriteStage::Neutral { axis: Axis::X }).request(),
{
    (WriteStage::Neutral { axis: Axis::X }).into_step()
}

/// Takes up the disconnect command after the transport's disconnect.
pub fn resume_disconnect(state: &mut AppState, outcome: Result<(), Fault>) -> (step: Step)
    ensures
        (final(state)@, step@) == after_disconnect(old(state)@, fault_of(outcome)),
        outcome is Ok ==> final(state)@ == SessionModel::idle(),
        outcome is Err ==> final(state)@ == old(state)@,
{
    match outcome {
        Ok(_) => {
            state.reset();
            Step::Done { result: Ok(Reply::Disconnected) }
        },
        Err(fault) => Step::Done { result: Err(ControlError::from_disconnect(fault)) },
    }
}

/// Asks whether BLE may be used, and for the permission where it is missing.
pub fn check_ble_permissions() -> (step: Step)
    ensures
        step@ == (StepModel::CheckPermissions { request_if_missing: true }),
{
    Step::CheckPermissions { request_if_missing: true }
}

/// Takes up the permission check after the platform's answer.
pub fn resume_permissions(outcome: Result<bool, Fault>) -> (step: Step)
    ensures
        step@ == after_permissions(permissions_model(outcome)),
{
    match outcome {
        Ok(granted) => Step::Done { result: Ok(Reply::Permissions { granted }) },
        Err(fault) => Step::Done { result: Err(ControlError::from_permissions(fault)) },
    }
}

/// Records the address of the connected device and confirms it in words. The
/// empty address clears the record.
pub fn set_connected_device_address(state: &mut AppState, address: String) -> (message: String)
    ensures
        final(state)@ == old(state)@.with_address(SessionModel::address_of(address@)),
        message@ == address_text(address@, quoted(address@)),
{
    let quoted_address: String = quote(address.as_str());
    let message: String = address_message(address.as_str(), quoted_address.as_str());
    if address.as_str().is_empty() {
        state.set_address(None);
    } else {
        state.set_address(Some(address));
    }
    message
}

/// The address of the connected device, or `No device connected`.
pub fn get_connected_device_address(state: &AppState) -> (address: String)
    ensures
        address@ == state@.shown_address(),
{
    state.get_address()
}

/// Records whether the controller takes joystick frames and confirms it in
/// words.
pub fn set_controller_usable(state: &mut AppState, usable: bool) -> (message: String)
    ensures
        final(state)@ == old(state)@.with_controller_usable(usable),
        message@ == usable_text(usable),
{
    state.set_controller_usable(usable);
    usable_message(usable)
}

/// Whether the controller takes joystick frames, as last recorded.
pub fn get_controller_usable(state: &AppState) -> (usable: bool)
    ensures
        usable == state@.controller_usable,
{
    state.get_controller_usable()
}

} // verus!
