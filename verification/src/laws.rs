//! What holds of whole commands, over every session and every outcome of the
//! transport.

use vstd::prelude::*;
use crate::codec::{ArmCommand, JoystickFrame, JOYSTICK_ZERO_VALUE};
use crate::device::{Axis, Channel};
use crate::error::{ErrorModel, FaultModel, ReplyModel};
use crate::session::{
    after_batch, after_disconnect, after_write, arm_command_start, has_match, joystick_start,
    lemma_no_match_no_first, DeviceModel, StepModel, WriteStage,
};
use crate::state::SessionModel;

verus! {

/// The steps that discovery takes on the batches of a scan that then ends:
/// one step after each batch, up to the first step that leaves the scan, and
/// the step after the scan's end where every batch left discovery waiting.
pub open spec fn discovery_steps(target: Seq<char>, batches: Seq<Seq<DeviceModel>>) -> Seq<
    StepModel,
>
    decreases batches.len(),
{
    if batches.len() == 0 {
        seq![after_batch(target, None)]
    } else {
        let step = after_batch(target, Some(batches[0]));
        if step is AwaitBatch {
            seq![step] + discovery_steps(target, batches.drop_first())
        } else {
            seq![step]
        }
    }
}

/// While the session says that the controller is not usable, sending a
/// joystick frame fails with `ControllerNotUsable`, whatever the frame, and
/// asks for no write.
pub proof fn lemma_unusable_controller_blocks_joystick(session: SessionModel, x: u8, y: u8, r: u8)
    requires
        !session.controller_usable,
    ensures
        joystick_start(session, x, y, r) == StepModel::failed(ErrorModel::ControllerNotUsable),
        !joystick_start(session, x, y, r).is_write(),
{
}

/// While the controller is usable, a joystick frame whose writes succeed is
/// written as X, then Y, then R, each value as a two-byte pair, and the
/// command then ends well.
pub proof fn lemma_joystick_writes_in_order(session: SessionModel, x: u8, y: u8, r: u8)
    requires
        session.controller_usable,
    ensures
        ({
            let frame = JoystickFrame { x, y, r };
            let first = WriteStage::Joystick { frame, axis: Axis::X };
            let second = WriteStage::Joystick { frame, axis: Axis::Y };
            let third = WriteStage::Joystick { frame, axis: Axis::R };
            &&& joystick_start(session, x, y, r) == (StepModel::Write {
                channel: Channel::AxisX,
                payload: seq![x, 0u8],
                stage: first,
            })
            &&& after_write(first, None) == (StepModel::Write {
                channel: Channel::AxisY,
                payload: seq![y, 0u8],
                stage: second,
            })
            &&& after_write(second, None) == (StepModel::Write {
                channel: Channel::AxisR,
                payload: seq![r, 0u8],
                stage: third,
            })
            &&& after_write(third, None) == StepModel::done(ReplyModel::JoystickSent { x, y, r })
        }),
{
}

/// A joystick frame ends at the first write that fails, with the error of
/// that write, and asks for no further write.
pub proof fn lemma_joystick_stops_at_first_failure(frame: JoystickFrame, axis: Axis, fault: FaultModel)
    ensures
        after_write(WriteStage::Joystick { frame, axis }, Some(fault)) is Done,
        after_write(WriteStage::Joystick { frame, axis }, Some(fault))->result is Err,
{
}

/// The word `grab` writes `0x01` to the claw switch and `release` writes
/// `0x00`, each as a two-byte pair. Every other word is refused as
/// unsupported, and nothing is written for it.
pub proof fn lemma_arm_command_words(word: Seq<char>)
    ensures
        arm_command_start("grab"@) == (StepModel::Write {
            channel: Channel::ClawSwitch,
            payload: seq![0x01u8, 0x00u8],
            stage: WriteStage::ArmSwitch { command: ArmCommand::Grab },
        }),
        arm_command_start("release"@) == (StepModel::Write {
            channel: Channel::ClawSwitch,
            payload: seq![0x00u8, 0x00u8],
            stage: WriteStage::ArmSwitch { command: ArmCommand::Release },
        }),
        word != "grab"@ && word != "release"@ ==> arm_command_start(word) == StepModel::failed(
            ErrorModel::UnsupportedCommand { command: word },
        ) && !arm_command_start(word).is_write(),
{
    reveal_strlit("grab");
    reveal_strlit("release");
    assert("grab"@.len() == 4);
    assert("release"@.len() == 7);
}

/// A disconnect sends the rest position to X, Y and R in turn, goes on
/// whether or not these writes succeed, and then asks the transport to
/// disconnect. Where the transport succeeds the session is idle afterwards,
/// whatever it was before: not connected, without an address, the controller
/// not usable. Where it fails the session is as it was.
pub proof fn lemma_disconnect_resets_session(
    session: SessionModel,
    x_fault: Option<FaultModel>,
    y_fault: Option<FaultModel>,
    r_fault: Option<FaultModel>,
    fault: FaultModel,
)
    ensures
        (WriteStage::Neutral { axis: Axis::X }).request() == (StepModel::Write {
            channel: Channel::AxisX,
            payload: seq![JOYSTICK_ZERO_VALUE, 0u8],
            stage: WriteStage::Neutral { axis: Axis::X },
        }),
        after_write(WriteStage::Neutral { axis: Axis::X }, x_fault) == (StepModel::Write {
            channel: Channel::AxisY,
            payload: seq![JOYSTICK_ZERO_VALUE, 0u8],
            stage: WriteStage::Neutral { axis: Axis::Y },
        }),
        after_write(WriteStage::Neutral { axis: Axis::Y }, y_fault) == (StepModel::Write {
            channel: Channel::AxisR,
            payload: seq![JOYSTICK_ZERO_VALUE, 0u8],
            stage: WriteStage::Neutral { axis: Axis::R },
        }),
        after_write(WriteStage::Neutral { axis: Axis::R }, r_fault) == StepModel::Disconnect,
        after_disconnect(session, None) == (
            SessionModel::idle(),
            StepModel::done(ReplyModel::Disconnected),
        ),
        after_disconnect(session, None).0.is_connected == false,
        after_disconnect(session, None).0.connected_address == None::<Seq<char>>,
        after_disconnect(session, None).0.controller_usable == false,
        after_disconnect(session, Some(fault)).0 == session,
        after_disconnect(session, Some(fault)).1 is Done,
        after_disconnect(session, Some(fault)).1->result is Err,
{
}

/// Where no batch of a scan holds a device of the wanted address, discovery
/// waits after every batch and, when the scan ends, fails with
/// `DeviceNotFound`: it never asks to stop the scan nor to connect.
pub proof fn lemma_absent_target_is_not_found(target: Seq<char>, batches: Seq<Seq<DeviceModel>>)
    requires
        forall|b: int| 0 <= b < batches.len() ==> !has_match(#[trigger] batches[b], target),
    ensures
        discovery_steps(target, batches).len() == batches.len() + 1,
        forall|k: int|
            0 <= k < batches.len() ==> #[trigger] discovery_steps(target, batches)[k] == (
            StepModel::AwaitBatch { target }),
        discovery_steps(target, batches).last() == StepModel::failed(
            ErrorModel::DeviceNotFound { target },
        ),
        forall|k: int|
            0 <= k < discovery_steps(target, batches).len() ==> {
                let step = #[trigger] discovery_steps(target, batches)[k];
                !step.is_connect() && !(step is StopScan)
            },
    decreases batches.len(),
{
    if batches.len() > 0 {
        let rest = batches.drop_first();
        assert(!has_match(batches[0], target));
        lemma_no_match_no_first(batches[0], target);
        assert forall|b: int| 0 <= b < rest.len() implies !has_match(#[trigger] rest[b], target) by {
            assert(rest[b] == batches[b + 1]);
        }
        lemma_absent_target_is_not_found(target, rest);
        let steps = discovery_steps(target, batches);
        let tail = discovery_steps(target, rest);
        assert(steps == seq![StepModel::AwaitBatch { target }] + tail);
        assert forall|k: int| 0 <= k < steps.len() implies {
            let step = #[trigger] steps[k];
            !step.is_connect() && !(step is StopScan)
        } by {
            if k > 0 {
                assert(steps[k] == tail[k - 1]);
            }
        }
        assert forall|k: int| 0 <= k < batches.len() implies #[trigger] steps[k] == (
        StepModel::AwaitBatch { target }) by {
            if k > 0 {
                assert(steps[k] == tail[k - 1]);
            }
        }
        assert(steps.last() == tail.last());
    }
}

} // verus!
