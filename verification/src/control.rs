//! The control dispatcher: from a point, a value and a mode to the command
//! that the engine is asked to operate.

use vstd::prelude::*;
use crate::binary64::{exceeds_half, truncated_i32, value_exceeds_half, value_to_i32};
use crate::error::OperationMode;
use crate::models::DataPointType;
use crate::text::{chars_equal, chars_of};

verus! {

/// Delay between a successful operate and its verification read, in
/// milliseconds.
pub const VERIFY_DELAY_MS: u64 = 50;

/// The engine's two ways of issuing a command.
#[derive(Debug, Clone, Copy, PartialEq, Eq, Structural)]
pub enum CommandMode {
    /// One request that operates at once and is confirmed.
    DirectOperate,
    /// A select followed by an operate, completed by the engine as one call.
    SelectBeforeOperate,
}

/// What a command carries.
#[derive(Debug, Clone, Copy, PartialEq, Eq, Structural)]
pub enum CommandPayload {
    /// A latch for a binary output: on or off.
    Latch { on: bool },
    /// A 32-bit integer for an analog output.
    Analog { value: i32 },
}

/// The mode that a label names. Every label but the five known ones is
/// unrecognized.
pub open spec fn operation_mode_of(label: Seq<char>) -> OperationMode {
    if label == "Direct"@ {
        OperationMode::Direct
    } else if label == "DirectNoAck"@ {
        OperationMode::DirectNoAck
    } else if label == "Select"@ {
        OperationMode::Select
    } else if label == "Operate"@ {
        OperationMode::Operate
    } else if label == "SBO"@ {
        OperationMode::Sbo
    } else {
        OperationMode::Unrecognized
    }
}

/// How the engine is asked to issue a command in the given mode. The engine
/// has no operate without acknowledgment and no select without operate: the
/// first falls back to a direct operate, the second runs the whole
/// select-before-operate, as `SBO` does. `Operate` stands in for the second
/// half of a select with a direct operate.
pub open spec fn command_mode_of(mode: OperationMode) -> CommandMode {
    match mode {
        OperationMode::Select => CommandMode::SelectBeforeOperate,
        OperationMode::Sbo => CommandMode::SelectBeforeOperate,
        _ => CommandMode::DirectOperate,
    }
}

/// Whether a successful operate in this mode is followed by a verification
/// read: always, except after `Select`.
pub open spec fn verifies_after(mode: OperationMode) -> bool {
    mode != OperationMode::Select
}

/// What a control on a point of the given kind carries: a latch that is on
/// where the value exceeds one half, or the value truncated to 32 bits.
/// Points that are not outputs take no control.
pub open spec fn payload_of(point_type: DataPointType, value: u64) -> Option<CommandPayload> {
    match point_type {
        DataPointType::BinaryOutput => Some(CommandPayload::Latch { on: exceeds_half(value) }),
        DataPointType::AnalogOutput => Some(
            CommandPayload::Analog { value: truncated_i32(value) as i32 },
        ),
        _ => None,
    }
}

/// One control, ready for the engine.
#[derive(Debug)]
pub struct ControlPlan {
    /// The mode as the operator wrote it.
    pub label: String,
    pub mode: OperationMode,
    pub command_mode: CommandMode,
    pub payload: CommandPayload,
    pub index: u16,
    /// Whether a verification read follows a successful operate.
    pub verify: bool,
}

/// Mathematical model of a [`ControlPlan`].
pub struct ControlPlanView {
    pub label: Seq<char>,
    pub mode: OperationMode,
    pub command_mode: CommandMode,
    pub payload: CommandPayload,
    pub index: u16,
    pub verify: bool,
}

impl View for ControlPlan {
    type V = ControlPlanView;

    open spec fn view(&self) -> ControlPlanView {
        ControlPlanView {
            label: self.label@,
            mode: self.mode,
            command_mode: self.command_mode,
            payload: self.payload,
            index: self.index,
            verify: self.verify,
        }
    }
}

/// The plan for a control on `(point_type, index)` with the given value and
/// mode label; none for a point that takes no control.
pub open spec fn control_plan(
    point_type: DataPointType,
    index: u16,
    value: u64,
    label: Seq<char>,
) -> Option<ControlPlanView> {
    match payload_of(point_type, value) {
        Some(payload) => {
            let mode = operation_mode_of(label);
            Some(
                ControlPlanView {
                    label,
                    mode,
                    command_mode: command_mode_of(mode),
                    payload,
                    index,
                    verify: verifies_after(mode),
                },
            )
        },
        None => None,
    }
}

/// Computes [`operation_mode_of`].
pub fn parse_operation_mode(label: &str) -> (mode: OperationMode)
    ensures
        mode == operation_mode_of(label@),
{
    let chars = chars_of(label);
    if chars_equal(&chars, &chars_of("Direct")) {
        OperationMode::Direct
    } else if chars_equal(&chars, &chars_of("DirectNoAck")) {
        OperationMode::DirectNoAck
    } else if chars_equal(&chars, &chars_of("Select")) {
        OperationMode::Select
    } else if chars_equal(&chars, &chars_of("Operate")) {
        OperationMode::Operate
    } else if chars_equal(&chars, &chars_of("SBO")) {
        OperationMode::Sbo
    } else {
        OperationMode::Unrecognized
    }
}

/// Computes [`command_mode_of`].
pub fn command_mode(mode: OperationMode) -> (how: CommandMode)
    ensures
        how == command_mode_of(mode),
{
    match mode {
        OperationMode::Select => CommandMode::SelectBeforeOperate,
        OperationMode::Sbo => CommandMode::SelectBeforeOperate,
        _ => CommandMode::DirectOperate,
    }
}

/// Computes [`control_plan`].
pub fn plan_control(point_type: DataPointType, index: u16, value: u64, op_mode: &str) -> (plan: Option<
    ControlPlan,
>)
    ensures
        match plan {
            Some(p) => control_plan(point_type, index, value, op_mode@) == Some(p@),
            None => control_plan(point_type, index, value, op_mode@) is None,
        },
        plan is Some <==> (point_type == DataPointType::BinaryOutput || point_type
            == DataPointType::AnalogOutput),
{
    let payload = match point_type {
        DataPointType::BinaryOutput => CommandPayload::Latch { on: value_exceeds_half(value) },
        DataPointType::AnalogOutput => CommandPayload::Analog { value: value_to_i32(value) },
        _ => {
            return None;
        },
    };
    let mode = parse_operation_mode(op_mode);
    Some(
        ControlPlan {
            label: op_mode.to_owned(),
            mode,
            command_mode: command_mode(mode),
            payload,
            index,
            verify: match mode {
                OperationMode::Select => false,
                _ => true,
            },
        },
    )
}

} // verus!
