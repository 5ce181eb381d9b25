//! The errors of a session, and the text that the operator reads for each.

use vstd::prelude::*;
use crate::models::DataPointType;
use crate::text::{decimal, push_decimal, push_str, string_of};

verus! {

/// Mode in which the operator asks for a control to be issued.
#[derive(Debug, Clone, Copy, PartialEq, Eq, Structural)]
pub enum OperationMode {
    Direct,
    DirectNoAck,
    Select,
    Operate,
    Sbo,
    /// Any mode that is not one of the five named ones; handled as `Direct`.
    Unrecognized,
}

/// The call into the protocol engine that failed.
#[derive(Debug, Clone, Copy, PartialEq, Eq, Structural)]
pub enum EngineStage {
    AddAssociation,
    EnableChannel,
    SpawnSerialOutstation,
    ListenAddress,
    AddOutstation,
    BindServer,
    Operate(OperationMode),
    Read,
}

/// A failure reported by the protocol engine, or by the host on its behalf:
/// the call that failed and the engine's words.
#[derive(Debug)]
pub struct EngineFailure {
    pub stage: EngineStage,
    pub detail: String,
}

/// Why an operation on a session failed.
#[derive(Debug)]
pub enum ServiceError {
    /// The local link address is reserved by the protocol.
    InvalidLocalAddress { detail: String },
    /// The remote link address is reserved by the protocol.
    InvalidRemoteAddress { detail: String },
    /// A serial transport was asked for and no port was named.
    SerialPortNotConfigured,
    /// The engine refused a call. `port` names the serial port where the
    /// call was made for one.
    Engine { stage: EngineStage, port: String, detail: String },
    /// The table already has a point of this kind and index.
    DuplicatePoint { point_type: DataPointType, index: u16 },
    /// Controls go to binary and analog outputs only.
    UnsupportedControlPoint,
    /// The session has neither a live association nor its connected flag.
    NotConnected,
    /// A start was completed that had not been begun for this role.
    NotStarting,
}

/// Mathematical model of a [`ServiceError`].
pub enum ServiceErrorView {
    InvalidLocalAddress { detail: Seq<char> },
    InvalidRemoteAddress { detail: Seq<char> },
    SerialPortNotConfigured,
    Engine { stage: EngineStage, port: Seq<char>, detail: Seq<char> },
    DuplicatePoint { point_type: DataPointType, index: u16 },
    UnsupportedControlPoint,
    NotConnected,
    NotStarting,
}

impl View for ServiceError {
    type V = ServiceErrorView;

    open spec fn view(&self) -> ServiceErrorView {
        match *self {
            ServiceError::InvalidLocalAddress { detail } => ServiceErrorView::InvalidLocalAddress {
                detail: detail@,
            },
            ServiceError::InvalidRemoteAddress { detail } => ServiceErrorView::InvalidRemoteAddress {
                detail: detail@,
            },
            ServiceError::SerialPortNotConfigured => ServiceErrorView::SerialPortNotConfigured,
            ServiceError::Engine { stage, port, detail } => ServiceErrorView::Engine {
                stage,
                port: port@,
                detail: detail@,
            },
            ServiceError::DuplicatePoint { point_type, index } => ServiceErrorView::DuplicatePoint {
                point_type,
                index,
            },
            ServiceError::UnsupportedControlPoint => ServiceErrorView::UnsupportedControlPoint,
            ServiceError::NotConnected => ServiceErrorView::NotConnected,
            ServiceError::NotStarting => ServiceErrorView::NotStarting,
        }
    }
}

/// Name of a point kind, as it is written in messages.
pub open spec fn kind_name(point_type: DataPointType) -> Seq<char> {
    match point_type {
        DataPointType::BinaryInput => "BinaryInput"@,
        DataPointType::BinaryOutput => "BinaryOutput"@,
        DataPointType::AnalogInput => "AnalogInput"@,
        DataPointType::AnalogOutput => "AnalogOutput"@,
        DataPointType::Counter => "Counter"@,
    }
}

/// Computes [`kind_name`].
pub fn kind_label(point_type: DataPointType) -> (name: &'static str)
    ensures
        name@ == kind_name(point_type),
{
    match point_type {
        DataPointType::BinaryInput => "BinaryInput",
        DataPointType::BinaryOutput => "BinaryOutput",
        DataPointType::AnalogInput => "AnalogInput",
        DataPointType::AnalogOutput => "AnalogOutput",
        DataPointType::Counter => "Counter",
    }
}

/// What a failed control is called in its message, by the mode asked for.
pub open spec fn operate_failure_name(mode: OperationMode) -> Seq<char> {
    match mode {
        OperationMode::Direct => "Direct Operate failed"@,
        OperationMode::DirectNoAck => "Direct Operate No Ack failed"@,
        OperationMode::Select => "Select failed"@,
        OperationMode::Operate => "Operate failed"@,
        OperationMode::Sbo => "SBO failed"@,
        OperationMode::Unrecognized => "Control failed"@,
    }
}

/// What a failed engine call is called in its message.
pub open spec fn stage_text(stage: EngineStage, port: Seq<char>) -> Seq<char> {
    match stage {
        EngineStage::AddAssociation => "Failed to add association"@,
        EngineStage::EnableChannel => "Failed to enable channel"@,
        EngineStage::SpawnSerialOutstation => "Failed to spawn outstation on serial "@ + port,
        EngineStage::ListenAddress => "Invalid address"@,
        EngineStage::AddOutstation => "Failed to add outstation"@,
        EngineStage::BindServer => "Failed to bind server"@,
        EngineStage::Operate(mode) => operate_failure_name(mode),
        EngineStage::Read => "Read failed"@,
    }
}

/// The message of an error.
pub open spec fn error_text(error: ServiceErrorView) -> Seq<char> {
    match error {
        ServiceErrorView::InvalidLocalAddress { detail } => "Invalid local address: "@ + detail,
        ServiceErrorView::InvalidRemoteAddress { detail } => "Invalid remote address: "@ + detail,
        ServiceErrorView::SerialPortNotConfigured => "Serial port not configured"@,
        ServiceErrorView::Engine { stage, port, detail } => stage_text(stage, port) + ": "@ + detail,
        ServiceErrorView::DuplicatePoint { point_type, index } => "Data point "@ + kind_name(
            point_type,
        ) + "["@ + decimal(index as nat) + "] already exists"@,
        ServiceErrorView::UnsupportedControlPoint => "Unsupported control point type"@,
        ServiceErrorView::NotConnected => "Master not connected"@,
        ServiceErrorView::NotStarting => "No connection attempt in progress"@,
    }
}

/// Computes [`operate_failure_name`].
fn operate_failure_label(mode: OperationMode) -> (name: &'static str)
    ensures
        name@ == operate_failure_name(mode),
{
    match mode {
        OperationMode::Direct => "Direct Operate failed",
        OperationMode::DirectNoAck => "Direct Operate No Ack failed",
        OperationMode::Select => "Select failed",
        OperationMode::Operate => "Operate failed",
        OperationMode::Sbo => "SBO failed",
        OperationMode::Unrecognized => "Control failed",
    }
}

impl ServiceError {
    /// The message of this error, as the operator reads it.
    pub fn message(&self) -> (text: String)
        ensures
            text@ == error_text(self@),
    {
        let mut out: Vec<char> = Vec::new();
        match self {
            ServiceError::InvalidLocalAddress { detail } => {
                push_str(&mut out, "Invalid local address: ");
                push_str(&mut out, detail.as_str());
            },
            ServiceError::InvalidRemoteAddress { detail } => {
                push_str(&mut out, "Invalid remote address: ");
                push_str(&mut out, detail.as_str());
            },
            ServiceError::SerialPortNotConfigured => {
                push_str(&mut out, "Serial port not configured");
            },
            ServiceError::Engine { stage, port, detail } => {
                match stage {
                    EngineStage::AddAssociation => push_str(&mut out, "Failed to add association"),
                    EngineStage::EnableChannel => push_str(&mut out, "Failed to enable channel"),
                    EngineStage::SpawnSerialOutstation => {
                        push_str(&mut out, "Failed to spawn outstation on serial ");
                        push_str(&mut out, port.as_str());
                    },
                    EngineStage::ListenAddress => push_str(&mut out, "Invalid address"),
                    EngineStage::AddOutstation => push_str(&mut out, "Failed to add outstation"),
                    EngineStage::BindServer => push_str(&mut out, "Failed to bind server"),
                    EngineStage::Operate(mode) => push_str(&mut out, operate_failure_label(*mode)),
                    EngineStage::Read => push_str(&mut out, "Read failed"),
                }
                assert(out@ =~= stage_text(*stage, port@));
                push_str(&mut out, ": ");
                push_str(&mut out, detail.as_str());
            },
            ServiceError::DuplicatePoint { point_type, index } => {
                push_str(&mut out, "Data point ");
                push_str(&mut out, kind_label(*point_type));
                push_str(&mut out, "[");
                push_decimal(&mut out, *index as u64);
                push_str(&mut out, "] already exists");
            },
            ServiceError::UnsupportedControlPoint => {
                push_str(&mut out, "Unsupported control point type");
            },
            ServiceError::NotConnected => {
                push_str(&mut out, "Master not connected");
            },
            ServiceError::NotStarting => {
                push_str(&mut out, "No connection attempt in progress");
            },
        }
        assert(out@ =~= error_text(self@));
        string_of(&out)
    }
}

} // verus!
