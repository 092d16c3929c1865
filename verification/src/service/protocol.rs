//! The vocabulary of a call: what the boundary asks its driver to do, and
//! what the driver reports back.

use crate::model::gpyrpc::{
    ExecProgramArgsView, ExecProgramResultView, ExecProgram_Args, ExecProgram_Result, PingView,
    Ping_Args, Ping_Result,
};
use vstd::prelude::*;

verus! {

/// A method of the service; the table of call names maps onto these.
#[derive(Clone, Copy, Debug, PartialEq, Eq, Structural)]
pub enum ServiceMethod {
    Ping,
    ExecProgram,
}

/// What was caught when a piece of outside work terminated abnormally.
#[derive(Clone, Debug, PartialEq, Eq)]
pub enum FaultPayload {
    /// A plain text message.
    Plain(String),
    /// A text message that was shared by reference.
    Shared(String),
    /// An owned text message.
    Owned(String),
    /// Anything else: no description can be recovered.
    Unknown,
}

impl View for FaultPayload {
    /// The description, where one can be recovered.
    type V = Option<Seq<char>>;

    open spec fn view(&self) -> Option<Seq<char>> {
        match self {
            FaultPayload::Plain(s) => Some(s@),
            FaultPayload::Shared(s) => Some(s@),
            FaultPayload::Owned(s) => Some(s@),
            FaultPayload::Unknown => None,
        }
    }
}

/// How far a running call has come; a handler reads it to know what the
/// next report must be.
#[derive(Clone, Debug, PartialEq, Eq)]
pub enum Stage {
    /// The request bytes are being decoded.
    Decoding,
    /// The program is being loaded.
    Loading { disable_yaml_result: bool },
    /// The program is running.
    Executing { disable_yaml_result: bool },
    /// The result document is being searched for the failure marker.
    Inspecting { document: String, disable_yaml_result: bool },
    /// The result document is being rendered.
    Planning { disable_yaml_result: bool },
    /// The response message is being encoded.
    Encoding,
}

pub enum StageView {
    Decoding,
    Loading { disable_yaml_result: bool },
    Executing { disable_yaml_result: bool },
    Inspecting { document: Seq<char>, disable_yaml_result: bool },
    Planning { disable_yaml_result: bool },
    Encoding,
}

impl View for Stage {
    type V = StageView;

    open spec fn view(&self) -> StageView {
        match self {
            Stage::Decoding => StageView::Decoding,
            Stage::Loading { disable_yaml_result } => StageView::Loading {
                disable_yaml_result: *disable_yaml_result,
            },
            Stage::Executing { disable_yaml_result } => StageView::Executing {
                disable_yaml_result: *disable_yaml_result,
            },
            Stage::Inspecting { document, disable_yaml_result } => StageView::Inspecting {
                document: document@,
                disable_yaml_result: *disable_yaml_result,
            },
            Stage::Planning { disable_yaml_result } => StageView::Planning {
                disable_yaml_result: *disable_yaml_result,
            },
            Stage::Encoding => StageView::Encoding,
        }
    }
}

/// The state of a call between two steps.
#[derive(Clone, Debug, PartialEq, Eq)]
pub enum CallState {
    /// Nothing has happened yet; the call name is awaited.
    Idle,
    /// The name was resolved to a method whose handler is at work.
    Running(ServiceMethod, Stage),
    /// The call has handed out its bytes.
    Finished,
}

pub enum CallStateView {
    Idle,
    Running(ServiceMethod, StageView),
    Finished,
}

impl View for CallState {
    type V = CallStateView;

    open spec fn view(&self) -> CallStateView {
        match self {
            CallState::Idle => CallStateView::Idle,
            CallState::Running(method, stage) => CallStateView::Running(*method, stage@),
            CallState::Finished => CallStateView::Finished,
        }
    }
}

/// What the driver reports to the boundary.
#[derive(Clone, Debug, PartialEq, Eq)]
pub enum Event {
    /// A call arrived under this name.
    Invoked(String),
    /// The request bytes decoded as the argument of `Ping`.
    PingArgs(Ping_Args),
    /// The request bytes decoded as the argument of `ExecProgram`.
    ExecProgramArgs(ExecProgram_Args),
    /// The program was loaded.
    Loaded,
    /// The program ran and left this result document.
    Executed(String),
    /// The failure marker was looked up in the result document: `None` where
    /// the document has no such key, else whether its value is truthy.
    Marker(Option<bool>),
    /// The result document was rendered, and the run was timed.
    Planned { json_result: String, yaml_result: String, escaped_time: String },
    /// The response message was encoded.
    Encoded(Vec<u8>),
    /// The outside work reported an error.
    Failed(String),
    /// The outside work terminated abnormally.
    Fault(FaultPayload),
}

pub enum EventView {
    Invoked(Seq<char>),
    PingArgs(PingView),
    ExecProgramArgs(ExecProgramArgsView),
    Loaded,
    Executed(Seq<char>),
    Marker(Option<bool>),
    Planned { json_result: Seq<char>, yaml_result: Seq<char>, escaped_time: Seq<char> },
    Encoded(Seq<u8>),
    Failed(Seq<char>),
    Fault(Option<Seq<char>>),
}

impl View for Event {
    type V = EventView;

    open spec fn view(&self) -> EventView {
        match self {
            Event::Invoked(name) => EventView::Invoked(name@),
            Event::PingArgs(args) => EventView::PingArgs(args@),
            Event::ExecProgramArgs(args) => EventView::ExecProgramArgs(args@),
            Event::Loaded => EventView::Loaded,
            Event::Executed(document) => EventView::Executed(document@),
            Event::Marker(marker) => EventView::Marker(*marker),
            Event::Planned { json_result, yaml_result, escaped_time } => EventView::Planned {
                json_result: json_result@,
                yaml_result: yaml_result@,
                escaped_time: escaped_time@,
            },
            Event::Encoded(bytes) => EventView::Encoded(bytes@),
            Event::Failed(message) => EventView::Failed(message@),
            Event::Fault(payload) => EventView::Fault(payload@),
        }
    }
}

/// What the boundary asks its driver to do next.
#[derive(Clone, Debug, PartialEq, Eq)]
pub enum Action {
    /// Decode the request bytes as the argument message of this method.
    DecodeArgs(ServiceMethod),
    /// Load the program from these files, with the options of the request.
    LoadProgram(Vec<String>),
    /// Run the loaded program; extensions are reached through this agent.
    Execute(u64),
    /// Look up this key in the result document.
    FindMarker { document: String, key: String },
    /// Render the result document and report the time the run took.
    Plan(String),
    /// Encode this response message.
    EncodePing(Ping_Result),
    /// Encode this response message.
    EncodeExecProgram(ExecProgram_Result),
    /// Hand these response bytes to the caller; the call succeeded.
    Return(Vec<u8>),
    /// Hand this error text to the caller; the call failed.
    ReturnError(String),
}

pub enum ActionView {
    DecodeArgs(ServiceMethod),
    LoadProgram(Seq<Seq<char>>),
    Execute(u64),
    FindMarker { document: Seq<char>, key: Seq<char> },
    Plan(Seq<char>),
    EncodePing(PingView),
    EncodeExecProgram(ExecProgramResultView),
    Return(Seq<u8>),
    ReturnError(Seq<char>),
}

impl View for Action {
    type V = ActionView;

    open spec fn view(&self) -> ActionView {
        match self {
            Action::DecodeArgs(method) => ActionView::DecodeArgs(*method),
            Action::LoadProgram(paths) => ActionView::LoadProgram(paths.deep_view()),
            Action::Execute(agent) => ActionView::Execute(*agent),
            Action::FindMarker { document, key } => ActionView::FindMarker {
                document: document@,
                key: key@,
            },
            Action::Plan(document) => ActionView::Plan(document@),
            Action::EncodePing(result) => ActionView::EncodePing(result@),
            Action::EncodeExecProgram(result) => ActionView::EncodeExecProgram(result@),
            Action::Return(bytes) => ActionView::Return(bytes@),
            Action::ReturnError(message) => ActionView::ReturnError(message@),
        }
    }
}

/// What a handler makes of one report.
#[derive(Clone, Debug, PartialEq, Eq)]
pub enum Outcome {
    /// More outside work is needed.
    Continue(Stage, Action),
    /// The handler is done; these are the response bytes.
    Complete(Vec<u8>),
}

pub enum OutcomeView {
    Continue(StageView, ActionView),
    Complete(Seq<u8>),
}

impl View for Outcome {
    type V = OutcomeView;

    open spec fn view(&self) -> OutcomeView {
        match self {
            Outcome::Continue(stage, action) => OutcomeView::Continue(stage@, action@),
            Outcome::Complete(bytes) => OutcomeView::Complete(bytes@),
        }
    }
}

} // verus!
