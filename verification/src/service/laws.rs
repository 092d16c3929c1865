//! What holds of every call, proved from the step functions' definitions.

use crate::model::gpyrpc::{ExecProgramArgsView, ExecProgramResultView, PingView};
use crate::service::api::{
    spec_call, spec_call_result, spec_error_buffer, spec_fault_message, spec_method_by_name,
    unknown_method_message, EXEC_PROGRAM, PING, UNKNOWN_METHOD,
};
use crate::service::buffer::crosses_boundary;
use crate::service::path::spec_kcl_paths;
use crate::service::protocol::{ActionView, CallStateView, EventView, ServiceMethod, StageView};
use crate::service::service::KCL_PANIC_INFO;
use vstd::prelude::*;

verus! {

/// The two call names stand for their methods, and for nothing else does the
/// table hold a method: a name that differs from both in any character, in
/// case or in length is unknown.
pub proof fn table_holds_two_names(name: Seq<char>)
    ensures
        spec_method_by_name(PING@) == Some(ServiceMethod::Ping),
        spec_method_by_name(EXEC_PROGRAM@) == Some(ServiceMethod::ExecProgram),
        spec_method_by_name(name) is Some <==> name == PING@ || name == EXEC_PROGRAM@,
{
    reveal_strlit("KclvmService.Ping");
    reveal_strlit("KclvmService.ExecProgram");
    assert(PING@.len() != EXEC_PROGRAM@.len());
}

/// A ping comes back as it went. Called under its name, the boundary asks
/// for the request to be decoded as a ping; whatever value and metadata the
/// decoded request holds, the empty value too, it asks for exactly these to
/// be encoded; and the encoded bytes, where they can cross the boundary, are
/// what the caller gets.
pub proof fn ping_echoes(agent: u64, args: PingView, bytes: Seq<u8>)
    ensures
        spec_call(agent, CallStateView::Idle, EventView::Invoked(PING@)) == (
            CallStateView::Running(ServiceMethod::Ping, StageView::Decoding),
            ActionView::DecodeArgs(ServiceMethod::Ping),
        ),
        spec_call(
            agent,
            CallStateView::Running(ServiceMethod::Ping, StageView::Decoding),
            EventView::PingArgs(args),
        ) == (
            CallStateView::Running(ServiceMethod::Ping, StageView::Encoding),
            ActionView::EncodePing(args),
        ),
        crosses_boundary(bytes) ==> spec_call(
            agent,
            CallStateView::Running(ServiceMethod::Ping, StageView::Encoding),
            EventView::Encoded(bytes),
        ) == (CallStateView::Finished, ActionView::Return(bytes)),
{
    table_holds_two_names(PING@);
}

/// A call under a name that the table does not hold fails: the caller gets
/// a description that is not empty and that ends in the name, and the error
/// buffer holds the same description, whatever it held before.
pub proof fn unknown_method_is_described(before: Seq<char>, agent: u64, name: Seq<char>)
    requires
        spec_method_by_name(name) is None,
    ensures
        spec_call(agent, CallStateView::Idle, EventView::Invoked(name)) == (
            CallStateView::Finished,
            ActionView::ReturnError(unknown_method_message(name)),
        ),
        spec_error_buffer(before, agent, CallStateView::Idle, EventView::Invoked(name))
            == unknown_method_message(name),
        unknown_method_message(name).len() > 0,
        UNKNOWN_METHOD@.is_prefix_of(unknown_method_message(name)),
{
    reveal_strlit("unknown method name : ");
}

/// Every step either fails or leaves the error buffer as it was. A step
/// fails exactly when it answers with an error text for the caller, and then
/// the error buffer holds that text. So a buffer that was cleared stays empty
/// until a step fails.
pub proof fn error_buffer_follows_failures(
    before: Seq<char>,
    agent: u64,
    state: CallStateView,
    event: EventView,
)
    ensures
        match spec_call(agent, state, event).1 {
            ActionView::ReturnError(message) => spec_error_buffer(before, agent, state, event)
                == message,
            _ => spec_error_buffer(before, agent, state, event) == before,
        },
        spec_call(agent, state, event).1 is ReturnError <==> spec_call_result(
            agent,
            state,
            event,
        ) is Err,
        spec_call(agent, state, event).1 is ReturnError ==> spec_call(agent, state, event).0
            == CallStateView::Finished,
{
}

/// An error or a fault of the outside work fails the call in whatever state
/// it is: the call is finished, the caller gets the description, and the
/// error buffer holds it. A fault without a recoverable text leaves the
/// empty description.
pub proof fn outside_failures_fail_the_call(
    before: Seq<char>,
    agent: u64,
    state: CallStateView,
    message: Seq<char>,
    payload: Option<Seq<char>>,
)
    ensures
        spec_call(agent, state, EventView::Failed(message)) == (
            CallStateView::Finished,
            ActionView::ReturnError(message),
        ),
        spec_error_buffer(before, agent, state, EventView::Failed(message)) == message,
        spec_call(agent, state, EventView::Fault(payload)) == (
            CallStateView::Finished,
            ActionView::ReturnError(spec_fault_message(payload)),
        ),
        spec_error_buffer(before, agent, state, EventView::Fault(payload)) == spec_fault_message(
            payload,
        ),
        spec_fault_message(None) == Seq::<char>::empty(),
{
}

/// Response bytes that are handed to the caller hold no nul byte, so they
/// can cross the boundary as terminated text; and they are handed out only
/// by the step that finishes the call.
pub proof fn responses_cross_the_boundary(agent: u64, state: CallStateView, event: EventView)
    ensures
        match spec_call(agent, state, event).1 {
            ActionView::Return(bytes) => crosses_boundary(bytes) && spec_call(
                agent,
                state,
                event,
            ).0 == CallStateView::Finished,
            _ => true,
        },
{
}

/// A result document whose failure marker is truthy fails the call, and the
/// description is the document itself.
pub proof fn panic_info_fails_the_call(
    before: Seq<char>,
    agent: u64,
    document: Seq<char>,
    disable_yaml_result: bool,
)
    ensures
        spec_call(
            agent,
            CallStateView::Running(
                ServiceMethod::ExecProgram,
                StageView::Inspecting { document, disable_yaml_result },
            ),
            EventView::Marker(Some(true)),
        ) == (CallStateView::Finished, ActionView::ReturnError(document)),
        spec_error_buffer(
            before,
            agent,
            CallStateView::Running(
                ServiceMethod::ExecProgram,
                StageView::Inspecting { document, disable_yaml_result },
            ),
            EventView::Marker(Some(true)),
        ) == document,
{
}

/// The course of an `ExecProgram` call that meets no failure. The files are
/// loaded from below the working directory, the program runs with the
/// handle's agent, the result document is searched for the failure marker
/// and rendered, and the response holds the structured rendering and the
/// time as they were reported. The readable rendering is the reported one,
/// or empty where the request disabled it.
pub proof fn exec_program_runs_to_its_response(
    agent: u64,
    args: ExecProgramArgsView,
    document: Seq<char>,
    marker: Option<bool>,
    json_result: Seq<char>,
    yaml_result: Seq<char>,
    escaped_time: Seq<char>,
)
    requires
        marker != Some(true),
    ensures
        spec_call(agent, CallStateView::Idle, EventView::Invoked(EXEC_PROGRAM@)) == (
            CallStateView::Running(ServiceMethod::ExecProgram, StageView::Decoding),
            ActionView::DecodeArgs(ServiceMethod::ExecProgram),
        ),
        spec_call(
            agent,
            CallStateView::Running(ServiceMethod::ExecProgram, StageView::Decoding),
            EventView::ExecProgramArgs(args),
        ) == (
            CallStateView::Running(
                ServiceMethod::ExecProgram,
                StageView::Loading { disable_yaml_result: args.disable_yaml_result },
            ),
            ActionView::LoadProgram(spec_kcl_paths(args.work_dir, args.k_filename_list)),
        ),
        spec_call(
            agent,
            CallStateView::Running(
                ServiceMethod::ExecProgram,
                StageView::Loading { disable_yaml_result: args.disable_yaml_result },
            ),
            EventView::Loaded,
        ) == (
            CallStateView::Running(
                ServiceMethod::ExecProgram,
                StageView::Executing { disable_yaml_result: args.disable_yaml_result },
            ),
            ActionView::Execute(agent),
        ),
        spec_call(
            agent,
            CallStateView::Running(
                ServiceMethod::ExecProgram,
                StageView::Executing { disable_yaml_result: args.disable_yaml_result },
            ),
            EventView::Executed(document),
        ) == (
            CallStateView::Running(
                ServiceMethod::ExecProgram,
                StageView::Inspecting { document, disable_yaml_result: args.disable_yaml_result },
            ),
            ActionView::FindMarker { document, key: KCL_PANIC_INFO@ },
        ),
        spec_call(
            agent,
            CallStateView::Running(
                ServiceMethod::ExecProgram,
                StageView::Inspecting { document, disable_yaml_result: args.disable_yaml_result },
            ),
            EventView::Marker(marker),
        ) == (
            CallStateView::Running(
                ServiceMethod::ExecProgram,
                StageView::Planning { disable_yaml_result: args.disable_yaml_result },
            ),
            ActionView::Plan(document),
        ),
        spec_call(
            agent,
            CallStateView::Running(
                ServiceMethod::ExecProgram,
                StageView::Planning { disable_yaml_result: args.disable_yaml_result },
            ),
            EventView::Planned { json_result, yaml_result, escaped_time },
        ) == (
            CallStateView::Running(ServiceMethod::ExecProgram, StageView::Encoding),
            ActionView::EncodeExecProgram(
                ExecProgramResultView {
                    json_result,
                    yaml_result: if args.disable_yaml_result {
                        Seq::empty()
                    } else {
                        yaml_result
                    },
                    escaped_time,
                },
            ),
        ),
{
    table_holds_two_names(EXEC_PROGRAM@);
}

/// With the readable rendering disabled, the response's readable rendering
/// is empty, whatever was reported, and its structured rendering is the
/// reported one.
pub proof fn disabled_yaml_result_is_empty(
    agent: u64,
    json_result: Seq<char>,
    yaml_result: Seq<char>,
    escaped_time: Seq<char>,
)
    ensures
        spec_call(
            agent,
            CallStateView::Running(
                ServiceMethod::ExecProgram,
                StageView::Planning { disable_yaml_result: true },
            ),
            EventView::Planned { json_result, yaml_result, escaped_time },
        ) == (
            CallStateView::Running(ServiceMethod::ExecProgram, StageView::Encoding),
            ActionView::EncodeExecProgram(
                ExecProgramResultView { json_result, yaml_result: Seq::empty(), escaped_time },
            ),
        ),
{
}

} // verus!
