//! The boundary: the handle's life cycle, the table of methods, the
//! handlers and the dispatcher.

use crate::service::buffer::{seal, spec_seal};
use crate::service::protocol::{
    Action, ActionView, CallState, CallStateView, Event, EventView, FaultPayload, Outcome,
    OutcomeView, ServiceMethod, Stage, StageView,
};
use crate::service::service::{spec_exec_program, spec_ping, KclvmService, UNEXPECTED_EVENT};
use vstd::prelude::*;
use vstd::string::*;
use vstd::utf8::*;

verus! {

/// The call name of `Ping`.
pub const PING: &'static str = "KclvmService.Ping";

/// The call name of `ExecProgram`.
pub const EXEC_PROGRAM: &'static str = "KclvmService.ExecProgram";

/// What the description of an unknown call name begins with; the name
/// follows.
pub const UNKNOWN_METHOD: &'static str = "unknown method name : ";

/// Creates the state behind a new handle: no error, and the given agent.
pub fn kclvm_service_new(plugin_agent: u64) -> (serv: KclvmService)
    ensures
        serv.kclvm_service_err_buffer@ == Seq::<char>::empty(),
        serv.plugin_agent == plugin_agent,
{
    let mut serv = KclvmService::default();
    serv.plugin_agent = plugin_agent;
    serv
}

/// The description of the most recent failed call, empty where there is
/// none or where it was cleared since.
pub fn kclvm_service_get_error_buffer(serv: &KclvmService) -> (text: &str)
    ensures
        text@ == serv.kclvm_service_err_buffer@,
{
    serv.kclvm_service_err_buffer.as_str()
}

/// Empties the error buffer, so that a later reader does not take an old
/// description for a new one.
pub fn kclvm_service_clear_error_buffer(serv: &mut KclvmService)
    ensures
        final(serv).kclvm_service_err_buffer@ == Seq::<char>::empty(),
        final(serv).plugin_agent == old(serv).plugin_agent,
{
    serv.kclvm_service_err_buffer = String::new();
}

/// Whether two texts are the same, character by character.
pub fn str_eq(a: &str, b: &str) -> (same: bool)
    ensures
        same == (a@ == b@),
{
    let left = a.as_bytes();
    let right = b.as_bytes();
    proof {
        encode_utf8_decode_utf8(a@);
        encode_utf8_decode_utf8(b@);
    }
    if left.len() != right.len() {
        return false;
    }
    let mut i: usize = 0;
    while i < left.len()
        invariant
            i <= left@.len(),
            left@.len() == right@.len(),
            left@.take(i as int) == right@.take(i as int),
            left@ == encode_utf8(a@),
            right@ == encode_utf8(b@),
            decode_utf8(left@) == a@,
            decode_utf8(right@) == b@,
        decreases left@.len() - i,
    {
        if left[i] != right[i] {
            return false;
        }
        assert(left@.take(i + 1) =~= left@.take(i as int).push(left@[i as int]));
        assert(right@.take(i + 1) =~= right@.take(i as int).push(right@[i as int]));
        i += 1;
    }
    assert(left@ =~= left@.take(left@.len() as int));
    assert(right@ =~= right@.take(right@.len() as int));
    true
}

/// The table of methods: the method a call name stands for. Names match
/// exactly and in full.
pub open spec fn spec_method_by_name(name: Seq<char>) -> Option<ServiceMethod> {
    if name == PING@ {
        Some(ServiceMethod::Ping)
    } else if name == EXEC_PROGRAM@ {
        Some(ServiceMethod::ExecProgram)
    } else {
        None
    }
}

/// The description of a call under a name that the table does not hold.
pub open spec fn unknown_method_message(name: Seq<char>) -> Seq<char> {
    UNKNOWN_METHOD@ + name
}

/// Looks a call name up in the table of methods. An unknown name is an
/// error whose description holds the name.
pub fn _kclvm_get_service_fn_ptr_by_name(name: &str) -> (found: Result<ServiceMethod, String>)
    ensures
        match spec_method_by_name(name@) {
            Some(method) => found == Ok::<ServiceMethod, String>(method),
            None => found is Err && found->Err_0@ == unknown_method_message(name@),
        },
{
    if str_eq(name, PING) {
        Ok(ServiceMethod::Ping)
    } else if str_eq(name, EXEC_PROGRAM) {
        Ok(ServiceMethod::ExecProgram)
    } else {
        Err(String::from_str(UNKNOWN_METHOD).concat(name))
    }
}

/// The description that a fault leaves: its text, or nothing where no text
/// can be recovered.
pub open spec fn spec_fault_message(payload: Option<Seq<char>>) -> Seq<char> {
    match payload {
        Some(text) => text,
        None => Seq::empty(),
    }
}

/// Recovers the description of a fault.
pub fn fault_message(payload: FaultPayload) -> (message: String)
    ensures
        message@ == spec_fault_message(payload@),
{
    match payload {
        FaultPayload::Plain(text) => text,
        FaultPayload::Shared(text) => text,
        FaultPayload::Owned(text) => text,
        FaultPayload::Unknown => String::new(),
    }
}

/// One step of the `Ping` handler: the decoded request is answered with the
/// request to encode its echo, the encoded response is checked and handed
/// out.
pub open spec fn spec_ping_handler(stage: StageView, event: EventView) -> Result<
    OutcomeView,
    Seq<char>,
> {
    match (stage, event) {
        (_, EventView::Failed(message)) => Err(message),
        (StageView::Decoding, EventView::PingArgs(args)) => Ok(
            OutcomeView::Continue(StageView::Encoding, ActionView::EncodePing(spec_ping(args))),
        ),
        (StageView::Encoding, EventView::Encoded(bytes)) => match spec_seal(bytes) {
            Ok(content) => Ok(OutcomeView::Complete(content)),
            Err(message) => Err(message),
        },
        _ => Err(UNEXPECTED_EVENT@),
    }
}

/// One step of the `ExecProgram` handler: the encoded response is checked
/// and handed out, everything before that is the typed method's.
pub open spec fn spec_exec_program_handler(
    agent: u64,
    stage: StageView,
    event: EventView,
) -> Result<OutcomeView, Seq<char>> {
    match (stage, event) {
        (StageView::Encoding, EventView::Encoded(bytes)) => match spec_seal(bytes) {
            Ok(content) => Ok(OutcomeView::Complete(content)),
            Err(message) => Err(message),
        },
        _ => match spec_exec_program(agent, stage, event) {
            Ok((next, action)) => Ok(OutcomeView::Continue(next, action)),
            Err(message) => Err(message),
        },
    }
}

/// The handler that the table holds for a method.
pub open spec fn spec_handler(
    method: ServiceMethod,
    agent: u64,
    stage: StageView,
    event: EventView,
) -> Result<OutcomeView, Seq<char>> {
    match method {
        ServiceMethod::Ping => spec_ping_handler(stage, event),
        ServiceMethod::ExecProgram => spec_exec_program_handler(agent, stage, event),
    }
}

/// ping is used to test whether the service is reachable: the response
/// carries what the request carried.
pub fn ping(serv: &KclvmService, stage: Stage, event: Event) -> (res: Result<Outcome, String>)
    ensures
        match spec_ping_handler(stage@, event@) {
            Ok(outcome) => res is Ok && res->Ok_0@ == outcome,
            Err(message) => res is Err && res->Err_0@ == message,
        },
{
    match event {
        Event::Failed(message) => Err(message),
        Event::PingArgs(args) => match stage {
            Stage::Decoding => {
                let res = serv.ping(&args);
                Ok(Outcome::Continue(Stage::Encoding, Action::EncodePing(res)))
            },
            _ => Err(String::from_str(UNEXPECTED_EVENT)),
        },
        Event::Encoded(bytes) => match stage {
            Stage::Encoding => match seal(bytes) {
                Ok(content) => Ok(Outcome::Complete(content)),
                Err(message) => Err(message),
            },
            _ => Err(String::from_str(UNEXPECTED_EVENT)),
        },
        _ => Err(String::from_str(UNEXPECTED_EVENT)),
    }
}

/// exec_program runs the program that the request names and answers with
/// its renderings.
pub fn exec_program(serv: &KclvmService, stage: Stage, event: Event) -> (res: Result<
    Outcome,
    String,
>)
    ensures
        match spec_exec_program_handler(serv.plugin_agent, stage@, event@) {
            Ok(outcome) => res is Ok && res->Ok_0@ == outcome,
            Err(message) => res is Err && res->Err_0@ == message,
        },
{
    match (stage, event) {
        (Stage::Encoding, Event::Encoded(bytes)) => match seal(bytes) {
            Ok(content) => Ok(Outcome::Complete(content)),
            Err(message) => Err(message),
        },
        (stage, event) => match serv.exec_program(stage, event) {
            Ok((next, action)) => Ok(Outcome::Continue(next, action)),
            Err(message) => Err(message),
        },
    }
}

/// What one step of a call comes to: the next state and the work to ask
/// for, or the description of the failure.
///
/// A fault or an error of the outside work fails the call, whatever its
/// state. A call that has not begun resolves its name; a running call is
/// its handler's; a finished call takes no more events.
pub open spec fn spec_call_result(agent: u64, state: CallStateView, event: EventView) -> Result<
    (CallStateView, ActionView),
    Seq<char>,
> {
    match event {
        EventView::Fault(payload) => Err(spec_fault_message(payload)),
        EventView::Failed(message) => Err(message),
        _ => match state {
            CallStateView::Idle => match event {
                EventView::Invoked(name) => match spec_method_by_name(name) {
                    Some(method) => Ok(
                        (
                            CallStateView::Running(method, StageView::Decoding),
                            ActionView::DecodeArgs(method),
                        ),
                    ),
                    None => Err(unknown_method_message(name)),
                },
                _ => Err(UNEXPECTED_EVENT@),
            },
            CallStateView::Running(method, stage) => match spec_handler(
                method,
                agent,
                stage,
                event,
            ) {
                Ok(OutcomeView::Continue(next, action)) => Ok(
                    (CallStateView::Running(method, next), action),
                ),
                Ok(OutcomeView::Complete(bytes)) => Ok(
                    (CallStateView::Finished, ActionView::Return(bytes)),
                ),
                Err(message) => Err(message),
            },
            CallStateView::Finished => Err(UNEXPECTED_EVENT@),
        },
    }
}

/// The state and the action that one step of a call ends in. A failed step
/// finishes the call and hands its description to the caller.
pub open spec fn spec_call(agent: u64, state: CallStateView, event: EventView) -> (
    CallStateView,
    ActionView,
) {
    match spec_call_result(agent, state, event) {
        Ok(step) => step,
        Err(message) => (CallStateView::Finished, ActionView::ReturnError(message)),
    }
}

/// The error buffer after one step of a call: a failed step overwrites it
/// with its description, any other step leaves it as it was.
pub open spec fn spec_error_buffer(
    before: Seq<char>,
    agent: u64,
    state: CallStateView,
    event: EventView,
) -> Seq<char> {
    match spec_call_result(agent, state, event) {
        Ok(_) => before,
        Err(message) => message,
    }
}

/// Records a failure on the handle and finishes the call with its
/// description.
fn fail(serv: &mut KclvmService, message: String) -> (step: (CallState, Action))
    ensures
        step.0@ == CallStateView::Finished,
        step.1@ == ActionView::ReturnError(message@),
        final(serv).kclvm_service_err_buffer@ == message@,
        final(serv).plugin_agent == old(serv).plugin_agent,
{
    serv.kclvm_service_err_buffer = message.clone();
    (CallState::Finished, Action::ReturnError(message))
}

/// Takes a call one step further.
///
/// The step resolves the call name, or hands the event to the handler of
/// the method that the name stands for. Whatever goes wrong on the way (an
/// unknown name, an error or a fault of the outside work, a response that
/// cannot cross the boundary, an event out of order) ends the call: the
/// description is written over the handle's error buffer and handed to the
/// caller. A step that does not fail leaves the error buffer alone.
pub fn kclvm_service_call(serv: &mut KclvmService, state: CallState, event: Event) -> (step: (
    CallState,
    Action,
))
    ensures
        (step.0@, step.1@) == spec_call(old(serv).plugin_agent, state@, event@),
        final(serv).kclvm_service_err_buffer@ == spec_error_buffer(
            old(serv).kclvm_service_err_buffer@,
            old(serv).plugin_agent,
            state@,
            event@,
        ),
        final(serv).plugin_agent == old(serv).plugin_agent,
{
    let handled: Result<(CallState, Action), String> = match event {
        Event::Fault(payload) => Err(fault_message(payload)),
        Event::Failed(message) => Err(message),
        event => match state {
            CallState::Idle => match event {
                Event::Invoked(name) => match _kclvm_get_service_fn_ptr_by_name(name.as_str()) {
                    Ok(method) => Ok(
                        (CallState::Running(method, Stage::Decoding), Action::DecodeArgs(method)),
                    ),
                    Err(message) => Err(message),
                },
                _ => Err(String::from_str(UNEXPECTED_EVENT)),
            },
            CallState::Running(method, stage) => {
                let outcome = match method {
                    ServiceMethod::Ping => ping(serv, stage, event),
                    ServiceMethod::ExecProgram => exec_program(serv, stage, event),
                };
                match outcome {
                    Ok(Outcome::Continue(next, action)) => Ok(
                        (CallState::Running(method, next), action),
                    ),
                    Ok(Outcome::Complete(bytes)) => Ok(
                        (CallState::Finished, Action::Return(bytes)),
                    ),
                    Err(message) => Err(message),
                }
            },
            CallState::Finished => Err(String::from_str(UNEXPECTED_EVENT)),
        },
    };
    match handled {
        Ok(step) => step,
        Err(message) => fail(serv, message),
    }
}

} // verus!
