//! The service handle and the typed methods behind the boundary.

use crate::model::gpyrpc::{ExecProgramResultView, ExecProgram_Result, PingView, Ping_Args, Ping_Result};
use crate::service::path::{kcl_paths, spec_kcl_paths};
use crate::service::protocol::{Action, ActionView, Event, EventView, Stage, StageView};
use vstd::prelude::*;
use vstd::string::*;

verus! {

/// The key under which a result document reports that the program failed.
pub const KCL_PANIC_INFO: &'static str = "__kcl_PanicInfo__";

/// The description of a call that was driven out of order.
pub const UNEXPECTED_EVENT: &'static str = "event does not fit the state of the call";

/// The state behind a service handle.
#[derive(Clone, Debug, PartialEq, Eq)]
pub struct KclvmService {
    /// The description of the most recent failed call; empty where there is
    /// none. A failure overwrites it; only clearing empties it.
    pub kclvm_service_err_buffer: String,
    /// The channel through which a running program reaches its extensions.
    pub plugin_agent: u64,
}

impl Default for KclvmService {
    fn default() -> (serv: Self)
        ensures
            serv.kclvm_service_err_buffer@ == Seq::<char>::empty(),
            serv.plugin_agent == 0,
    {
        KclvmService { kclvm_service_err_buffer: String::new(), plugin_agent: 0 }
    }
}

/// What `ping` answers: the request itself, metadata included.
pub open spec fn spec_ping(args: PingView) -> PingView {
    args
}

/// One step of `exec_program`: the next stage and the work to ask for, or
/// the description of the failure.
///
/// The files are resolved against the working directory and loaded, the
/// program is run, the result document is searched for the failure marker
/// and, where that is absent or not truthy, rendered. A truthy marker fails
/// the call with the whole document as its description. The readable
/// rendering is left empty where the request disabled it.
pub open spec fn spec_exec_program(agent: u64, stage: StageView, event: EventView) -> Result<
    (StageView, ActionView),
    Seq<char>,
> {
    match (stage, event) {
        (_, EventView::Failed(message)) => Err(message),
        (StageView::Decoding, EventView::ExecProgramArgs(args)) => Ok(
            (
                StageView::Loading { disable_yaml_result: args.disable_yaml_result },
                ActionView::LoadProgram(spec_kcl_paths(args.work_dir, args.k_filename_list)),
            ),
        ),
        (StageView::Loading { disable_yaml_result }, EventView::Loaded) => Ok(
            (StageView::Executing { disable_yaml_result }, ActionView::Execute(agent)),
        ),
        (StageView::Executing { disable_yaml_result }, EventView::Executed(document)) => Ok(
            (
                StageView::Inspecting { document, disable_yaml_result },
                ActionView::FindMarker { document, key: KCL_PANIC_INFO@ },
            ),
        ),
        (StageView::Inspecting { document, disable_yaml_result }, EventView::Marker(marker)) => {
            if marker == Some(true) {
                Err(document)
            } else {
                Ok((StageView::Planning { disable_yaml_result }, ActionView::Plan(document)))
            }
        },
        (
            StageView::Planning { disable_yaml_result },
            EventView::Planned { json_result, yaml_result, escaped_time },
        ) => Ok(
            (
                StageView::Encoding,
                ActionView::EncodeExecProgram(
                    ExecProgramResultView {
                        json_result,
                        yaml_result: if disable_yaml_result {
                            Seq::empty()
                        } else {
                            yaml_result
                        },
                        escaped_time,
                    },
                ),
            ),
        ),
        _ => Err(UNEXPECTED_EVENT@),
    }
}

impl KclvmService {
    /// Answers a ping with the value and the metadata it came with.
    pub fn ping(&self, args: &Ping_Args) -> (res: Ping_Result)
        ensures
            res@ == spec_ping(args@),
    {
        Ping_Result { value: args.value.clone(), special_fields: args.special_fields.clone() }
    }

    /// Takes `ExecProgram` one step further: reads what the last piece of
    /// outside work delivered and asks for the next one, ending with the
    /// request to encode the result. An error stops the run and is handed
    /// back as its description.
    pub fn exec_program(&self, stage: Stage, event: Event) -> (res: Result<(Stage, Action), String>)
        ensures
            match spec_exec_program(self.plugin_agent, stage@, event@) {
                Ok(step) => res is Ok && (res->Ok_0.0@, res->Ok_0.1@) == step,
                Err(message) => res is Err && res->Err_0@ == message,
            },
    {
        match event {
            Event::Failed(message) => Err(message),
            Event::ExecProgramArgs(args) => match stage {
                Stage::Decoding => {
                    let paths = kcl_paths(args.work_dir.as_str(), &args.k_filename_list);
                    Ok(
                        (
                            Stage::Loading { disable_yaml_result: args.disable_yaml_result },
                            Action::LoadProgram(paths),
                        ),
                    )
                },
                _ => Err(String::from_str(UNEXPECTED_EVENT)),
            },
            Event::Loaded => match stage {
                Stage::Loading { disable_yaml_result } => Ok(
                    (Stage::Executing { disable_yaml_result }, Action::Execute(self.plugin_agent)),
                ),
                _ => Err(String::from_str(UNEXPECTED_EVENT)),
            },
            Event::Executed(document) => match stage {
                Stage::Executing { disable_yaml_result } => {
                    let inspected = document.clone();
                    Ok(
                        (
                            Stage::Inspecting { document, disable_yaml_result },
                            Action::FindMarker {
                                document: inspected,
                                key: String::from_str(KCL_PANIC_INFO),
                            },
                        ),
                    )
                },
                _ => Err(String::from_str(UNEXPECTED_EVENT)),
            },
            Event::Marker(marker) => match stage {
                Stage::Inspecting { document, disable_yaml_result } => {
                    match marker {
                        Some(true) => Err(document),
                        _ => Ok((Stage::Planning { disable_yaml_result }, Action::Plan(document))),
                    }
                },
                _ => Err(String::from_str(UNEXPECTED_EVENT)),
            },
            Event::Planned { json_result, yaml_result, escaped_time } => match stage {
                Stage::Planning { disable_yaml_result } => {
                    let mut result = ExecProgram_Result {
                        json_result,
                        yaml_result: String::new(),
                        escaped_time,
                    };
                    if !disable_yaml_result {
                        result.yaml_result = yaml_result;
                    }
                    Ok((Stage::Encoding, Action::EncodeExecProgram(result)))
                },
                _ => Err(String::from_str(UNEXPECTED_EVENT)),
            },
            _ => Err(String::from_str(UNEXPECTED_EVENT)),
        }
    }
}

} // verus!
