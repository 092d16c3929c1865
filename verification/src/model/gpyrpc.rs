//! Argument and result messages of the service's methods, as plain values.

#![allow(non_camel_case_types)]

use vstd::prelude::*;

verus! {

/// `protobuf::SpecialFields`: the unknown fields and the cached size that
/// every message carries. The library never looks inside; it only hands the
/// value on.
#[verifier::external_type_specification]
#[verifier::external_body]
pub struct ExSpecialFields(protobuf::SpecialFields);

/// `<protobuf::SpecialFields as Clone>::clone`, which is derived: it clones
/// the unknown fields and the cached size. The contract claims that the copy
/// is the same value as the one it was made from.
pub assume_specification[ <protobuf::SpecialFields as Clone>::clone ](
    fields: &protobuf::SpecialFields,
) -> (copy: protobuf::SpecialFields)
    ensures
        copy == *fields,
;

/// Argument of `Ping`.
#[derive(Clone, Debug, PartialEq, Eq)]
pub struct Ping_Args {
    pub value: String,
    pub special_fields: protobuf::SpecialFields,
}

/// Result of `Ping`.
#[derive(Clone, Debug, PartialEq, Eq)]
pub struct Ping_Result {
    pub value: String,
    pub special_fields: protobuf::SpecialFields,
}

/// A `Ping` message as a mathematical value; argument and result have the
/// same shape.
pub struct PingView {
    pub value: Seq<char>,
    pub special_fields: protobuf::SpecialFields,
}

impl View for Ping_Args {
    type V = PingView;

    open spec fn view(&self) -> PingView {
        PingView { value: self.value@, special_fields: self.special_fields }
    }
}

impl View for Ping_Result {
    type V = PingView;

    open spec fn view(&self) -> PingView {
        PingView { value: self.value@, special_fields: self.special_fields }
    }
}

/// Argument of `ExecProgram`: the source files to run, each relative to the
/// working directory, and whether the readable rendering is wanted.
#[derive(Clone, Debug, PartialEq, Eq)]
pub struct ExecProgram_Args {
    pub work_dir: String,
    pub k_filename_list: Vec<String>,
    pub disable_yaml_result: bool,
}

/// Result of `ExecProgram`: the structured rendering, the readable rendering
/// and the time the run took.
#[derive(Clone, Debug, PartialEq, Eq)]
pub struct ExecProgram_Result {
    pub json_result: String,
    pub yaml_result: String,
    pub escaped_time: String,
}

pub struct ExecProgramArgsView {
    pub work_dir: Seq<char>,
    pub k_filename_list: Seq<Seq<char>>,
    pub disable_yaml_result: bool,
}

pub struct ExecProgramResultView {
    pub json_result: Seq<char>,
    pub yaml_result: Seq<char>,
    pub escaped_time: Seq<char>,
}

impl View for ExecProgram_Args {
    type V = ExecProgramArgsView;

    open spec fn view(&self) -> ExecProgramArgsView {
        ExecProgramArgsView {
            work_dir: self.work_dir@,
            k_filename_list: self.k_filename_list.deep_view(),
            disable_yaml_result: self.disable_yaml_result,
        }
    }
}

impl View for ExecProgram_Result {
    type V = ExecProgramResultView;

    open spec fn view(&self) -> ExecProgramResultView {
        ExecProgramResultView {
            json_result: self.json_result@,
            yaml_result: self.yaml_result@,
            escaped_time: self.escaped_time@,
        }
    }
}

} // verus!
