use kclvm_capi::model::gpyrpc::{Ping_Args, Ping_Result};
use kclvm_capi::service::api::{
    kclvm_service_call, kclvm_service_get_error_buffer, kclvm_service_new, ping,
};
use kclvm_capi::service::protocol::{
    Action, CallState, Event, Outcome, ServiceMethod, Stage,
};
use kclvm_capi::service::service::KclvmService;
use protobuf::{CodedInputStream, CodedOutputStream, SpecialFields};

fn encode(value: &str, special_fields: &SpecialFields) -> Vec<u8> {
    let mut bytes = Vec::new();
    {
        let mut os = CodedOutputStream::vec(&mut bytes);
        if !value.is_empty() {
            os.write_string(1, value).unwrap();
        }
        os.write_unknown_fields(special_fields.unknown_fields()).unwrap();
        os.flush().unwrap();
    }
    bytes
}

fn decode(bytes: &[u8]) -> (String, SpecialFields) {
    let mut value = String::new();
    let mut special_fields = SpecialFields::new();
    let mut is = CodedInputStream::from_bytes(bytes);
    while let Some(tag) = is.read_raw_tag_or_eof().unwrap() {
        if tag == 10 {
            value = is.read_string().unwrap();
        } else {
            protobuf::rt::read_unknown_or_skip_group(
                tag,
                &mut is,
                special_fields.mut_unknown_fields(),
            )
            .unwrap();
        }
    }
    (value, special_fields)
}

fn call_ping(serv: &mut KclvmService, request: &[u8]) -> Action {
    let (state, action) = kclvm_service_call(
        serv,
        CallState::Idle,
        Event::Invoked("KclvmService.Ping".to_string()),
    );
    assert_eq!(action, Action::DecodeArgs(ServiceMethod::Ping));
    let (value, special_fields) = decode(request);
    let (state, action) =
        kclvm_service_call(serv, state, Event::PingArgs(Ping_Args { value, special_fields }));
    assert_eq!(state, CallState::Running(ServiceMethod::Ping, Stage::Encoding));
    let response = match action {
        Action::EncodePing(res) => encode(&res.value, &res.special_fields),
        other => panic!("ping asked for {:?}", other),
    };
    let (state, action) = kclvm_service_call(serv, state, Event::Encoded(response));
    assert_eq!(state, CallState::Finished);
    action
}

#[test]
fn ping_answers_with_the_value() {
    let serv = kclvm_service_new(0);
    let args = Ping_Args { value: "hello".to_string(), special_fields: SpecialFields::new() };
    let res = serv.ping(&args);
    assert_eq!(
        res,
        Ping_Result { value: "hello".to_string(), special_fields: SpecialFields::new() }
    );
}

#[test]
fn ping_answers_the_empty_value() {
    let serv = kclvm_service_new(0);
    let args = Ping_Args { value: String::new(), special_fields: SpecialFields::new() };
    let res = serv.ping(&args);
    assert_eq!(res.value, "");
    assert_eq!(res.special_fields, SpecialFields::new());
}

#[test]
fn ping_passes_the_metadata_through() {
    let serv = kclvm_service_new(0);
    let mut special_fields = SpecialFields::new();
    special_fields.mut_unknown_fields().add_varint(7, 300);
    special_fields.mut_unknown_fields().add_length_delimited(9, vec![1, 2, 3]);
    let args = Ping_Args { value: "x".to_string(), special_fields: special_fields.clone() };
    let res = serv.ping(&args);
    assert_eq!(res.value, "x");
    assert_eq!(res.special_fields, special_fields);
    assert_ne!(res.special_fields, SpecialFields::new());
    assert_eq!(
        res.special_fields.unknown_fields().get(7),
        Some(protobuf::UnknownValueRef::Varint(300))
    );
}

#[test]
fn a_ping_call_returns_the_encoded_echo() {
    let mut serv = kclvm_service_new(0);
    for value in ["hello", "", "a longer value with \u{e9}\u{1f600} in it", "line\nbreak"] {
        let request = encode(value, &SpecialFields::new());
        let action = call_ping(&mut serv, &request);
        let response = match action {
            Action::Return(bytes) => bytes,
            other => panic!("ping ended in {:?}", other),
        };
        assert_eq!(response, request);
        assert_eq!(decode(&response).0, value);
        assert_eq!(kclvm_service_get_error_buffer(&serv), "");
    }
}

#[test]
fn a_ping_call_returns_exact_bytes() {
    let mut serv = kclvm_service_new(0);
    let action = call_ping(&mut serv, &[10, 2, b'o', b'k']);
    assert_eq!(action, Action::Return(vec![10, 2, b'o', b'k']));
    let action = call_ping(&mut serv, &[]);
    assert_eq!(action, Action::Return(vec![]));
}

#[test]
fn a_ping_call_keeps_unknown_fields() {
    let mut serv = kclvm_service_new(0);
    let mut special_fields = SpecialFields::new();
    special_fields.mut_unknown_fields().add_varint(5, 42);
    let request = encode("v", &special_fields);
    assert_eq!(request, vec![10, 1, b'v', 40, 42]);
    let action = call_ping(&mut serv, &request);
    assert_eq!(action, Action::Return(vec![10, 1, b'v', 40, 42]));
}

#[test]
fn a_ping_whose_response_holds_a_nul_byte_fails() {
    let mut serv = kclvm_service_new(0);
    let request = encode("a\0b", &SpecialFields::new());
    let action = call_ping(&mut serv, &request);
    assert_eq!(action, Action::ReturnError("nul byte found in response data".to_string()));
    assert_eq!(kclvm_service_get_error_buffer(&serv), "nul byte found in response data");
}

#[test]
fn the_ping_handler_takes_its_steps() {
    let serv = kclvm_service_new(0);
    let args = Ping_Args { value: "v".to_string(), special_fields: SpecialFields::new() };
    assert_eq!(
        ping(&serv, Stage::Decoding, Event::PingArgs(args)),
        Ok(Outcome::Continue(
            Stage::Encoding,
            Action::EncodePing(Ping_Result {
                value: "v".to_string(),
                special_fields: SpecialFields::new()
            })
        ))
    );
    assert_eq!(
        ping(&serv, Stage::Encoding, Event::Encoded(vec![10, 1, b'v'])),
        Ok(Outcome::Complete(vec![10, 1, b'v']))
    );
    assert_eq!(
        ping(&serv, Stage::Encoding, Event::Encoded(vec![10, 1, 0])),
        Err("nul byte found in response data".to_string())
    );
    assert_eq!(
        ping(&serv, Stage::Decoding, Event::Failed("malformed".to_string())),
        Err("malformed".to_string())
    );
}

#[test]
fn the_ping_handler_refuses_events_out_of_order() {
    let serv = kclvm_service_new(0);
    let unexpected = Err("event does not fit the state of the call".to_string());
    let args = Ping_Args { value: "v".to_string(), special_fields: SpecialFields::new() };
    assert_eq!(ping(&serv, Stage::Encoding, Event::PingArgs(args.clone())), unexpected);
    assert_eq!(
        ping(&serv, Stage::Loading { disable_yaml_result: false }, Event::PingArgs(args)),
        unexpected
    );
    assert_eq!(ping(&serv, Stage::Decoding, Event::Encoded(vec![1])), unexpected);
    assert_eq!(ping(&serv, Stage::Decoding, Event::Loaded), unexpected);
    assert_eq!(ping(&serv, Stage::Decoding, Event::Executed("{}".to_string())), unexpected);
    assert_eq!(ping(&serv, Stage::Decoding, Event::Marker(None)), unexpected);
    assert_eq!(ping(&serv, Stage::Decoding, Event::Invoked("x".to_string())), unexpected);
}

#[test]
fn a_malformed_ping_request_fails_the_call() {
    let mut serv = kclvm_service_new(0);
    let (state, _) = kclvm_service_call(
        &mut serv,
        CallState::Idle,
        Event::Invoked("KclvmService.Ping".to_string()),
    );
    let mut is = CodedInputStream::from_bytes(&[10, 5, b'x']);
    is.read_raw_tag_or_eof().unwrap();
    let error = is.read_string().unwrap_err().to_string();
    let step = kclvm_service_call(&mut serv, state, Event::Failed(error.clone()));
    assert_eq!(step, (CallState::Finished, Action::ReturnError(error.clone())));
    assert!(!error.is_empty());
    assert_eq!(kclvm_service_get_error_buffer(&serv), error);
}
