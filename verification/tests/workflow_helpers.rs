use std::time::Duration;

use temporal::decode::SignalDecodeError;
use temporal::workflow::{
    decode_activity_output, decode_signal_batch, decode_signal_input, decode_workflow_input,
    ActivityOutputError, TimerOptions, TimerResult, WorkflowInputError,
};

/// A payload as Temporal carries it: metadata and data bytes.
#[derive(Debug, Clone)]
struct Payload {
    metadata: Vec<(String, Vec<u8>)>,
    data: Vec<u8>,
}

fn as_json_payload(value: &serde_json::Value) -> Payload {
    Payload {
        metadata: vec![("encoding".to_string(), b"json/plain".to_vec())],
        data: serde_json::to_vec(value).unwrap(),
    }
}

fn from_json_payload(payload: Payload) -> Result<serde_json::Value, String> {
    let is_json = payload
        .metadata
        .iter()
        .any(|(k, v)| k == "encoding" && v.as_slice() == b"json/plain");
    if !is_json {
        return Err("deserializer does not handle this payload".to_string());
    }
    serde_json::from_slice(&payload.data).map_err(|e| e.to_string())
}

fn test_signal_input(value: &str) -> serde_json::Value {
    let mut map = serde_json::Map::new();
    map.insert("value".to_string(), serde_json::Value::String(value.to_string()));
    serde_json::Value::Object(map)
}

#[test]
fn timer_options_from_duration_sets_duration() {
    let duration = Duration::from_secs(30);

    let options = TimerOptions::from(duration);

    assert_eq!(options.duration, duration);
    assert_eq!(options.summary, None);
}

#[test]
fn decodes_single_json_payload() {
    let expected = test_signal_input("hello");
    let signal = vec![as_json_payload(&expected)];

    let decoded = decode_signal_input("test-signal", signal, &from_json_payload).unwrap();

    assert_eq!(decoded, expected);
}

#[test]
fn errors_on_empty_signal_payload() {
    let signal: Vec<Payload> = Vec::new();

    assert!(decode_signal_input("test-signal", signal, &from_json_payload).is_err());
}

#[test]
fn errors_on_multiple_signal_payloads() {
    let input = test_signal_input("hello");
    let signal = vec![as_json_payload(&input), as_json_payload(&input)];

    assert!(decode_signal_input("test-signal", signal, &from_json_payload).is_err());
}

#[test]
fn errors_on_non_json_signal_payload() {
    let signal = vec![Payload {
        metadata: Default::default(),
        data: b"not-json".to_vec(),
    }];

    assert!(decode_signal_input("test-signal", signal, &from_json_payload).is_err());
}

#[test]
fn signal_rejections_name_the_signal() {
    match decode_signal_input("rename", Vec::<Payload>::new(), &from_json_payload) {
        Err(SignalDecodeError::Rejected { message }) => {
            assert_eq!(message, "signal `rename` did not include an input payload")
        }
        other => panic!("unexpected {:?}", other),
    }
    let input = test_signal_input("x");
    let three = vec![as_json_payload(&input), as_json_payload(&input), as_json_payload(&input)];
    match decode_signal_input("rename", three, &from_json_payload) {
        Err(SignalDecodeError::Rejected { message }) => assert_eq!(
            message,
            "signal `rename` included 3 input payloads; expected exactly one"
        ),
        other => panic!("unexpected {:?}", other),
    }
    let bad = vec![Payload { metadata: vec![("encoding".to_string(), b"json/plain".to_vec())], data: b"{".to_vec() }];
    assert!(matches!(
        decode_signal_input("rename", bad, &from_json_payload),
        Err(SignalDecodeError::Payload(_))
    ));
}

#[test]
fn signal_batch_keeps_order_and_count() {
    let a = test_signal_input("a");
    let b = test_signal_input("b");
    let batch = vec![vec![as_json_payload(&a)], vec![], vec![as_json_payload(&b)]];
    let decoded = decode_signal_batch("s", batch, &from_json_payload);
    assert_eq!(decoded.len(), 3);
    assert_eq!(decoded[0].as_ref().unwrap(), &a);
    assert!(decoded[1].is_err());
    assert_eq!(decoded[2].as_ref().unwrap(), &b);
}

#[test]
fn activity_output_requires_a_payload() {
    match decode_activity_output(None::<Payload>, from_json_payload) {
        Err(ActivityOutputError::MissingPayload { message }) => {
            assert_eq!(message, "activity completed without payload")
        }
        other => panic!("unexpected {:?}", other),
    }
    let v = test_signal_input("done");
    assert_eq!(decode_activity_output(Some(as_json_payload(&v)), from_json_payload).unwrap(), v);
}

#[test]
fn workflow_input_is_the_first_argument() {
    match decode_workflow_input(Vec::<Payload>::new(), from_json_payload) {
        Err(WorkflowInputError::NoArguments { message }) => assert_eq!(message, "no arguments"),
        other => panic!("unexpected {:?}", other),
    }
    let first = test_signal_input("first");
    let second = test_signal_input("second");
    let args = vec![as_json_payload(&first), as_json_payload(&second)];
    assert_eq!(decode_workflow_input(args, from_json_payload).unwrap(), first);
    let bad = vec![Payload { metadata: vec![], data: b"1".to_vec() }];
    assert!(matches!(
        decode_workflow_input(bad, from_json_payload),
        Err(WorkflowInputError::InvalidPayload(_))
    ));
}

#[test]
fn timer_results_compare() {
    assert_eq!(TimerResult::Fired, TimerResult::Fired);
    assert_ne!(TimerResult::Fired, TimerResult::Cancelled);
    let default = TimerOptions::default();
    assert_eq!(default.duration, Duration::ZERO);
    assert_eq!(default.summary, None);
}
