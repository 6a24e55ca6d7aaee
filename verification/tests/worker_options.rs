use std::num::IntErrorKind;

use temporal::text::{parse_usize, usize_to_decimal, ParseUsizeError};

fn std_parse(s: &str) -> Result<usize, ParseUsizeError> {
    s.parse::<usize>().map_err(|e| match e.kind() {
        IntErrorKind::Empty => ParseUsizeError::Empty,
        IntErrorKind::InvalidDigit => ParseUsizeError::InvalidDigit,
        IntErrorKind::PosOverflow => ParseUsizeError::PosOverflow,
        other => panic!("unexpected kind {:?}", other),
    })
}
use temporal::worker::{default_build_id, invalid_address_context, WorkerOptions, WorkerOptionsError};

#[test]
fn new_uses_documented_defaults() {
    let options = WorkerOptions::new("http://localhost:7233");
    assert_eq!(options.temporal_address, "http://localhost:7233");
    assert_eq!(options.namespace, "default");
    assert_eq!(options.task_queue, "default-task-queue");
    assert_eq!(options.max_concurrent_activities, 16);
    assert_eq!(options.build_id, "temporal-dev");
    assert_eq!(default_build_id(), "temporal-dev");
}

#[test]
fn builders_set_one_field_each() {
    let options = WorkerOptions::new("addr")
        .with_namespace("ns")
        .with_task_queue("tq")
        .with_max_concurrent_activities(3)
        .with_build_id("b1");
    assert_eq!(options.temporal_address, "addr");
    assert_eq!(options.namespace, "ns");
    assert_eq!(options.task_queue, "tq");
    assert_eq!(options.max_concurrent_activities, 3);
    assert_eq!(options.build_id, "b1");
}

#[test]
fn env_with_only_address_equals_new() {
    let from_env = WorkerOptions::from_env_values(Some("addr".to_string()), None, None, None, None).unwrap();
    let new = WorkerOptions::new("addr");
    assert_eq!(from_env.temporal_address, new.temporal_address);
    assert_eq!(from_env.namespace, new.namespace);
    assert_eq!(from_env.task_queue, new.task_queue);
    assert_eq!(from_env.max_concurrent_activities, new.max_concurrent_activities);
    assert_eq!(from_env.build_id, new.build_id);
}

#[test]
fn env_values_override_defaults() {
    let options = WorkerOptions::from_env_values(
        Some("addr".to_string()),
        Some("ns".to_string()),
        Some("tq".to_string()),
        Some("+32".to_string()),
        Some("build-9".to_string()),
    )
    .unwrap();
    assert_eq!(options.namespace, "ns");
    assert_eq!(options.task_queue, "tq");
    assert_eq!(options.max_concurrent_activities, 32);
    assert_eq!(options.build_id, "build-9");
}

#[test]
fn env_without_address_is_refused() {
    let err = WorkerOptions::from_env_values(None, None, None, Some("oops".to_string()), None).unwrap_err();
    assert!(matches!(err, WorkerOptionsError::MissingAddress));
    assert_eq!(err.message(), "missing TEMPORAL_ADDRESS");
}

#[test]
fn env_with_bad_max_is_refused() {
    for bad in ["", "+", "-1", " 4", "4 ", "1x", "18446744073709551616", "99999999999999999999999"] {
        let err = WorkerOptions::from_env_values(Some("a".to_string()), None, None, Some(bad.to_string()), None)
            .unwrap_err();
        match &err {
            WorkerOptionsError::InvalidMaxConcurrentActivities { value, kind } => {
                assert_eq!(value, bad);
                assert_eq!(Err(*kind), std_parse(bad));
                assert_eq!(kind.describe(), bad.parse::<usize>().unwrap_err().to_string());
            }
            other => panic!("unexpected {:?}", other),
        }
        assert_eq!(
            err.message(),
            format!("failed to parse TEMPORAL_MAX_CONCURRENT_ACTIVITIES as usize: {bad}")
        );
    }
}

#[test]
fn parse_usize_agrees_with_std() {
    let samples = [
        "", "0", "7", "+7", "++7", "-0", "007", "12a", "１", "18446744073709551615", "18446744073709551616",
        "340282366920938463463374607431768211456", "4294967295", "+", "-", " ", "10 ",
        "99999999999999999999x", "1x99999999999999999999",
    ];
    for s in samples {
        assert_eq!(parse_usize(s), std_parse(s), "input {s:?}");
    }
}

#[test]
fn decimal_roundtrips_through_parse() {
    for n in [0usize, 1, 9, 10, 16, 99, 100, 12345, usize::MAX] {
        let text = usize_to_decimal(n);
        assert_eq!(text, n.to_string());
        assert_eq!(parse_usize(&text), Ok(n));
    }
}

#[test]
fn invalid_address_context_names_address() {
    assert_eq!(invalid_address_context("not a url"), "invalid temporal address: not a url");
}

#[test]
fn env_max_from_decimal_rendering() {
    for n in [0usize, 5, 16, 4096, usize::MAX] {
        let options = WorkerOptions::from_env_values(
            Some("addr".to_string()),
            None,
            None,
            Some(usize_to_decimal(n)),
            None,
        )
        .unwrap();
        assert_eq!(options.max_concurrent_activities, n);
    }
}
