use std::cell::Cell;
use std::rc::Rc;

use vib_macros::wrapper::{build_module, format_error, respond};

#[test]
fn error_reply_carries_prefix_and_description() {
    assert_eq!(format_error("boom"), "ERROR: boom");
    assert_eq!(format_error(""), "ERROR: ");
}

#[test]
fn respond_returns_worker_result_when_both_decoded() {
    let out = respond(
        Ok::<i32, String>(40),
        Ok::<i32, String>(2),
        |a: i32, b: i32| format!("sum={}", a + b),
    );
    assert_eq!(out, "sum=42");
}

#[test]
fn respond_reports_module_failure_and_skips_worker() {
    let called = Rc::new(Cell::new(false));
    let seen = called.clone();
    let out = respond(
        Err::<i32, String>("bad module".to_string()),
        Ok::<i32, String>(2),
        move |_a: i32, _b: i32| {
            seen.set(true);
            "unreachable".to_string()
        },
    );
    assert_eq!(out, "ERROR: bad module");
    assert!(!called.get());
}

#[test]
fn respond_reports_recipe_failure_and_skips_worker() {
    let called = Rc::new(Cell::new(false));
    let seen = called.clone();
    let out = respond(
        Ok::<i32, String>(1),
        Err::<i32, String>("bad recipe".to_string()),
        move |_a: i32, _b: i32| {
            seen.set(true);
            "unreachable".to_string()
        },
    );
    assert_eq!(out, "ERROR: bad recipe");
    assert!(!called.get());
}

#[test]
fn build_module_returns_worker_result_on_valid_payloads() {
    let out = build_module(
        "{\"threads\": 4}",
        "[\"step one\", \"step two\"]",
        |m: serde_json::Value, r: serde_json::Value| {
            format!("{}:{}", m["threads"], r[1])
        },
    );
    assert_eq!(out, "4:\"step two\"");
}

#[test]
fn build_module_reports_invalid_module_payload() {
    let called = Rc::new(Cell::new(false));
    let seen = called.clone();
    let out = build_module(
        "{not json",
        "[1, 2]",
        move |_m: serde_json::Value, _r: serde_json::Value| {
            seen.set(true);
            "unreachable".to_string()
        },
    );
    assert!(out.starts_with("ERROR: "));
    assert!(!called.get());
}

#[test]
fn build_module_reports_invalid_recipe_payload() {
    let called = Rc::new(Cell::new(false));
    let seen = called.clone();
    let out = build_module(
        "{\"ok\": true}",
        "{not json",
        move |_m: serde_json::Value, _r: serde_json::Value| {
            seen.set(true);
            "unreachable".to_string()
        },
    );
    assert!(out.starts_with("ERROR: "));
    assert!(!called.get());
}
