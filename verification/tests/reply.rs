use srvcs_percentile::outcome::{dependency_outcome, DepReply};
use srvcs_percentile::reply::{degraded, forward, no_result, PercentileResponse, Reply};
use srvcs_percentile::service::Dependency;

type R = Reply<i64, f64, String>;

#[test]
fn statuses_of_replies() {
    assert_eq!(R::Computed(PercentileResponse { values: vec![1, 2], p: 50.0, result: 1.5 }).status(), 200);
    assert_eq!(R::EmptyValues.status(), 422);
    assert_eq!(no_result::<i64, f64, String>(Dependency::FloatAdd).status(), 500);
    assert_eq!(degraded::<i64, f64, String>(Dependency::FloatAdd).status(), 503);
    assert_eq!(forward::<i64, f64, String>(422, "x".to_string()).status(), 422);
}

#[test]
fn forward_keeps_valid_status_and_body() {
    match forward::<i64, f64, String>(422, "{\"error\":\"bad\"}".to_string()) {
        Reply::Forwarded { status, body } => {
            assert_eq!(status, 422);
            assert_eq!(body, "{\"error\":\"bad\"}");
        }
        _ => panic!("expected a forwarded reply"),
    }
    match forward::<i64, f64, String>(999, String::new()) {
        Reply::Forwarded { status, .. } => assert_eq!(status, 999),
        _ => panic!("expected a forwarded reply"),
    }
    match forward::<i64, f64, String>(100, String::new()) {
        Reply::Forwarded { status, .. } => assert_eq!(status, 100),
        _ => panic!("expected a forwarded reply"),
    }
}

#[test]
fn forward_of_invalid_status_is_bad_gateway() {
    for code in [0u16, 42, 99, 1000, 65535] {
        match forward::<i64, f64, String>(code, String::new()) {
            Reply::Forwarded { status, .. } => assert_eq!(status, 502),
            _ => panic!("expected a forwarded reply"),
        }
    }
}

#[test]
fn error_messages() {
    assert_eq!(
        R::EmptyValues.error_message().as_deref(),
        Some("values must be a non-empty list")
    );
    assert_eq!(
        no_result::<i64, f64, String>(Dependency::SortAscending)
            .error_message()
            .as_deref(),
        Some("srvcs-sortascending returned no usable result")
    );
    assert_eq!(
        degraded::<i64, f64, String>(Dependency::FloatMultiply)
            .error_message()
            .as_deref(),
        Some("dependency unavailable")
    );
    assert_eq!(R::Computed(PercentileResponse { values: vec![2], p: 10.0, result: 2.0 }).error_message(), None);
    assert_eq!(forward::<i64, f64, String>(422, String::new()).error_message(), None);
}

fn outcome(reply: DepReply<f64, String>) -> Result<f64, R> {
    dependency_outcome(Dependency::FloatAdd, reply)
}

#[test]
fn usable_result_is_taken() {
    let r = outcome(DepReply::Answered { status: 200, result: Some(2.5), body: String::new() });
    assert_eq!(r.ok(), Some(2.5));
}

#[test]
fn missing_result_is_no_result() {
    let r = outcome(DepReply::Answered { status: 200, result: None, body: String::new() });
    match r {
        Err(Reply::NoResult { dependency }) => assert_eq!(dependency, Dependency::FloatAdd),
        _ => panic!("expected no usable result"),
    }
}

#[test]
fn rejection_is_forwarded_verbatim() {
    let body = "{\"error\":\"element is not an integer\"}".to_string();
    let r = outcome(DepReply::Answered { status: 422, result: Some(1.0), body: body.clone() });
    match r {
        Err(Reply::Forwarded { status, body: b }) => {
            assert_eq!(status, 422);
            assert_eq!(b, body);
        }
        _ => panic!("expected the rejection to be forwarded"),
    }
}

#[test]
fn other_statuses_degrade() {
    for status in [201u16, 400, 404, 500, 502] {
        let r = outcome(DepReply::Answered { status, result: Some(1.0), body: String::new() });
        match r {
            Err(Reply::Degraded { dependency }) => assert_eq!(dependency, Dependency::FloatAdd),
            _ => panic!("expected degraded"),
        }
    }
}

#[test]
fn unreachable_degrades() {
    match outcome(DepReply::Unreachable) {
        Err(Reply::Degraded { dependency }) => assert_eq!(dependency, Dependency::FloatAdd),
        _ => panic!("expected degraded"),
    }
}
