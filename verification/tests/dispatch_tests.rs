use builder_relay::builders::{BuilderError, BuilderKind};
use builder_relay::dispatch::{
    broadcast_verdict, interpret_exchange, reduce_outcomes, Attempt, DispatchResult, Exchange,
    SendOutcome,
};

fn ok_body() -> String {
    String::from("{\"result\":\"0x1\"}")
}

fn error_body() -> String {
    String::from("{\"error\":{\"code\":-32000,\"message\":\"rejected\"}}")
}

#[test]
fn plain_body_is_accepted() {
    let outcome = interpret_exchange(Exchange::Completed(ok_body()));
    assert_eq!(outcome, SendOutcome::Accepted);
}

#[test]
fn null_body_is_accepted() {
    let outcome = interpret_exchange(Exchange::Completed(String::from("null")));
    assert_eq!(outcome, SendOutcome::Accepted);
}

#[test]
fn error_field_is_protocol_failure() {
    let outcome = interpret_exchange(Exchange::Completed(error_body()));
    assert_eq!(outcome, SendOutcome::Failed(BuilderError::InvalidResponse(error_body())));
}

#[test]
fn undecodable_body_is_transport_failure() {
    let outcome = interpret_exchange(Exchange::Completed(String::from("not json at all")));
    assert_eq!(
        outcome,
        SendOutcome::Failed(BuilderError::Client(String::from("not json at all")))
    );
}

#[test]
fn failed_exchange_is_transport_failure() {
    let outcome = interpret_exchange(Exchange::Failed(String::from("connection refused")));
    assert_eq!(
        outcome,
        SendOutcome::Failed(BuilderError::Client(String::from("connection refused")))
    );
}

#[test]
fn success_when_one_builder_accepts() {
    let exchanges = vec![
        (BuilderKind::Titan, Exchange::Failed(String::from("connection refused"))),
        (BuilderKind::Beaver, Exchange::Completed(ok_body())),
        (BuilderKind::Rsync, Exchange::Completed(error_body())),
    ];
    assert_eq!(broadcast_verdict(exchanges), DispatchResult::Success);
}

#[test]
fn mixed_outcomes_scenario() {
    // Titan: HTTP 200 with no error field; Beaver: HTTP 200 with an error
    // field; Rsync: connection refused. The dispatch succeeds, and two of
    // the three attempts are recorded failures.
    let exchanges = vec![
        (BuilderKind::Titan, Exchange::Completed(ok_body())),
        (BuilderKind::Beaver, Exchange::Completed(error_body())),
        (BuilderKind::Rsync, Exchange::Failed(String::from("connection refused"))),
    ];
    let mut failures = 0;
    for (_, ex) in &exchanges {
        let outcome = interpret_exchange(clone_exchange(ex));
        if !matches!(outcome, SendOutcome::Accepted) {
            failures += 1;
        }
    }
    assert_eq!(failures, 2);
    assert_eq!(broadcast_verdict(exchanges), DispatchResult::Success);
}

fn clone_exchange(ex: &Exchange) -> Exchange {
    match ex {
        Exchange::Failed(m) => Exchange::Failed(m.clone()),
        Exchange::Completed(b) => Exchange::Completed(b.clone()),
    }
}

#[test]
fn all_protocol_errors_fail() {
    let exchanges = vec![
        (BuilderKind::Titan, Exchange::Completed(error_body())),
        (BuilderKind::Beaver, Exchange::Completed(error_body())),
        (BuilderKind::Rsync, Exchange::Completed(error_body())),
    ];
    match broadcast_verdict(exchanges) {
        DispatchResult::AllFailed(attempts) => {
            assert_eq!(attempts.len(), 3);
            assert_eq!(attempts[0].kind, BuilderKind::Titan);
            assert_eq!(attempts[1].kind, BuilderKind::Beaver);
            assert_eq!(attempts[2].kind, BuilderKind::Rsync);
            for a in &attempts {
                assert!(matches!(a.outcome, SendOutcome::Failed(BuilderError::InvalidResponse(_))));
            }
        }
        DispatchResult::Success => panic!("expected AllFailed"),
    }
}

#[test]
fn all_transport_errors_fail() {
    // All three builders refuse the connection: AllFailed with three
    // transport-kind reasons.
    let exchanges = vec![
        (BuilderKind::Titan, Exchange::Failed(String::from("connection refused"))),
        (BuilderKind::Beaver, Exchange::Failed(String::from("connection refused"))),
        (BuilderKind::Rsync, Exchange::Failed(String::from("connection refused"))),
    ];
    match broadcast_verdict(exchanges) {
        DispatchResult::AllFailed(attempts) => {
            assert_eq!(attempts.len(), 3);
            for a in &attempts {
                assert!(matches!(a.outcome, SendOutcome::Failed(BuilderError::Client(_))));
            }
        }
        DispatchResult::Success => panic!("expected AllFailed"),
    }
}

#[test]
fn empty_batch_fails_with_zero_outcomes() {
    let exchanges: Vec<(BuilderKind, Exchange)> = Vec::new();
    match broadcast_verdict(exchanges) {
        DispatchResult::AllFailed(attempts) => assert_eq!(attempts.len(), 0),
        DispatchResult::Success => panic!("expected AllFailed"),
    }
}

#[test]
fn reduction_is_order_independent() {
    let forward = vec![
        Attempt { kind: BuilderKind::Titan, outcome: SendOutcome::Accepted },
        Attempt {
            kind: BuilderKind::Beaver,
            outcome: SendOutcome::Failed(BuilderError::Client(String::from("x"))),
        },
    ];
    let backward = vec![
        Attempt {
            kind: BuilderKind::Beaver,
            outcome: SendOutcome::Failed(BuilderError::Client(String::from("x"))),
        },
        Attempt { kind: BuilderKind::Titan, outcome: SendOutcome::Accepted },
    ];
    assert_eq!(reduce_outcomes(forward), DispatchResult::Success);
    assert_eq!(reduce_outcomes(backward), DispatchResult::Success);
}
