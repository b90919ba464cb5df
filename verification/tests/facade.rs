use alloy_primitives::B256;
use private_transaction::builder::{BuilderError, MAX_BODY_SIZE};
use private_transaction::diagnostic::{Diagnostic, DiagnosticEvent, Severity};
use private_transaction::error::{PrivateTransactionError, RequestError, TxError};
use private_transaction::facade::{Action, EthPrivateTransaction, Event, Roster, Stage};
use private_transaction::kind::BuilderKind;

fn json(text: &str) -> serde_json::Value {
    serde_json::from_str(text).unwrap()
}

fn construction_failure() -> BuilderError {
    BuilderError::ClientError(jsonrpsee::core::ClientError::Custom("no transport".to_string()))
}

#[test]
fn body_limit_is_ten_mebibytes() {
    assert_eq!(MAX_BODY_SIZE, 10_485_760);
}

#[test]
fn every_kind_is_tried_once_in_order() {
    let roster = EthPrivateTransaction.builders();
    assert_eq!(roster.records.len(), 3);
    let kinds: Vec<BuilderKind> = roster.records.iter().map(|record| record.kind).collect();
    assert_eq!(kinds, BuilderKind::all());
    let constructed: Vec<BuilderKind> = roster
        .records
        .iter()
        .filter(|record| record.event == DiagnosticEvent::Constructed)
        .map(|record| record.kind)
        .collect();
    let held: Vec<BuilderKind> = roster.builders.iter().map(|builder| builder.kind()).collect();
    assert_eq!(held, constructed);
    assert_eq!(held, BuilderKind::all());
    assert!(roster.failures.is_empty());
}

#[test]
fn a_failed_construction_is_recorded_and_left_out() {
    let mut roster = Roster::new();
    roster.enlist(BuilderKind::Titan, BuilderKind::Titan.builder());
    roster.enlist(BuilderKind::Beaver, Err(construction_failure()));
    roster.enlist(BuilderKind::Rsync, BuilderKind::Rsync.builder());
    let held: Vec<BuilderKind> = roster.builders.iter().map(|builder| builder.kind()).collect();
    assert_eq!(held, vec![BuilderKind::Titan, BuilderKind::Rsync]);
    assert_eq!(roster.failures.len(), 1);
    assert!(matches!(
        &roster.failures[0],
        BuilderError::ClientError(jsonrpsee::core::ClientError::Custom(text)) if text == "no transport"
    ));
    assert_eq!(
        roster.records,
        vec![
            Diagnostic { kind: BuilderKind::Titan, event: DiagnosticEvent::Constructed },
            Diagnostic { kind: BuilderKind::Beaver, event: DiagnosticEvent::ConstructionFailed },
            Diagnostic { kind: BuilderKind::Rsync, event: DiagnosticEvent::Constructed },
        ]
    );
}

#[test]
fn no_builders_fails_before_anything_is_sent() {
    let facade = EthPrivateTransaction;
    let mut roster = Roster::new();
    for kind in BuilderKind::all() {
        roster.enlist(kind, Err(construction_failure()));
    }
    assert!(roster.builders.is_empty());
    let event: Event<String> = Event::Built { clients: roster.builders.len() };
    assert!(Stage::Start.expects(&event));
    let (stage, action) = facade.step(Stage::Start, event);
    assert!(matches!(stage, Stage::Finished));
    assert!(matches!(
        action,
        Some(Action::Reply(Err(RequestError::Private(
            PrivateTransactionError::FailedToGetBuilders
        ))))
    ));
    assert!(!stage.expects(&Event::<String>::Joined(Vec::new())));
    assert!(!stage.expects(&Event::<String>::Decoded(Ok(B256::ZERO))));
    assert!(!stage.expects(&Event::<String>::Built { clients: 3 }));
    assert!(facade.fan_out(&[0x01], &roster.builders).is_empty());
}

#[test]
fn one_acceptance_among_three_builders_succeeds() {
    let facade = EthPrivateTransaction;
    let tx = [0x02u8, 0xf8, 0x70, 0x01];
    let hash = B256::repeat_byte(0x5a);
    let mut log: Vec<Diagnostic> = Vec::new();

    let mut roster = Roster::new();
    roster.enlist(BuilderKind::Titan, BuilderKind::Titan.builder());
    roster.enlist(BuilderKind::Beaver, BuilderKind::Beaver.builder());
    roster.enlist(BuilderKind::Rsync, Err(construction_failure()));
    assert_eq!(roster.builders.len(), 2);

    let (stage, action) =
        facade.step(Stage::Start, Event::<String>::Built { clients: roster.builders.len() });
    assert!(matches!(action, Some(Action::Decode)));
    let (stage, action) = facade.step(stage, Event::<String>::Decoded(Ok(hash)));
    assert!(matches!(action, Some(Action::Dispatch)));

    let calls = facade.fan_out(&tx, &roster.builders);
    assert_eq!(calls.len(), 2);
    let replies = vec![
        json("{\"result\":\"0x1234\"}"),
        json("{\"error\":{\"code\":-1}}"),
    ];
    for attempt in &calls {
        log.push(attempt.record);
    }
    let mut results = Vec::new();
    for (builder, reply) in roster.builders.iter().zip(replies) {
        let completion = builder.receive(Ok(reply));
        log.push(completion.record);
        results.push(completion.outcome);
    }

    let (stage, action) = facade.step(stage, Event::<String>::Joined(results));
    assert!(matches!(stage, Stage::Finished));
    match action {
        Some(Action::Reply(Ok(returned))) => assert_eq!(returned, hash),
        other => panic!("unexpected action: {:?}", other),
    }

    let accepted: Vec<&Diagnostic> =
        log.iter().filter(|record| record.event == DiagnosticEvent::Accepted).collect();
    let rejected: Vec<&Diagnostic> =
        log.iter().filter(|record| record.event == DiagnosticEvent::Rejected).collect();
    let unbuilt: Vec<&Diagnostic> = roster
        .records
        .iter()
        .filter(|record| record.event == DiagnosticEvent::ConstructionFailed)
        .collect();
    assert_eq!(accepted.len(), 1);
    assert_eq!(accepted[0].kind, BuilderKind::Titan);
    assert_eq!(rejected.len(), 1);
    assert_eq!(rejected[0].kind, BuilderKind::Beaver);
    assert_eq!(unbuilt.len(), 1);
    assert_eq!(unbuilt[0].kind, BuilderKind::Rsync);
}

#[test]
fn all_builders_answering_with_errors_fails() {
    let facade = EthPrivateTransaction;
    let roster = facade.builders();
    assert_eq!(roster.builders.len(), 3);
    let (stage, _) =
        facade.step(Stage::Start, Event::<String>::Built { clients: roster.builders.len() });
    let (stage, _) = facade.step(stage, Event::<String>::Decoded(Ok(B256::repeat_byte(0x01))));
    let replies = vec![
        json("{\"error\":{\"code\":-32000,\"message\":\"nonce too low\"}}"),
        json("{\"error\":\"boom\"}"),
        json("{\"result\":\"0x1\",\"error\":{}}"),
    ];
    let results: Vec<Result<(), BuilderError>> = roster
        .builders
        .iter()
        .zip(replies)
        .map(|(builder, reply)| builder.receive(Ok(reply)).outcome)
        .collect();
    let (stage, action) = facade.step(stage, Event::<String>::Joined(results));
    assert!(matches!(stage, Stage::Finished));
    assert!(matches!(
        action,
        Some(Action::Reply(Err(RequestError::Private(
            PrivateTransactionError::AllBuildersFailed
        ))))
    ));
}

#[test]
fn transport_failures_everywhere_fail_the_request() {
    let facade = EthPrivateTransaction;
    let stage = Stage::Dispatching { hash: B256::repeat_byte(0x07), clients: 2 };
    let results = vec![
        Err(BuilderError::ClientError(jsonrpsee::core::ClientError::RequestTimeout)),
        Err(BuilderError::ClientError(jsonrpsee::core::ClientError::HttpNotImplemented)),
    ];
    let (_, action) = facade.step(stage, Event::<String>::Joined(results));
    assert!(matches!(
        action,
        Some(Action::Reply(Err(RequestError::Private(
            PrivateTransactionError::AllBuildersFailed
        ))))
    ));
}

#[test]
fn undecodable_bytes_return_the_decoder_error_unchanged() {
    let facade = EthPrivateTransaction;
    let roster = facade.builders();
    let (stage, action) =
        facade.step(Stage::Start, Event::<String>::Built { clients: roster.builders.len() });
    assert!(matches!(stage, Stage::Decoding { clients: 3 }));
    assert!(matches!(action, Some(Action::Decode)));
    let failure = "failed to decode signed transaction".to_string();
    let (stage, action) = facade.step(stage, Event::Decoded(Err(failure.clone())));
    assert!(matches!(stage, Stage::Finished));
    match action {
        Some(Action::Reply(Err(RequestError::Decode(error)))) => assert_eq!(error, failure),
        other => panic!("unexpected action: {:?}", other),
    }
    assert!(!stage.expects(&Event::<String>::Joined(Vec::new())));
}

#[test]
fn returned_hash_is_the_decoded_one() {
    let facade = EthPrivateTransaction;
    let mut bytes = [0u8; 32];
    for (i, byte) in bytes.iter_mut().enumerate() {
        *byte = i as u8;
    }
    let hash = B256::from(bytes);
    let (stage, _) =
        facade.step(Stage::Decoding { clients: 1 }, Event::<String>::Decoded(Ok(hash)));
    match &stage {
        Stage::Dispatching { hash: held, clients } => {
            assert_eq!(*held, hash);
            assert_eq!(*clients, 1);
        }
        other => panic!("unexpected stage: {:?}", other),
    }
    let (_, action) = facade.step(stage, Event::<String>::Joined(vec![Ok(())]));
    match action {
        Some(Action::Reply(Ok(returned))) => assert_eq!(returned, hash),
        other => panic!("unexpected action: {:?}", other),
    }
}

#[test]
fn an_event_out_of_turn_changes_nothing() {
    let facade = EthPrivateTransaction;
    let (stage, action) = facade.step(Stage::Start, Event::<String>::Decoded(Ok(B256::ZERO)));
    assert!(matches!(stage, Stage::Start));
    assert!(action.is_none());
    let (stage, action) =
        facade.step(Stage::Decoding { clients: 2 }, Event::<String>::Joined(vec![Ok(())]));
    assert!(matches!(stage, Stage::Decoding { clients: 2 }));
    assert!(action.is_none());
    let hash = B256::repeat_byte(0x33);
    let (stage, action) = facade
        .step(Stage::Dispatching { hash, clients: 1 }, Event::<String>::Built { clients: 0 });
    match stage {
        Stage::Dispatching { hash: held, clients: 1 } => assert_eq!(held, hash),
        other => panic!("unexpected stage: {:?}", other),
    }
    assert!(action.is_none());
    let (stage, action) = facade.step(Stage::Finished, Event::<String>::Joined(vec![Ok(())]));
    assert!(matches!(stage, Stage::Finished));
    assert!(action.is_none());
}

#[test]
fn each_stage_waits_for_its_own_event() {
    let built: Event<String> = Event::Built { clients: 1 };
    let decoded: Event<String> = Event::Decoded(Ok(B256::ZERO));
    let joined: Event<String> = Event::Joined(vec![Ok(())]);
    assert!(Stage::Start.expects(&built));
    assert!(!Stage::Start.expects(&decoded));
    assert!(!Stage::Start.expects(&joined));
    let decoding = Stage::Decoding { clients: 1 };
    assert!(!decoding.expects(&built));
    assert!(decoding.expects(&decoded));
    assert!(!decoding.expects(&joined));
    let dispatching = Stage::Dispatching { hash: B256::ZERO, clients: 1 };
    assert!(!dispatching.expects(&built));
    assert!(!dispatching.expects(&decoded));
    assert!(dispatching.expects(&joined));
}

#[test]
fn outcomes_of_only_some_calls_decide_nothing() {
    let facade = EthPrivateTransaction;
    let hash = B256::repeat_byte(0x44);
    let stage = Stage::Dispatching { hash, clients: 3 };
    let some: Event<String> = Event::Joined(vec![Ok(())]);
    assert!(!stage.expects(&some));
    let (stage, action) = facade.step(stage, some);
    assert!(action.is_none());
    assert!(matches!(stage, Stage::Dispatching { clients: 3, .. }));
    let all: Event<String> = Event::Joined(vec![
        Err(construction_failure()),
        Err(construction_failure()),
        Ok(()),
    ]);
    assert!(stage.expects(&all));
    let (stage, action) = facade.step(stage, all);
    assert!(matches!(stage, Stage::Finished));
    match action {
        Some(Action::Reply(Ok(returned))) => assert_eq!(returned, hash),
        other => panic!("unexpected action: {:?}", other),
    }
}

#[test]
fn error_codes_are_stable_and_distinct() {
    assert_eq!(PrivateTransactionError::FailedToGetBuilders.code(), -32000);
    assert_eq!(PrivateTransactionError::AllBuildersFailed.code(), -32001);
}

#[test]
fn error_messages() {
    assert_eq!(PrivateTransactionError::FailedToGetBuilders.message(), "No builders available");
    assert_eq!(
        PrivateTransactionError::AllBuildersFailed.message(),
        "All builders failed to send tx"
    );
    assert_eq!(TxError::AllBuildersFailed.message(), "All builders failed to send tx");
}

#[test]
fn severities() {
    assert_eq!(DiagnosticEvent::Attempt.severity(), Severity::Trace);
    assert_eq!(DiagnosticEvent::Accepted.severity(), Severity::Info);
    assert_eq!(DiagnosticEvent::Constructed.severity(), Severity::Info);
    assert_eq!(DiagnosticEvent::Rejected.severity(), Severity::Warn);
    assert_eq!(DiagnosticEvent::ConstructionFailed.severity(), Severity::Warn);
}

#[test]
fn records_carry_the_kind() {
    assert_eq!(
        Diagnostic::attempt(BuilderKind::Beaver),
        Diagnostic { kind: BuilderKind::Beaver, event: DiagnosticEvent::Attempt }
    );
    assert_eq!(
        Diagnostic::outcome(BuilderKind::Rsync, &Ok(())),
        Diagnostic { kind: BuilderKind::Rsync, event: DiagnosticEvent::Accepted }
    );
    assert_eq!(
        Diagnostic::outcome(BuilderKind::Rsync, &Err(construction_failure())),
        Diagnostic { kind: BuilderKind::Rsync, event: DiagnosticEvent::Rejected }
    );
    assert_eq!(
        Diagnostic::construction(BuilderKind::Titan, &Err(construction_failure())),
        Diagnostic { kind: BuilderKind::Titan, event: DiagnosticEvent::ConstructionFailed }
    );
    assert_eq!(
        Diagnostic::construction(BuilderKind::Titan, &BuilderKind::Titan.builder()),
        Diagnostic { kind: BuilderKind::Titan, event: DiagnosticEvent::Constructed }
    );
}

#[test]
fn reported_errors_carry_code_and_message() {
    let none = private_transaction::error::RpcError::from(
        PrivateTransactionError::FailedToGetBuilders,
    );
    assert_eq!(none.code, -32000);
    assert_eq!(none.message, "No builders available");
    let all = private_transaction::error::RpcError::from(PrivateTransactionError::AllBuildersFailed);
    assert_eq!(all.code, -32001);
    assert_eq!(all.message, "All builders failed to send tx");
}
