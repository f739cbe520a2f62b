use wizard::package::packages_from_details;
use wizard::payload::{Atom, Payload};
use wizard::session::{
    install_success, transaction_handle, SessionRunner, SessionState, SignalEvent,
};
use wizard::TransactionError;

fn s(text: &str) -> String {
    text.to_string()
}

fn ev(member: &str, payload: Payload, live: Option<u32>) -> SignalEvent {
    SignalEvent {
        member: s(member),
        payload,
        live_percentage: live,
    }
}

fn details_ev(entries: Vec<(&str, Atom)>) -> SignalEvent {
    ev(
        "Details",
        Payload::Fields(entries.into_iter().map(|(k, v)| (s(k), v)).collect()),
        None,
    )
}

fn progress_ev(id: &str, status: u32, pct: u32, live: Option<u32>) -> SignalEvent {
    ev(
        "ItemProgress",
        Payload::Tuple(vec![Atom::Str(s(id)), Atom::U32(status), Atom::U32(pct)]),
        live,
    )
}

fn finished_ev() -> SignalEvent {
    ev("Finished", Payload::Tuple(Vec::new()), None)
}

fn error_ev(code: u32, message: &str) -> SignalEvent {
    ev(
        "ErrorCode",
        Payload::Tuple(vec![Atom::U32(code), Atom::Str(s(message))]),
        None,
    )
}

#[test]
fn error_code_halts_consumption_immediately() {
    let events = vec![
        details_ev(vec![("package-id", Atom::Str(s("a;1;x;v")))]),
        error_ev(2, "no space left"),
        details_ev(vec![("package-id", Atom::Str(s("b;2;y;v")))]),
        progress_ev("a;1;x;v", 3, 90, Some(90)),
        finished_ev(),
    ];
    let (outcome, reports) = transaction_handle(&events);
    match outcome {
        Err(TransactionError::Protocol { code, message }) => {
            assert_eq!(code, 2);
            assert_eq!(message, "no space left");
        }
        other => panic!("expected the protocol error, got {:?}", other),
    }
    assert!(reports.is_empty());
}

#[test]
fn finished_after_zero_details_succeeds_empty() {
    let (outcome, reports) = transaction_handle(&vec![finished_ev()]);
    let details = outcome.expect("an empty stream ending in completion succeeds");
    assert!(details.is_empty());
    assert!(reports.is_empty());
}

#[test]
fn malformed_fixed_shape_signal_fails_the_session() {
    let events = vec![
        ev("Package", Payload::Tuple(vec![Atom::U32(1)]), None),
        finished_ev(),
    ];
    let (outcome, _) = transaction_handle(&events);
    match outcome {
        Err(TransactionError::MalformedSignal { member }) => assert_eq!(member, "Package"),
        other => panic!("expected a malformed-signal error, got {:?}", other),
    }
}

#[test]
fn stream_end_without_terminal_is_connection_closed() {
    let events = vec![details_ev(vec![("package-id", Atom::Str(s("a;1;x;v")))])];
    let (outcome, _) = transaction_handle(&events);
    assert!(matches!(outcome, Err(TransactionError::ConnectionClosed)));
}

#[test]
fn unknown_signals_do_not_disturb_the_session() {
    let events = vec![
        ev("RepoDetail", Payload::Other, None),
        details_ev(vec![("package-id", Atom::Str(s("a;1;x;v")))]),
        ev("Destination", Payload::Tuple(vec![Atom::U32(1)]), None),
        finished_ev(),
    ];
    let (outcome, _) = transaction_handle(&events);
    let details = outcome.expect("unknown members are ignored");
    assert_eq!(details.len(), 1);
    assert_eq!(details[0].package_id, "a;1;x;v");
}

#[test]
fn duplicate_details_are_kept_in_arrival_order() {
    let events = vec![
        details_ev(vec![("package-id", Atom::Str(s("a;1;amd64;v")))]),
        details_ev(vec![("package-id", Atom::Str(s("a;1;i386;v")))]),
        details_ev(vec![("package-id", Atom::Str(s("a;1;amd64;v")))]),
        finished_ev(),
    ];
    let (outcome, _) = transaction_handle(&events);
    let details = outcome.unwrap();
    let ids: Vec<&str> = details.iter().map(|d| d.package_id.as_str()).collect();
    assert_eq!(ids, vec!["a;1;amd64;v", "a;1;i386;v", "a;1;amd64;v"]);
}

#[test]
fn consecutive_progress_reports_the_latest_value() {
    let mut runner = SessionRunner::new();
    runner.mark_requested();
    runner.mark_streaming();
    let step = runner.on_signal(&progress_ev("a;1;x;v", 3, 40, Some(41)));
    assert_eq!(step.report, Some(41));
    assert!(!step.done);
    let step = runner.on_signal(&progress_ev("a;1;x;v", 3, 50, Some(55)));
    assert_eq!(step.report, Some(55));
    assert!(!step.done);
    let sample = runner.last_progress.as_ref().unwrap();
    assert_eq!(sample.overall_percentage, 55);
    assert_eq!(sample.item_percentage, 50);
    assert_eq!(runner.state, SessionState::Streaming);
}

#[test]
fn package_signals_accumulate_information() {
    let mut runner = SessionRunner::new();
    runner.mark_requested();
    runner.mark_streaming();
    let step = runner.on_signal(&ev(
        "Package",
        Payload::Tuple(vec![
            Atom::U32(11),
            Atom::Str(s("tool;2.0;arm64;v")),
            Atom::Str(s("a tool")),
        ]),
        None,
    ));
    assert!(!step.done);
    let step = runner.on_signal(&finished_ev());
    assert!(step.done);
    assert_eq!(runner.infos.len(), 1);
    assert_eq!(runner.infos[0].info_code, 11);
    assert_eq!(runner.infos[0].package_id, "tool;2.0;arm64;v");
    let details = runner.into_result().unwrap();
    assert!(details.is_empty());
}

#[test]
fn query_one_file_end_to_end() {
    let events = vec![
        details_ev(vec![
            ("package-id", Atom::Str(s("pkg;1.0;amd64"))),
            ("summary", Atom::Str(s("A tool"))),
            ("size", Atom::U64(1_000_000)),
        ]),
        finished_ev(),
    ];
    let (outcome, reports) = transaction_handle(&events);
    let details = outcome.expect("the query session succeeds");
    assert!(reports.is_empty());
    assert_eq!(details.len(), 1);

    let packages = packages_from_details(&s("/tmp/pkg.deb"), &details);
    assert_eq!(packages.len(), 1);
    let p = &packages[0];
    assert_eq!(p.id, "pkg;1.0;amd64");
    assert_eq!(p.name, "pkg");
    assert_eq!(p.version, "1.0");
    assert_eq!(p.architecture, "amd64");
    assert_eq!(p.summary, "A tool");
    assert_eq!(p.size, "1 MB");
    assert_eq!(p.path, "/tmp/pkg.deb");
    assert_eq!(p.description, "");
    assert_eq!(p.url, "");
    assert_eq!(p.license, "");
}

#[test]
fn install_two_files_end_to_end() {
    let events = vec![
        progress_ev("a;1;x;v", 3, 5, Some(10)),
        progress_ev("a;1;x;v", 3, 45, Some(50)),
        progress_ev("b;2;y;v", 3, 85, Some(90)),
        finished_ev(),
    ];
    let (outcome, reports) = transaction_handle(&events);
    assert_eq!(reports, vec![10, 50, 90]);
    assert!(install_success(&outcome));
}

#[test]
fn failed_install_is_not_a_success() {
    let events = vec![error_ev(9, "cancelled")];
    let (outcome, _) = transaction_handle(&events);
    assert!(!install_success(&outcome));
}
