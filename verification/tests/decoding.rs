use wizard::auth::{gate_outcome, needs_policy_check, plan_authorization, AuthOutcome, PolicyReply};
use wizard::package::{install_packages_local, Package};
use wizard::packagekit::{session_hints, TransactionDetails, TRANSACTION_FLAG_NONE};
use wizard::payload::{Atom, Payload};
use wizard::signal::{decode, wants_live_percentage, DomainEvent};
use wizard::strfmt::{size_display_mb, str_eq, u64_to_dec};
use wizard::TransactionError;

fn s(text: &str) -> String {
    text.to_string()
}

fn details_payload(entries: Vec<(&str, Atom)>) -> Payload {
    Payload::Fields(entries.into_iter().map(|(k, v)| (s(k), v)).collect())
}

#[test]
fn details_without_package_id_is_dropped() {
    let payload = details_payload(vec![
        ("summary", Atom::Str(s("some tool"))),
        ("size", Atom::U64(123)),
    ]);
    let r = decode("Details", &payload, None);
    assert!(matches!(r, Ok(DomainEvent::Details(None))));
}

#[test]
fn details_with_mistyped_package_id_is_dropped() {
    let payload = details_payload(vec![("package-id", Atom::U64(7))]);
    let r = decode("Details", &payload, None);
    assert!(matches!(r, Ok(DomainEvent::Details(None))));
}

#[test]
fn details_size_truncates_to_whole_megabytes() {
    let payload = details_payload(vec![
        ("package-id", Atom::Str(s("a;1;x;v"))),
        ("size", Atom::U64(2_500_000)),
    ]);
    let r = decode("Details", &payload, None);
    match r {
        Ok(DomainEvent::Details(Some(d))) => assert_eq!(d.size, "2 MB"),
        other => panic!("expected a detail record, got {:?}", other),
    }
}

#[test]
fn details_missing_size_displays_zero() {
    let payload = details_payload(vec![("package-id", Atom::Str(s("a;1;x;v")))]);
    match decode("Details", &payload, None) {
        Ok(DomainEvent::Details(Some(d))) => assert_eq!(d.size, "0 MB"),
        other => panic!("expected a detail record, got {:?}", other),
    }
}

#[test]
fn details_mistyped_size_displays_zero() {
    let payload = details_payload(vec![
        ("package-id", Atom::Str(s("a;1;x;v"))),
        ("size", Atom::Str(s("2500000"))),
    ]);
    match decode("Details", &payload, None) {
        Ok(DomainEvent::Details(Some(d))) => assert_eq!(d.size, "0 MB"),
        other => panic!("expected a detail record, got {:?}", other),
    }
}

#[test]
fn details_small_size_truncates_to_zero() {
    let payload = details_payload(vec![
        ("package-id", Atom::Str(s("a;1;x;v"))),
        ("size", Atom::U64(999_999)),
    ]);
    match decode("Details", &payload, None) {
        Ok(DomainEvent::Details(Some(d))) => assert_eq!(d.size, "0 MB"),
        other => panic!("expected a detail record, got {:?}", other),
    }
}

#[test]
fn details_missing_metadata_defaults_to_empty() {
    let payload = details_payload(vec![
        ("package-id", Atom::Str(s("a;1;x;v"))),
        ("license", Atom::U32(5)),
    ]);
    match decode("Details", &payload, None) {
        Ok(DomainEvent::Details(Some(d))) => {
            assert_eq!(d.package_id, "a;1;x;v");
            assert_eq!(d.summary, "");
            assert_eq!(d.description, "");
            assert_eq!(d.url, "");
            assert_eq!(d.license, "");
        }
        other => panic!("expected a detail record, got {:?}", other),
    }
}

#[test]
fn details_non_mapping_payload_is_malformed() {
    let payload = Payload::Tuple(vec![Atom::U32(1)]);
    match decode("Details", &payload, None) {
        Err(TransactionError::MalformedSignal { member }) => assert_eq!(member, "Details"),
        other => panic!("expected a malformed-signal error, got {:?}", other),
    }
}

#[test]
fn package_signal_decodes() {
    let payload = Payload::Tuple(vec![
        Atom::U32(11),
        Atom::Str(s("tool;2.0;arm64;v")),
        Atom::Str(s("a tool")),
    ]);
    match decode("Package", &payload, None) {
        Ok(DomainEvent::Package(info)) => {
            assert_eq!(info.info_code, 11);
            assert_eq!(info.package_id, "tool;2.0;arm64;v");
            assert_eq!(info.summary, "a tool");
        }
        other => panic!("expected an installed-package event, got {:?}", other),
    }
}

#[test]
fn package_signal_wrong_arity_is_malformed() {
    let payload = Payload::Tuple(vec![Atom::U32(11), Atom::Str(s("tool"))]);
    match decode("Package", &payload, None) {
        Err(TransactionError::MalformedSignal { member }) => assert_eq!(member, "Package"),
        other => panic!("expected a malformed-signal error, got {:?}", other),
    }
}

#[test]
fn error_code_signal_decodes() {
    let payload = Payload::Tuple(vec![Atom::U32(2), Atom::Str(s("no space left"))]);
    match decode("ErrorCode", &payload, None) {
        Ok(DomainEvent::ErrorCode(code, message)) => {
            assert_eq!(code, 2);
            assert_eq!(message, "no space left");
        }
        other => panic!("expected an error-code event, got {:?}", other),
    }
}

#[test]
fn error_code_wrong_types_is_malformed() {
    let payload = Payload::Tuple(vec![Atom::Str(s("no space left")), Atom::U32(2)]);
    match decode("ErrorCode", &payload, None) {
        Err(TransactionError::MalformedSignal { member }) => assert_eq!(member, "ErrorCode"),
        other => panic!("expected a malformed-signal error, got {:?}", other),
    }
}

#[test]
fn item_progress_prefers_live_percentage() {
    let payload = Payload::Tuple(vec![Atom::Str(s("a;1;x;v")), Atom::U32(3), Atom::U32(40)]);
    match decode("ItemProgress", &payload, Some(62)) {
        Ok(DomainEvent::ItemProgress(sample)) => {
            assert_eq!(sample.package_id, "a;1;x;v");
            assert_eq!(sample.status_code, 3);
            assert_eq!(sample.item_percentage, 40);
            assert_eq!(sample.overall_percentage, 62);
        }
        other => panic!("expected a progress event, got {:?}", other),
    }
}

#[test]
fn item_progress_falls_back_to_item_percentage() {
    let payload = Payload::Tuple(vec![Atom::Str(s("a;1;x;v")), Atom::U32(3), Atom::U32(40)]);
    match decode("ItemProgress", &payload, None) {
        Ok(DomainEvent::ItemProgress(sample)) => assert_eq!(sample.overall_percentage, 40),
        other => panic!("expected a progress event, got {:?}", other),
    }
}

#[test]
fn finished_signal_decodes_whatever_its_payload() {
    assert!(matches!(
        decode("Finished", &Payload::Other, None),
        Ok(DomainEvent::Finished)
    ));
    assert!(matches!(
        decode("Finished", &Payload::Tuple(vec![Atom::U32(1)]), None),
        Ok(DomainEvent::Finished)
    ));
}

#[test]
fn unknown_member_is_reported_as_unknown() {
    match decode("RepoDetail", &Payload::Other, None) {
        Ok(DomainEvent::Unknown(member)) => assert_eq!(member, "RepoDetail"),
        other => panic!("expected an unknown event, got {:?}", other),
    }
}

#[test]
fn only_item_progress_wants_the_live_percentage() {
    assert!(wants_live_percentage("ItemProgress"));
    assert!(!wants_live_percentage("Details"));
    assert!(!wants_live_percentage("Finished"));
}

#[test]
fn package_id_splits_into_fields() {
    let tx = TransactionDetails {
        package_id: s("foo;1.2.3;amd64;vendor"),
        summary: s(""),
        description: s(""),
        url: s(""),
        license: s(""),
        size: s("0 MB"),
    };
    let p = Package::new(s("/tmp/foo.deb"), tx);
    assert_eq!(p.id, "foo;1.2.3;amd64;vendor");
    assert_eq!(p.name, "foo");
    assert_eq!(p.version, "1.2.3");
    assert_eq!(p.architecture, "amd64");
    assert_eq!(p.path, "/tmp/foo.deb");
}

#[test]
fn package_id_with_missing_fields_defaults_to_empty() {
    let tx = TransactionDetails {
        package_id: s("bare"),
        summary: s(""),
        description: s(""),
        url: s(""),
        license: s(""),
        size: s("0 MB"),
    };
    let p = Package::new(s("/p"), tx);
    assert_eq!(p.name, "bare");
    assert_eq!(p.version, "");
    assert_eq!(p.architecture, "");

    let tx = TransactionDetails {
        package_id: s("two;7"),
        summary: s(""),
        description: s(""),
        url: s(""),
        license: s(""),
        size: s("0 MB"),
    };
    let p = Package::new(s("/p"), tx);
    assert_eq!(p.name, "two");
    assert_eq!(p.version, "7");
    assert_eq!(p.architecture, "");
}

#[test]
fn decimal_rendering_is_exact() {
    assert_eq!(u64_to_dec(0), "0");
    assert_eq!(u64_to_dec(7), "7");
    assert_eq!(u64_to_dec(1970), "1970");
    assert_eq!(u64_to_dec(123_456_789), "123456789");
    assert_eq!(size_display_mb(2_500_000), "2 MB");
    assert_eq!(size_display_mb(0), "0 MB");
    assert_eq!(size_display_mb(123_456_789), "123 MB");
}

#[test]
fn string_comparison_by_characters() {
    assert!(str_eq("ItemProgress", "ItemProgress"));
    assert!(!str_eq("ItemProgress", "ItemProgres"));
    assert!(!str_eq("", "x"));
    assert!(str_eq("", ""));
}

#[test]
fn install_request_carries_paths_and_plain_flag() {
    let tx = |id: &str| TransactionDetails {
        package_id: s(id),
        summary: s(""),
        description: s(""),
        url: s(""),
        license: s(""),
        size: s("0 MB"),
    };
    let packages = vec![
        Package::new(s("/a.deb"), tx("a;1;x;v")),
        Package::new(s("/b.deb"), tx("b;2;y;v")),
    ];
    let req = install_packages_local(&packages);
    assert_eq!(req.flags, TRANSACTION_FLAG_NONE);
    assert_eq!(req.paths, vec![s("/a.deb"), s("/b.deb")]);
}

#[test]
fn session_hints_declare_interactive_and_plural() {
    let hints = session_hints();
    assert_eq!(
        hints,
        vec![s("interactive=true"), s("supports-plural-signals=true")]
    );
}

#[test]
fn pid_zero_is_authorized_without_policy_check() {
    assert!(!needs_policy_check(0));
    assert!(plan_authorization(0, s("org.debian.apt.install-file")).is_none());
    assert!(matches!(gate_outcome(0, None), AuthOutcome::Authorized));
    assert!(matches!(
        gate_outcome(0, Some(PolicyReply::Completed { is_authorized: false })),
        AuthOutcome::Authorized
    ));
}

#[test]
fn nonzero_pid_follows_the_policy_reply() {
    assert!(needs_policy_check(77));
    let plan = plan_authorization(77, s("org.debian.apt.install-file")).unwrap();
    assert_eq!(plan.pid, 77);
    assert_eq!(plan.action_id, "org.debian.apt.install-file");
    assert!(plan.allow_interaction);
    assert!(matches!(
        gate_outcome(77, Some(PolicyReply::Completed { is_authorized: true })),
        AuthOutcome::Authorized
    ));
    assert!(matches!(
        gate_outcome(77, Some(PolicyReply::Completed { is_authorized: false })),
        AuthOutcome::Denied
    ));
    match gate_outcome(
        77,
        Some(PolicyReply::Unavailable {
            reason: s("bus unreachable"),
        }),
    ) {
        AuthOutcome::GateError { reason } => assert_eq!(reason, "bus unreachable"),
        other => panic!("expected a gate error, got {:?}", other),
    }
    assert!(matches!(gate_outcome(77, None), AuthOutcome::GateError { .. }));
}

#[test]
fn error_description_carries_the_protocol_message() {
    let e = TransactionError::Protocol {
        code: 2,
        message: s("no space left"),
    };
    assert_eq!(e.describe(), "no space left");
}
