use container_launcher::config::{ContainerConfiguration, EnvEntry, StorageMount};
use container_launcher::errors::{
    classify_engine_error, contains_ignore_ascii_case, ContainerRunError, EngineError,
    StartFailureReason,
};
use container_launcher::runner::{
    find_container_id, ContainerRecord, EngineAction, Phase, Reconciler,
};
use container_launcher::options::{bind_string, build_create_request, flatten_environment};

fn s(text: &str) -> String {
    text.to_owned()
}

fn minimal_conf(name: &str, image: &str) -> ContainerConfiguration {
    ContainerConfiguration {
        image: s(image),
        name: s(name),
        hostname: None,
        domain: None,
        ports: None,
        storage: None,
        environment: None,
    }
}

fn record(id: &str, names: &[&str]) -> ContainerRecord {
    ContainerRecord {
        id: s(id),
        names: names.iter().map(|n| s(n)).collect(),
    }
}

#[test]
fn existing_container_is_started_not_created() {
    let mut r = Reconciler::new(minimal_conf("web", "nginx:latest"));
    let listing = vec![record("aa11", &["/db"]), record("bb22", &["/web"])];
    let action = r.on_listed(Ok(listing));
    match action {
        EngineAction::Start { id } => assert_eq!(id, "bb22"),
        _ => panic!("expected a start action for the existing container"),
    }
    match &r.phase {
        Phase::Starting { id } => assert_eq!(id, "bb22"),
        _ => panic!("expected the starting phase"),
    }
}

#[test]
fn first_matching_record_wins() {
    let mut r = Reconciler::new(minimal_conf("web", "nginx:latest"));
    let listing = vec![record("first", &["/web"]), record("second", &["/web"])];
    let action = r.on_listed(Ok(listing));
    match action {
        EngineAction::Start { id } => assert_eq!(id, "first"),
        _ => panic!("expected a start action"),
    }
}

#[test]
fn unqualified_name_does_not_match() {
    let listing = vec![record("aa11", &["web"])];
    let found = find_container_id(&listing, &s("web"));
    assert!(found.is_none());
}

#[test]
fn absent_container_is_created_then_started_with_created_id() {
    let mut r = Reconciler::new(minimal_conf("web", "nginx:latest"));
    let action = r.on_listed(Ok(Vec::new()));
    match action {
        EngineAction::Create { request } => {
            assert_eq!(request.name, "web");
            assert_eq!(request.image, "nginx:latest");
        }
        _ => panic!("expected a create action for the absent container"),
    }
    let action = r.on_created(Ok(s("id42")));
    match action {
        EngineAction::Start { id } => assert_eq!(id, "id42"),
        _ => panic!("expected a start action with the created id"),
    }
    let action = r.on_started(Ok(()));
    match action {
        EngineAction::Finish => {}
        _ => panic!("expected the reconciliation to finish"),
    }
    match &r.phase {
        Phase::Done { outcome } => assert!(outcome.is_ok()),
        _ => panic!("expected the done phase"),
    }
}

#[test]
fn failed_listing_ends_with_classified_error() {
    let mut r = Reconciler::new(minimal_conf("web", "nginx:latest"));
    let action = r.on_listed(Err(EngineError {
        cause: Some(s("connect: permission denied")),
        rendered: s("transport failure"),
    }));
    match action {
        EngineAction::Finish => {}
        _ => panic!("expected the reconciliation to finish"),
    }
    match &r.phase {
        Phase::Done { outcome } => match outcome {
            Err(e) => {
                assert_eq!(e.reason, StartFailureReason::PermissionDenied);
                assert_eq!(e.message, "connect: permission denied");
            }
            Ok(()) => panic!("expected a failed outcome"),
        },
        _ => panic!("expected the done phase"),
    }
}

#[test]
fn failed_create_ends_with_classified_error() {
    let mut r = Reconciler::new(minimal_conf("web", "nginx:latest"));
    r.on_listed(Ok(Vec::new()));
    r.on_created(Err(EngineError {
        cause: None,
        rendered: s("daemon rejected the create call"),
    }));
    match &r.phase {
        Phase::Done { outcome } => match outcome {
            Err(e) => {
                assert_eq!(e.reason, StartFailureReason::Other);
                assert_eq!(e.message, "daemon rejected the create call");
            }
            Ok(()) => panic!("expected a failed outcome"),
        },
        _ => panic!("expected the done phase"),
    }
}

#[test]
fn failed_start_ends_with_classified_error() {
    let mut r = Reconciler::new(minimal_conf("web", "nginx:latest"));
    r.on_listed(Ok(vec![record("bb22", &["/web"])]));
    r.on_started(Err(EngineError {
        cause: None,
        rendered: s("container already running"),
    }));
    match &r.phase {
        Phase::Done { outcome } => match outcome {
            Err(e) => assert_eq!(e.reason, StartFailureReason::Other),
            Ok(()) => panic!("expected a failed outcome"),
        },
        _ => panic!("expected the done phase"),
    }
}

#[test]
fn concurrent_reconciliations_may_both_create() {
    // Two reconciliations for the same name, each observing the name
    // absent, both decide to create: the check-then-act race is not
    // guarded by the core, and the engine arbitrates the second create.
    let mut a = Reconciler::new(minimal_conf("web", "nginx:latest"));
    let mut b = Reconciler::new(minimal_conf("web", "nginx:latest"));
    let action_a = a.on_listed(Ok(Vec::new()));
    let action_b = b.on_listed(Ok(Vec::new()));
    assert!(matches!(action_a, EngineAction::Create { .. }));
    assert!(matches!(action_b, EngineAction::Create { .. }));
    // The engine refuses the second create; that reconciliation fails.
    b.on_created(Err(EngineError {
        cause: None,
        rendered: s("name already in use"),
    }));
    match &b.phase {
        Phase::Done { outcome } => assert!(outcome.is_err()),
        _ => panic!("expected the done phase"),
    }
}

#[test]
fn environment_flattens_to_key_value_pairs() {
    let env = vec![
        EnvEntry { key: s("A"), value: s("1") },
        EnvEntry { key: s("B"), value: s("2") },
    ];
    let flat = flatten_environment(&env);
    assert_eq!(flat.len(), 2);
    assert!(flat.contains(&s("A=1")));
    assert!(flat.contains(&s("B=2")));
}

#[test]
fn read_only_mount_gets_suffix() {
    let m = StorageMount { host: s("/data"), local: s("/app/data"), ro: true };
    assert_eq!(bind_string(&m), "/data/app/data:ro");
}

#[test]
fn writable_mount_gets_no_suffix() {
    let m = StorageMount { host: s("/data"), local: s("/app/data"), ro: false };
    assert_eq!(bind_string(&m), "/data/app/data");
}

#[test]
fn create_request_carries_whole_configuration() {
    let conf = ContainerConfiguration {
        image: s("nginx:latest"),
        name: s("web"),
        hostname: Some(s("box")),
        domain: Some(s("example.org")),
        ports: Some(vec![80, 443]),
        storage: Some(vec![StorageMount { host: s("/data"), local: s("/www"), ro: false }]),
        environment: Some(vec![EnvEntry { key: s("MODE"), value: s("fast") }]),
    };
    let request = build_create_request(&conf);
    assert_eq!(request.name, "web");
    assert_eq!(request.image, "nginx:latest");
    assert_eq!(request.hostname, Some(s("box")));
    assert_eq!(request.domain, Some(s("example.org")));
    assert_eq!(request.env, Some(vec![s("MODE=fast")]));
    assert_eq!(request.binds, Some(vec![s("/data/www")]));
}

#[test]
fn absent_environment_and_storage_stay_absent() {
    let request = build_create_request(&minimal_conf("web", "nginx:latest"));
    assert!(request.env.is_none());
    assert!(request.binds.is_none());
}

#[test]
fn permission_denied_is_classified_case_insensitively() {
    let e = classify_engine_error(EngineError {
        cause: Some(s("connect: PERMISSION Denied (socket)")),
        rendered: s("transport failure"),
    });
    assert_eq!(e.reason, StartFailureReason::PermissionDenied);
    assert_eq!(e.message, "connect: PERMISSION Denied (socket)");
}

#[test]
fn other_causes_keep_their_text() {
    let e = classify_engine_error(EngineError {
        cause: Some(s("no such image")),
        rendered: s("transport failure"),
    });
    assert_eq!(e.reason, StartFailureReason::Other);
    assert_eq!(e.message, "no such image");
}

#[test]
fn missing_cause_falls_back_to_rendered_error() {
    let e = classify_engine_error(EngineError {
        cause: None,
        rendered: s("daemon returned status 500"),
    });
    assert_eq!(e.reason, StartFailureReason::Other);
    assert_eq!(e.message, "daemon returned status 500");
}

#[test]
fn substring_search_ignores_ascii_case() {
    assert!(contains_ignore_ascii_case("Permission DENIED", "permission denied"));
    assert!(contains_ignore_ascii_case("xxPERMISSION deniedyy", "permission denied"));
    assert!(!contains_ignore_ascii_case("permission granted", "permission denied"));
    assert!(contains_ignore_ascii_case("anything", ""));
    assert!(!contains_ignore_ascii_case("short", "much longer pattern"));
}

#[test]
fn permission_errors_describe_themselves() {
    let e = ContainerRunError {
        reason: StartFailureReason::PermissionDenied,
        message: s("connect: permission denied"),
    };
    assert_eq!(
        e.describe(),
        "Permission denied communicating with docker service: connect: permission denied"
    );
}

#[test]
fn other_errors_describe_generically() {
    let e = ContainerRunError {
        reason: StartFailureReason::Other,
        message: s("no such image"),
    };
    assert_eq!(e.describe(), "Error occurred");
}
