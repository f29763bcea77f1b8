use mirrord_runner::errors::ResolutionError;
use mirrord_runner::process::CommandOutcome;
use mirrord_runner::resolve::{
    classify_query, handle_kubectl_output, kubectl_query_args, resolve_target,
};

#[test]
fn query_args_select_by_app_label() {
    let args = kubectl_query_args("checkout", "default");
    assert_eq!(
        args,
        vec![
            "get",
            "pods",
            "-n",
            "default",
            "-l",
            "app=checkout",
            "-o",
            "jsonpath={.items[0].metadata.name}",
        ]
    );
}

#[test]
fn kubectl_output_with_pod_name() {
    let r = handle_kubectl_output(true, "checkout-7f9".to_string(), String::new());
    assert_eq!(r.unwrap(), "checkout-7f9");
}

#[test]
fn kubectl_empty_output_is_not_found() {
    let r = handle_kubectl_output(true, String::new(), String::new());
    assert!(matches!(r, Err(ResolutionError::NotFound)));
}

#[test]
fn kubectl_failure_carries_stderr() {
    let r = handle_kubectl_output(false, String::new(), "forbidden".to_string());
    match r {
        Err(ResolutionError::QueryFailed(m)) => assert_eq!(m, "forbidden"),
        other => panic!("expected a query failure, got {:?}", other),
    }
}

#[test]
fn classify_query_outcomes() {
    let found = classify_query(CommandOutcome::Completed {
        code: Some(0),
        stdout: "pod-1".to_string(),
        stderr: String::new(),
    });
    assert_eq!(found.unwrap(), "pod-1");

    let none = classify_query(CommandOutcome::Completed {
        code: Some(0),
        stdout: String::new(),
        stderr: String::new(),
    });
    assert!(matches!(none, Err(ResolutionError::NotFound)));

    let failed = classify_query(CommandOutcome::Completed {
        code: Some(1),
        stdout: String::new(),
        stderr: "no such namespace".to_string(),
    });
    assert!(matches!(failed, Err(ResolutionError::QueryFailed(m)) if m == "no such namespace"));

    let signalled = classify_query(CommandOutcome::Completed {
        code: None,
        stdout: "pod-1".to_string(),
        stderr: String::new(),
    });
    assert!(matches!(signalled, Err(ResolutionError::QueryFailed(_))));

    let missing = classify_query(CommandOutcome::NotFound);
    assert!(matches!(missing, Err(ResolutionError::QueryFailed(_))));

    let start_failed = classify_query(CommandOutcome::StartFailed("denied".to_string()));
    assert!(matches!(start_failed, Err(ResolutionError::QueryFailed(m)) if m == "denied"));

    let timed_out = classify_query(CommandOutcome::TimedOut);
    assert!(matches!(timed_out, Err(ResolutionError::Timeout)));
}

#[test]
fn resolution_binds_namespace_and_instance() {
    let target = resolve_target(
        "default".to_string(),
        CommandOutcome::Completed {
            code: Some(0),
            stdout: "checkout-7f9".to_string(),
            stderr: String::new(),
        },
    )
    .unwrap();
    assert_eq!(target.namespace, "default");
    assert_eq!(target.pod_name, "checkout-7f9");

    let missing = resolve_target(
        "default".to_string(),
        CommandOutcome::Completed {
            code: Some(0),
            stdout: String::new(),
            stderr: String::new(),
        },
    );
    assert!(matches!(missing, Err(ResolutionError::NotFound)));
}
