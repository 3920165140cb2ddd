use cargo_lambda::supervisor::{
    compose_environment, compose_run_args, is_valid_bin_name, metadata_or_default,
    supervise_outcome, CargoOptions, ProcessEvent, SupervisorAction,
};

fn options(features: Option<&str>, release: bool) -> CargoOptions {
    CargoOptions {
        manifest_path: "Cargo.toml".to_string(),
        features: features.map(str::to_string),
        release,
    }
}

/// The value a key resolves to when later bindings override earlier
/// ones, as the spawned process will see it.
fn resolved<'e>(env: &'e [(String, String)], key: &str) -> Option<&'e str> {
    env.iter().rev().find(|(k, _)| k == key).map(|(_, v)| v.as_str())
}

#[test]
fn bin_name_rule() {
    assert!(is_valid_bin_name("orders"));
    assert!(!is_valid_bin_name(""));
    assert!(!is_valid_bin_name("_"));
}

#[test]
fn run_args_with_live_reload() {
    let watch_args = vec!["--why".to_string(), "--ignore".to_string(), "target".to_string()];
    let args = compose_run_args("orders", &watch_args, &options(Some("tracing"), true), false);
    assert_eq!(
        args,
        [
            "watch", "--why", "--ignore", "target", "--", "cargo", "run", "--features", "tracing",
            "--release", "--bin", "orders",
        ]
        .map(str::to_string)
    );
}

#[test]
fn run_args_without_live_reload() {
    let args = compose_run_args("orders", &Vec::new(), &options(None, false), true);
    assert_eq!(args, ["run", "--bin", "orders"].map(str::to_string));
}

#[test]
fn run_args_for_default_package() {
    // The reserved default-package name selects no binary explicitly.
    let args = compose_run_args("_", &Vec::new(), &options(None, false), true);
    assert_eq!(args, ["run"].map(str::to_string));
}

#[test]
fn environment_layers_in_order() {
    let metadata = vec![("FOO".to_string(), "bar".to_string())];
    let env = compose_environment("orders", "base/orders", "debug", &metadata);
    assert_eq!(
        env,
        [
            ("RUST_LOG", "debug"),
            ("AWS_LAMBDA_FUNCTION_VERSION", "1"),
            ("AWS_LAMBDA_FUNCTION_MEMORY_SIZE", "4096"),
            ("FOO", "bar"),
            ("AWS_LAMBDA_RUNTIME_API", "base/orders"),
            ("AWS_LAMBDA_FUNCTION_NAME", "orders"),
        ]
        .map(|(k, v)| (k.to_string(), v.to_string()))
    );
}

#[test]
fn environment_metadata_cannot_shadow_scheduler_values() {
    let metadata = vec![
        ("AWS_LAMBDA_RUNTIME_API".to_string(), "evil".to_string()),
        ("AWS_LAMBDA_FUNCTION_NAME".to_string(), "impostor".to_string()),
        ("AWS_LAMBDA_FUNCTION_VERSION".to_string(), "9".to_string()),
    ];
    let env = compose_environment("orders", "base/orders", "", &metadata);
    assert_eq!(resolved(&env, "AWS_LAMBDA_RUNTIME_API"), Some("base/orders"));
    assert_eq!(resolved(&env, "AWS_LAMBDA_FUNCTION_NAME"), Some("orders"));
    // Metadata may override the defaults above it.
    assert_eq!(resolved(&env, "AWS_LAMBDA_FUNCTION_VERSION"), Some("9"));
}

#[test]
fn metadata_read_failure_yields_empty_metadata() {
    let ok: Result<Vec<(String, String)>, String> =
        Ok(vec![("FOO".to_string(), "bar".to_string())]);
    assert_eq!(metadata_or_default(ok).len(), 1);

    let err: Result<Vec<(String, String)>, String> = Err("malformed metadata".to_string());
    assert!(metadata_or_default(err).is_empty());
}

#[test]
fn natural_exit_notifies_cleanup() {
    match supervise_outcome("orders".to_string(), ProcessEvent::Exited) {
        SupervisorAction::NotifyExit { function_name } => assert_eq!(function_name, "orders"),
        SupervisorAction::TerminateProcess => panic!("a natural exit must be notified"),
    }
}

#[test]
fn shutdown_terminates_without_notification() {
    match supervise_outcome("orders".to_string(), ProcessEvent::ShutdownRequested) {
        SupervisorAction::TerminateProcess => {}
        SupervisorAction::NotifyExit { .. } => {
            panic!("shutdown must not enqueue a death notification")
        }
    }
}
