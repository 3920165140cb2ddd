use vstd::prelude::*;

verus! {

/// Build and launch configuration a function process is started with.
#[derive(Clone)]
pub struct CargoOptions {
    /// Path to the project manifest the function is built from.
    pub manifest_path: String,
    /// Feature flags forwarded to the build.
    pub features: Option<String>,
    /// Whether the function is built in release mode.
    pub release: bool,
}

/// The reserved name under which the default package's function is
/// addressed; it never selects a binary explicitly.
pub open spec fn default_package_sentinel() -> Seq<char> {
    "_"@
}

/// A function name selects a binary explicitly when it is non-empty and
/// is not the reserved default-package name.
pub open spec fn valid_bin_name(name: Seq<char>) -> bool {
    name.len() > 0 && name != default_package_sentinel()
}

/// Decides whether `name` is passed to the run command as the binary to
/// run, or the command is left to infer the binary.
pub fn is_valid_bin_name(name: &str) -> (r: bool)
    ensures
        r == valid_bin_name(name@),
{
    let sentinel = "_".to_owned();
    !name.is_empty() && !(name.to_owned() == sentinel)
}

/// Feature flags as a sequence, when any are configured.
pub open spec fn features_view(features: Option<String>) -> Option<Seq<char>> {
    match features {
        Some(f) => Some(f@),
        None => None,
    }
}

/// The argument list of the command that runs one function: a
/// rebuild-and-run invocation, wrapped in a file-watching auto-rebuild
/// supervisor unless live reload is off, forwarding feature flags and
/// release mode, and selecting the binary explicitly for a valid
/// function name.
pub open spec fn run_args_model(
    name: Seq<char>,
    watch_args: Seq<Seq<char>>,
    features: Option<Seq<char>>,
    release: bool,
    no_reload: bool,
) -> Seq<Seq<char>> {
    (if !no_reload {
        seq!["watch"@] + watch_args + seq!["--"@, "cargo"@]
    } else {
        Seq::empty()
    }) + seq!["run"@] + (match features {
        Some(f) => seq!["--features"@, f],
        None => Seq::empty(),
    }) + (if release {
        seq!["--release"@]
    } else {
        Seq::empty()
    }) + (if valid_bin_name(name) {
        seq!["--bin"@, name]
    } else {
        Seq::empty()
    })
}

/// Composes the arguments of the run command for one function, to be
/// handed to the `cargo` executable.
pub fn compose_run_args(
    name: &str,
    watch_args: &Vec<String>,
    cargo_options: &CargoOptions,
    no_reload: bool,
) -> (args: Vec<String>)
    ensures
        args.deep_view() == run_args_model(
            name@,
            watch_args.deep_view(),
            features_view(cargo_options.features),
            cargo_options.release,
            no_reload,
        ),
{
    let mut args: Vec<String> = Vec::new();
    if !no_reload {
        args.push("watch".to_owned());
        let n = watch_args.len();
        let mut i: usize = 0;
        while i < n
            invariant
                n == watch_args@.len(),
                i <= n,
                args.deep_view() =~= seq!["watch"@] + watch_args.deep_view().take(i as int),
            decreases n - i,
        {
            let ghost prev = args.deep_view();
            args.push(watch_args[i].clone());
            proof {
                assert(args.deep_view() =~= prev.push(watch_args.deep_view()[i as int]));
                assert(watch_args.deep_view().take(i as int + 1) =~= watch_args.deep_view().take(
                    i as int,
                ).push(watch_args.deep_view()[i as int]));
                assert(args.deep_view() =~= seq!["watch"@] + watch_args.deep_view().take(
                    i as int + 1,
                ));
            }
            i = i + 1;
        }
        proof {
            assert(watch_args.deep_view().take(n as int) =~= watch_args.deep_view());
        }
        args.push("--".to_owned());
        args.push("cargo".to_owned());
    }
    args.push("run".to_owned());
    match &cargo_options.features {
        Some(features) => {
            args.push("--features".to_owned());
            args.push(features.clone());
        },
        None => {},
    }
    if cargo_options.release {
        args.push("--release".to_owned());
    }
    if is_valid_bin_name(name) {
        args.push("--bin".to_owned());
        args.push(name.to_owned());
    }
    proof {
        assert(args.deep_view() =~= run_args_model(
            name@,
            watch_args.deep_view(),
            features_view(cargo_options.features),
            cargo_options.release,
            no_reload,
        ));
    }
    args
}

/// The environment a function process is spawned with, in composition
/// order: the log-level passthrough and the fixed emulated-platform
/// defaults first, then the function-specific metadata entries, and
/// last the two values the metadata must never shadow — the function's
/// runtime-API address and its name.
pub open spec fn env_model(
    name: Seq<char>,
    runtime_api: Seq<char>,
    log_level: Seq<char>,
    metadata: Seq<(Seq<char>, Seq<char>)>,
) -> Seq<(Seq<char>, Seq<char>)> {
    seq![
        ("RUST_LOG"@, log_level),
        ("AWS_LAMBDA_FUNCTION_VERSION"@, "1"@),
        ("AWS_LAMBDA_FUNCTION_MEMORY_SIZE"@, "4096"@),
    ] + metadata + seq![("AWS_LAMBDA_RUNTIME_API"@, runtime_api), ("AWS_LAMBDA_FUNCTION_NAME"@, name)]
}

/// The value a key takes in an environment where later bindings
/// override earlier ones.
pub open spec fn env_lookup(env: Seq<(Seq<char>, Seq<char>)>, key: Seq<char>) -> Option<Seq<char>>
    decreases env.len(),
{
    if env.len() == 0 {
        None
    } else if env.last().0 == key {
        Some(env.last().1)
    } else {
        env_lookup(env.drop_last(), key)
    }
}

/// Composes the spawn environment of one function process.
pub fn compose_environment(
    name: &str,
    runtime_api: &str,
    log_level: &str,
    metadata: &Vec<(String, String)>,
) -> (env: Vec<(String, String)>)
    ensures
        env.deep_view() == env_model(name@, runtime_api@, log_level@, metadata.deep_view()),
{
    let mut env: Vec<(String, String)> = Vec::new();
    env.push(("RUST_LOG".to_owned(), log_level.to_owned()));
    env.push(("AWS_LAMBDA_FUNCTION_VERSION".to_owned(), "1".to_owned()));
    env.push(("AWS_LAMBDA_FUNCTION_MEMORY_SIZE".to_owned(), "4096".to_owned()));
    let n = metadata.len();
    let mut i: usize = 0;
    while i < n
        invariant
            n == metadata@.len(),
            i <= n,
            env.deep_view() =~= seq![
                ("RUST_LOG"@, log_level@),
                ("AWS_LAMBDA_FUNCTION_VERSION"@, "1"@),
                ("AWS_LAMBDA_FUNCTION_MEMORY_SIZE"@, "4096"@),
            ] + metadata.deep_view().take(i as int),
        decreases n - i,
    {
        let entry = &metadata[i];
        let ghost prev = env.deep_view();
        env.push((entry.0.clone(), entry.1.clone()));
        proof {
            assert(env.deep_view() =~= prev.push(metadata.deep_view()[i as int]));
            assert(metadata.deep_view().take(i as int + 1) =~= metadata.deep_view().take(
                i as int,
            ).push(metadata.deep_view()[i as int]));
            assert(env.deep_view() =~= seq![
                ("RUST_LOG"@, log_level@),
                ("AWS_LAMBDA_FUNCTION_VERSION"@, "1"@),
                ("AWS_LAMBDA_FUNCTION_MEMORY_SIZE"@, "4096"@),
            ] + metadata.deep_view().take(i as int + 1));
        }
        i = i + 1;
    }
    proof {
        assert(metadata.deep_view().take(n as int) =~= metadata.deep_view());
    }
    env.push(("AWS_LAMBDA_RUNTIME_API".to_owned(), runtime_api.to_owned()));
    env.push(("AWS_LAMBDA_FUNCTION_NAME".to_owned(), name.to_owned()));
    proof {
        assert(env.deep_view() =~= env_model(name@, runtime_api@, log_level@, metadata.deep_view()));
    }
    env
}

/// Environment precedence: whatever the function-specific metadata
/// tries to set, the spawned environment resolves the runtime-API
/// address and the function name to the scheduler's own values, because
/// those two bindings are applied last.
pub proof fn lemma_environment_precedence(
    name: Seq<char>,
    runtime_api: Seq<char>,
    log_level: Seq<char>,
    metadata: Seq<(Seq<char>, Seq<char>)>,
)
    ensures
        env_lookup(env_model(name, runtime_api, log_level, metadata), "AWS_LAMBDA_RUNTIME_API"@)
            == Some(runtime_api),
        env_lookup(env_model(name, runtime_api, log_level, metadata), "AWS_LAMBDA_FUNCTION_NAME"@)
            == Some(name),
{
    reveal_strlit("AWS_LAMBDA_RUNTIME_API");
    reveal_strlit("AWS_LAMBDA_FUNCTION_NAME");
    let env = env_model(name, runtime_api, log_level, metadata);
    assert(env.len() == 5 + metadata.len());
    assert(env.last() == ("AWS_LAMBDA_FUNCTION_NAME"@, name));
    assert(env.drop_last().last() == ("AWS_LAMBDA_RUNTIME_API"@, runtime_api));
    assert("AWS_LAMBDA_RUNTIME_API"@.len() == 22);
    assert("AWS_LAMBDA_FUNCTION_NAME"@.len() == 24);
    assert(env_lookup(env, "AWS_LAMBDA_FUNCTION_NAME"@) == Some(name));
    assert(env_lookup(env, "AWS_LAMBDA_RUNTIME_API"@) == env_lookup(
        env.drop_last(),
        "AWS_LAMBDA_RUNTIME_API"@,
    ));
    assert(env_lookup(env.drop_last(), "AWS_LAMBDA_RUNTIME_API"@) == Some(runtime_api));
}

/// The result of a metadata read, recovered locally: a failed read is
/// replaced by empty metadata rather than failing the spawn.
pub fn metadata_or_default<E>(read: Result<Vec<(String, String)>, E>) -> (metadata: Vec<
    (String, String),
>)
    ensures
        match read {
            Ok(m) => metadata == m,
            Err(_) => metadata.deep_view() == Seq::<(Seq<char>, Seq<char>)>::empty(),
        },
{
    match read {
        Ok(m) => m,
        Err(_) => {
            let empty: Vec<(String, String)> = Vec::new();
            proof {
                assert(empty.deep_view() =~= Seq::<(Seq<char>, Seq<char>)>::empty());
            }
            empty
        },
    }
}

/// The first of the two things a running function process's supervisor
/// can observe.
pub enum ProcessEvent {
    /// The process exited on its own.
    Exited,
    /// The global shutdown signal arrived first.
    ShutdownRequested,
}

/// What the supervisor does once its wait ends.
pub enum SupervisorAction {
    /// Send a death notification carrying the function name, so the
    /// scheduler garbage-collects the registry entry.
    NotifyExit {
        /// The function whose process exited.
        function_name: String,
    },
    /// Forcibly terminate the process and send no notification: the
    /// whole system is tearing down and registry cleanup is moot.
    TerminateProcess,
}

/// Decides the outcome of the supervisor's exit-versus-shutdown race:
/// a natural exit is notified for cleanup; a shutdown terminates the
/// process without any notification.
pub fn supervise_outcome(function_name: String, event: ProcessEvent) -> (action: SupervisorAction)
    ensures
        match event {
            ProcessEvent::Exited => action matches SupervisorAction::NotifyExit { function_name: n }
                && n@ == function_name@,
            ProcessEvent::ShutdownRequested => action is TerminateProcess,
        },
{
    match event {
        ProcessEvent::Exited => SupervisorAction::NotifyExit { function_name },
        ProcessEvent::ShutdownRequested => SupervisorAction::TerminateProcess,
    }
}

} // verus!
