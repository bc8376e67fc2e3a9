use ssh_bootstrap::resolver::BuildStep;
use ssh_bootstrap::resolver::ReleaseChannel;
use ssh_bootstrap::resolver::ResolveAction;
use ssh_bootstrap::resolver::ResolveError;
use ssh_bootstrap::resolver::ResolveState;
use ssh_bootstrap::resolver::ResolverConfig;
use ssh_bootstrap::resolver::SemVersion;
use ssh_bootstrap::resolver::SshPlatform;
use ssh_bootstrap::resolver::on_command_finished;
use ssh_bootstrap::resolver::on_fetch_finished;
use ssh_bootstrap::resolver::start_resolve;

fn version() -> SemVersion {
    SemVersion { major: 0, minor: 143, patch: 5 }
}

fn dev_config() -> ResolverConfig {
    ResolverConfig {
        is_development_build: true,
        local_os: String::from("linux"),
        local_arch: String::from("x86_64"),
        release_channel: ReleaseChannel::Dev,
        app_version: version(),
    }
}

fn stable_config() -> ResolverConfig {
    ResolverConfig {
        is_development_build: false,
        local_os: String::from("linux"),
        local_arch: String::from("x86_64"),
        release_channel: ReleaseChannel::Stable,
        app_version: version(),
    }
}

fn local_platform() -> SshPlatform {
    SshPlatform { os: String::from("linux"), arch: String::from("x86_64") }
}

#[test]
fn stable_build_goes_straight_to_the_release_lookup() {
    let cfg = stable_config();
    let (state, action) = start_resolve(&cfg, &local_platform());
    assert!(matches!(state, ResolveState::Fetching));
    match action {
        ResolveAction::FetchRelease { status } => {
            assert_eq!(status, "checking for latest version of remote server");
        }
        _ => panic!("expected a release lookup"),
    }
    // the lookup's outcome ends resolution: it is consulted exactly once
    let done = on_fetch_finished(&cfg, &state, Ok(String::from("/cache/remote_server.gz")));
    match done {
        ResolveState::Resolved { binary } => {
            assert_eq!(binary.path, "/cache/remote_server.gz");
            assert_eq!(binary.version, version());
        }
        _ => panic!("expected resolution to finish"),
    }
}

#[test]
fn failed_release_lookup_is_propagated() {
    let cfg = stable_config();
    let (state, _) = start_resolve(&cfg, &local_platform());
    let done = on_fetch_finished(&cfg, &state, Err(String::from("no release found")));
    match done {
        ResolveState::Failed { error: ResolveError::ResolutionFailure { message } } => {
            assert_eq!(message, "no release found");
        }
        _ => panic!("expected a resolution failure"),
    }
}

#[test]
fn dev_build_for_another_platform_uses_the_release_lookup() {
    let cfg = dev_config();
    let platform = SshPlatform { os: String::from("macos"), arch: String::from("aarch64") };
    let (state, _) = start_resolve(&cfg, &platform);
    assert!(matches!(state, ResolveState::Fetching));
}

#[test]
fn dev_build_runs_compile_strip_compress_in_order() {
    let cfg = dev_config();
    let (state, action) = start_resolve(&cfg, &local_platform());
    assert!(matches!(state, ResolveState::Building { step: BuildStep::Compile }));
    match action {
        ResolveAction::RunCommand { status, command } => {
            assert_eq!(status.as_deref(), Some("building remote server binary from source"));
            assert_eq!(command, "cargo build --package remote_server");
        }
        _ => panic!("expected the compile command"),
    }
    let (state, action) = on_command_finished(&cfg, &state, true, "/work");
    assert!(matches!(state, ResolveState::Building { step: BuildStep::Strip }));
    match action {
        ResolveAction::RunCommand { status, command } => {
            assert!(status.is_none());
            assert_eq!(command, "strip target/debug/remote_server");
        }
        _ => panic!("expected the strip command"),
    }
    let (state, action) = on_command_finished(&cfg, &state, true, "/work");
    assert!(matches!(state, ResolveState::Building { step: BuildStep::Compress }));
    match action {
        ResolveAction::RunCommand { status, command } => {
            assert!(status.is_none());
            assert_eq!(command, "gzip -9 -f target/debug/remote_server");
        }
        _ => panic!("expected the compress command"),
    }
    let (state, action) = on_command_finished(&cfg, &state, true, "/work");
    match state {
        ResolveState::Resolved { binary } => {
            assert_eq!(binary.path, "/work/target/debug/remote_server.gz");
            assert_eq!(binary.version, version());
        }
        _ => panic!("expected resolution to finish"),
    }
    assert!(matches!(action, ResolveAction::Done));
}

#[test]
fn failed_strip_aborts_before_the_compress_step() {
    let cfg = dev_config();
    let (state, _) = start_resolve(&cfg, &local_platform());
    let (state, _) = on_command_finished(&cfg, &state, true, "/work");
    // strip exits non-zero: the build fails fast, naming the failing command
    let (state, action) = on_command_finished(&cfg, &state, false, "/work");
    match state {
        ResolveState::Failed { error: ResolveError::BuildFailure { command } } => {
            assert_eq!(command, "strip target/debug/remote_server");
        }
        _ => panic!("expected a build failure"),
    }
    assert!(matches!(action, ResolveAction::Done));
}

#[test]
fn channel_names_match_their_install_paths() {
    assert_eq!(ReleaseChannel::Dev.dev_name(), "dev");
    assert_eq!(ReleaseChannel::Nightly.dev_name(), "nightly");
    assert_eq!(ReleaseChannel::Preview.dev_name(), "preview");
    assert_eq!(ReleaseChannel::Stable.dev_name(), "stable");
}
