//! Binary resolution: the decision procedure that picks the remote server
//! binary for an attempt, either by building it from source (development
//! builds targeting the local platform) or by a release lookup.
//!
//! Resolution is a small state machine. The caller performs each returned
//! action (display a status line, run a toolchain command, query the
//! release-fetch collaborator) and reports its outcome; the transition
//! functions here decide everything else.

use vstd::prelude::*;
use vstd::string::StringExecFns;

verus! {

/// A named distribution track, determining which remote server build is
/// fetched and where it is installed.
#[derive(Clone, Copy, PartialEq, Eq, Structural, Debug)]
pub enum ReleaseChannel {
    Dev,
    Nightly,
    Preview,
    Stable,
}

impl ReleaseChannel {
    /// The channel's short name, as used in install paths.
    pub open spec fn spec_dev_name(self) -> Seq<char> {
        match self {
            ReleaseChannel::Dev => "dev"@,
            ReleaseChannel::Nightly => "nightly"@,
            ReleaseChannel::Preview => "preview"@,
            ReleaseChannel::Stable => "stable"@,
        }
    }

    /// The channel's short name, as used in install paths.
    pub fn dev_name(&self) -> (r: &'static str)
        ensures
            r@ == self.spec_dev_name(),
    {
        match self {
            ReleaseChannel::Dev => "dev",
            ReleaseChannel::Nightly => "nightly",
            ReleaseChannel::Preview => "preview",
            ReleaseChannel::Stable => "stable",
        }
    }
}

/// A semantic version.
#[derive(Clone, Copy, PartialEq, Eq, Structural, Debug)]
pub struct SemVersion {
    pub major: u64,
    pub minor: u64,
    pub patch: u64,
}

/// An operating system and architecture pair, as the transport requests it.
pub struct SshPlatform {
    pub os: String,
    pub arch: String,
}

/// Immutable facts about the running application that the decision procedure
/// reads: whether this is a development build, the local host's platform,
/// the release channel, and the running application's own version.
pub struct ResolverConfig {
    pub is_development_build: bool,
    pub local_os: String,
    pub local_arch: String,
    pub release_channel: ReleaseChannel,
    pub app_version: SemVersion,
}

/// A step of the dev-mode source build, in order.
#[derive(Clone, Copy, PartialEq, Eq, Structural, Debug)]
pub enum BuildStep {
    Compile,
    Strip,
    Compress,
}

/// The binary chosen for an attempt: a path to a (possibly compressed)
/// executable, and its version.
pub struct ResolvedBinary {
    pub path: String,
    pub version: SemVersion,
}

/// Why resolution failed.
pub enum ResolveError {
    /// A build-toolchain command exited non-zero; holds that command.
    BuildFailure { command: String },
    /// The release lookup failed; holds the collaborator's message.
    ResolutionFailure { message: String },
}

/// The resolution state machine of one attempt.
pub enum ResolveState {
    /// Awaiting the outcome of the given dev-build step.
    Building { step: BuildStep },
    /// Awaiting the release-fetch collaborator.
    Fetching,
    /// Resolution succeeded.
    Resolved { binary: ResolvedBinary },
    /// Resolution failed.
    Failed { error: ResolveError },
}

/// Mathematical image of `ResolvedBinary`.
pub struct ResolvedBinaryView {
    pub path: Seq<char>,
    pub version: SemVersion,
}

/// Mathematical image of `ResolveError`.
pub enum ResolveErrorView {
    BuildFailure(Seq<char>),
    ResolutionFailure(Seq<char>),
}

/// Mathematical image of `ResolveState`.
pub enum ResolveStateView {
    Building(BuildStep),
    Fetching,
    Resolved(ResolvedBinaryView),
    Failed(ResolveErrorView),
}

/// What the caller must do next to advance binary resolution.
#[allow(inconsistent_fields)]
pub enum ResolveAction {
    /// Display the status line if one is given, then run the command and
    /// report whether it exited successfully.
    RunCommand { status: Option<String>, command: String },
    /// Display the status line, then ask the release-fetch collaborator for
    /// the artifact matching the requested platform and the release channel,
    /// and report the result.
    FetchRelease { status: String },
    /// Resolution has finished; nothing to run.
    Done,
}

/// Mathematical image of `ResolveAction`.
pub enum ActionView {
    Run(Option<Seq<char>>, Seq<char>),
    Fetch(Seq<char>),
    Done,
}

impl View for ResolveState {
    type V = ResolveStateView;

    open spec fn view(&self) -> ResolveStateView {
        match self {
            ResolveState::Building { step } => ResolveStateView::Building(*step),
            ResolveState::Fetching => ResolveStateView::Fetching,
            ResolveState::Resolved { binary } => ResolveStateView::Resolved(
                ResolvedBinaryView { path: binary.path@, version: binary.version },
            ),
            ResolveState::Failed { error } => ResolveStateView::Failed(
                match error {
                    ResolveError::BuildFailure { command } => ResolveErrorView::BuildFailure(
                        command@,
                    ),
                    ResolveError::ResolutionFailure { message } => ResolveErrorView::ResolutionFailure(
                        message@,
                    ),
                },
            ),
        }
    }
}

impl View for ResolveAction {
    type V = ActionView;

    open spec fn view(&self) -> ActionView {
        match self {
            ResolveAction::RunCommand { status, command } => ActionView::Run(
                match status {
                    Some(s) => Some(s@),
                    None => None,
                },
                command@,
            ),
            ResolveAction::FetchRelease { status } => ActionView::Fetch(status@),
            ResolveAction::Done => ActionView::Done,
        }
    }
}

/// The toolchain command that performs `step`.
pub open spec fn command_for(step: BuildStep) -> Seq<char> {
    match step {
        BuildStep::Compile => "cargo build --package remote_server"@,
        BuildStep::Strip => "strip target/debug/remote_server"@,
        BuildStep::Compress => "gzip -9 -f target/debug/remote_server"@,
    }
}

/// Where the compressed dev-build artifact lands, below the working directory.
pub open spec fn built_artifact_suffix() -> Seq<char> {
    "/target/debug/remote_server.gz"@
}

/// The status line shown while building from source.
pub open spec fn building_status() -> Seq<char> {
    "building remote server binary from source"@
}

/// The status line shown before the release lookup.
pub open spec fn checking_status() -> Seq<char> {
    "checking for latest version of remote server"@
}

/// Dev-mode source builds apply exactly when this is a development build and
/// the requested platform is the local host's, in both its parts.
pub open spec fn builds_locally(cfg: ResolverConfig, os: Seq<char>, arch: Seq<char>) -> bool {
    cfg.is_development_build && os == cfg.local_os@ && arch == cfg.local_arch@
}

/// First transition of resolution: either enter the source build at its
/// compile step, or go straight to the release lookup.
pub open spec fn spec_start(cfg: ResolverConfig, os: Seq<char>, arch: Seq<char>) -> (
    ResolveStateView,
    ActionView,
) {
    if builds_locally(cfg, os, arch) {
        (
            ResolveStateView::Building(BuildStep::Compile),
            ActionView::Run(Some(building_status()), command_for(BuildStep::Compile)),
        )
    } else {
        (ResolveStateView::Fetching, ActionView::Fetch(checking_status()))
    }
}

/// Transition after a dev-build step reported its exit: on success the next
/// step in order (compile, strip, compress), or, after the compress step,
/// the finished artifact under `cwd` with the application's own version; on
/// failure, a build failure naming the failed command, with nothing further
/// run.
pub open spec fn spec_after_command(
    step: BuildStep,
    success: bool,
    version: SemVersion,
    cwd: Seq<char>,
) -> (ResolveStateView, ActionView) {
    if success {
        match step {
            BuildStep::Compile => (
                ResolveStateView::Building(BuildStep::Strip),
                ActionView::Run(None, command_for(BuildStep::Strip)),
            ),
            BuildStep::Strip => (
                ResolveStateView::Building(BuildStep::Compress),
                ActionView::Run(None, command_for(BuildStep::Compress)),
            ),
            BuildStep::Compress => (
                ResolveStateView::Resolved(
                    ResolvedBinaryView { path: cwd + built_artifact_suffix(), version },
                ),
                ActionView::Done,
            ),
        }
    } else {
        (
            ResolveStateView::Failed(ResolveErrorView::BuildFailure(command_for(step))),
            ActionView::Done,
        )
    }
}

/// Transition after the release lookup reported: its artifact path with the
/// application's version, or the lookup's failure, propagated as-is.
pub open spec fn spec_after_fetch(
    result: Result<Seq<char>, Seq<char>>,
    version: SemVersion,
) -> ResolveStateView {
    match result {
        Ok(path) => ResolveStateView::Resolved(ResolvedBinaryView { path, version }),
        Err(message) => ResolveStateView::Failed(ResolveErrorView::ResolutionFailure(message)),
    }
}

/// The command line that performs `step`.
pub fn command_string(step: &BuildStep) -> (r: String)
    ensures
        r@ == command_for(*step),
{
    match step {
        BuildStep::Compile => String::from_str("cargo build --package remote_server"),
        BuildStep::Strip => String::from_str("strip target/debug/remote_server"),
        BuildStep::Compress => String::from_str("gzip -9 -f target/debug/remote_server"),
    }
}

/// A state from which resolution issues no further work.
pub open spec fn is_terminal(s: ResolveStateView) -> bool {
    s is Resolved || s is Failed
}

/// Begin binary resolution for `platform` under `cfg`.
pub fn start_resolve(cfg: &ResolverConfig, platform: &SshPlatform) -> (r: (
    ResolveState,
    ResolveAction,
))
    ensures
        (r.0@, r.1@) == spec_start(*cfg, platform.os@, platform.arch@),
{
    if cfg.is_development_build && platform.os == cfg.local_os && platform.arch == cfg.local_arch {
        (
            ResolveState::Building { step: BuildStep::Compile },
            ResolveAction::RunCommand {
                status: Some(String::from_str("building remote server binary from source")),
                command: command_string(&BuildStep::Compile),
            },
        )
    } else {
        (
            ResolveState::Fetching,
            ResolveAction::FetchRelease {
                status: String::from_str("checking for latest version of remote server"),
            },
        )
    }
}

/// Advance a source build after one of its commands exited: `success` is
/// whether the command exited zero, `cwd` the working directory the build
/// ran in.
pub fn on_command_finished(cfg: &ResolverConfig, state: &ResolveState, success: bool, cwd: &str)
    -> (r: (ResolveState, ResolveAction))
    requires
        state@ is Building,
    ensures
        (r.0@, r.1@) == spec_after_command(state@->Building_0, success, cfg.app_version, cwd@),
{
    match state {
        ResolveState::Building { step } => {
            if success {
                match step {
                    BuildStep::Compile => (
                        ResolveState::Building { step: BuildStep::Strip },
                        ResolveAction::RunCommand {
                            status: None,
                            command: command_string(&BuildStep::Strip),
                        },
                    ),
                    BuildStep::Strip => (
                        ResolveState::Building { step: BuildStep::Compress },
                        ResolveAction::RunCommand {
                            status: None,
                            command: command_string(&BuildStep::Compress),
                        },
                    ),
                    BuildStep::Compress => (
                        ResolveState::Resolved {
                            binary: ResolvedBinary {
                                path: String::from_str(cwd).concat(
                                    "/target/debug/remote_server.gz",
                                ),
                                version: cfg.app_version,
                            },
                        },
                        ResolveAction::Done,
                    ),
                }
            } else {
                (
                    ResolveState::Failed {
                        error: ResolveError::BuildFailure { command: command_string(step) },
                    },
                    ResolveAction::Done,
                )
            }
        },
        _ => {
            proof {
                assert(false);
            }
            (ResolveState::Fetching, ResolveAction::Done)
        },
    }
}

/// Record the release lookup's outcome: `Ok` holds the artifact's path,
/// `Err` the collaborator's failure message.
pub fn on_fetch_finished(cfg: &ResolverConfig, state: &ResolveState, result: Result<
    String,
    String,
>) -> (r: ResolveState)
    requires
        state@ is Fetching,
    ensures
        r@ == spec_after_fetch(
            match result {
                Ok(p) => Ok(p@),
                Err(m) => Err(m@),
            },
            cfg.app_version,
        ),
{
    match result {
        Ok(path) => ResolveState::Resolved {
            binary: ResolvedBinary { path, version: cfg.app_version },
        },
        Err(message) => ResolveState::Failed {
            error: ResolveError::ResolutionFailure { message },
        },
    }
}

/// Dev-mode resolution runs the compile, strip and compress commands in that
/// order, ending in the artifact below the build's working directory with
/// the application's own version; and it fails fast: a failed strip yields a
/// build failure naming the strip command, with no compress step issued.
pub proof fn lemma_dev_build_order(cfg: ResolverConfig, os: Seq<char>, arch: Seq<char>, cwd: Seq<char>)
    requires
        builds_locally(cfg, os, arch),
    ensures
        spec_start(cfg, os, arch) == (
            (
                ResolveStateView::Building(BuildStep::Compile),
                ActionView::Run(Some(building_status()), command_for(BuildStep::Compile)),
            )
        ),
        spec_after_command(BuildStep::Compile, true, cfg.app_version, cwd) == (
            (
                ResolveStateView::Building(BuildStep::Strip),
                ActionView::Run(None, command_for(BuildStep::Strip)),
            )
        ),
        spec_after_command(BuildStep::Strip, true, cfg.app_version, cwd) == (
            (
                ResolveStateView::Building(BuildStep::Compress),
                ActionView::Run(None, command_for(BuildStep::Compress)),
            )
        ),
        spec_after_command(BuildStep::Compress, true, cfg.app_version, cwd) == (
            (
                ResolveStateView::Resolved(
                    ResolvedBinaryView { path: cwd + built_artifact_suffix(), version: cfg.app_version },
                ),
                ActionView::Done,
            )
        ),
        forall|step: BuildStep, cwd2: Seq<char>|
            (#[trigger] spec_after_command(step, false, cfg.app_version, cwd2)) == (
                (
                    ResolveStateView::Failed(ResolveErrorView::BuildFailure(command_for(step))),
                    ActionView::Done,
                )
            ) && is_terminal(spec_after_command(step, false, cfg.app_version, cwd2).0),
{
}

/// Outside a dev-mode local build, resolution skips the source-build branch
/// entirely: it starts with the release lookup, and the lookup's outcome,
/// whichever it is, ends resolution — so the release-fetch collaborator is
/// consulted exactly once.
pub proof fn lemma_release_fetch_once(
    cfg: ResolverConfig,
    os: Seq<char>,
    arch: Seq<char>,
    result: Result<Seq<char>, Seq<char>>,
)
    requires
        !builds_locally(cfg, os, arch),
    ensures
        spec_start(cfg, os, arch) == ((ResolveStateView::Fetching, ActionView::Fetch(checking_status()))),
        is_terminal(spec_after_fetch(result, cfg.app_version)),
{
}

} // verus!
