//! The controller of one connection attempt: a state machine from the
//! operator's first action to a finished project view or a torn-down window.
//!
//! The caller owns the window, the handshake task and the worktree setup; it
//! reports each outcome as an event and performs the action each transition
//! returns. All failures are fatal to the attempt — nothing is retried; a
//! retry is a fresh attempt with a fresh controller.

use vstd::prelude::*;

verus! {

/// The phase of one connection attempt.
#[derive(Clone, Copy, PartialEq, Eq, Structural, Debug)]
pub enum Phase {
    /// No attempt is running yet.
    Idle,
    /// The project window and context for the attempt are being created.
    Opening,
    /// The transport handshake runs; the prompt surface is shown.
    Handshaking,
    /// The handshake succeeded; remote worktrees are being set up.
    SettingUpWorktrees,
    /// The attempt finished: the project view sits atop the session.
    Connected,
    /// The attempt failed or was abandoned; nothing of it remains open.
    Failed,
}

/// What the attempt's surroundings report to the controller.
#[derive(Clone, Copy, PartialEq, Eq, Structural, Debug)]
pub enum BootstrapEvent {
    /// The operator initiated the attempt.
    Initiated,
    /// The project window and context were created.
    WindowOpened,
    /// The handshake task finished with a session.
    HandshakeSucceeded,
    /// The handshake task finished with an error.
    HandshakeFailed,
    /// The operator dismissed the prompt surface.
    Dismissed,
    /// One requested path's worktree was resolved or created.
    WorktreeReady,
    /// A requested path's worktree could not be set up.
    WorktreeFailed,
}

/// What the caller must do after a transition.
#[derive(Clone, Copy, PartialEq, Eq, Structural, Debug)]
pub enum BootstrapAction {
    /// Open the project window and context; show the prompt surface.
    OpenWindow,
    /// Spawn the handshake task with the attempt's delegate attached.
    SpawnHandshake,
    /// Resolve or create the worktree of the next requested path.
    ResolveNextWorktree,
    /// Rebuild the project view atop the session; the prompt surface goes.
    ReplaceRootView,
    /// Tear down the window and the prompt surface; pending prompt
    /// responders are dropped with them.
    TearDown,
    /// Nothing: a late or irrelevant event is discarded.
    Ignore,
}

/// One attempt's controller: its phase and its worktree-setup progress.
pub struct BootstrapController {
    pub phase: Phase,
    /// How many worktree paths the attempt asked for.
    pub path_count: usize,
    /// How many of them are set up so far.
    pub paths_done: usize,
}

/// The transition function of an attempt. Of note: a handshake result or any
/// other event arriving after the attempt already failed (say, after the
/// operator dismissed the surface) is discarded; a worktree failure is fatal
/// even though the transport session itself succeeded — there is no partial
/// multi-path success.
pub open spec fn spec_step(pre: BootstrapController, event: BootstrapEvent) -> (
    BootstrapController,
    BootstrapAction,
) {
    match (pre.phase, event) {
        (Phase::Idle, BootstrapEvent::Initiated) => (
            (BootstrapController { phase: Phase::Opening, ..pre }),
            BootstrapAction::OpenWindow,
        ),
        (Phase::Opening, BootstrapEvent::WindowOpened) => (
            (BootstrapController { phase: Phase::Handshaking, ..pre }),
            BootstrapAction::SpawnHandshake,
        ),
        (Phase::Handshaking, BootstrapEvent::HandshakeSucceeded) => if pre.path_count == 0 {
            (
                (BootstrapController { phase: Phase::Connected, ..pre }),
                BootstrapAction::ReplaceRootView,
            )
        } else {
            (
                (BootstrapController { phase: Phase::SettingUpWorktrees, paths_done: 0, ..pre }),
                BootstrapAction::ResolveNextWorktree,
            )
        },
        (Phase::Handshaking, BootstrapEvent::HandshakeFailed) => (
            (BootstrapController { phase: Phase::Failed, ..pre }),
            BootstrapAction::TearDown,
        ),
        (Phase::Handshaking, BootstrapEvent::Dismissed) => (
            (BootstrapController { phase: Phase::Failed, ..pre }),
            BootstrapAction::TearDown,
        ),
        (Phase::SettingUpWorktrees, BootstrapEvent::WorktreeReady) => if pre.paths_done + 1
            == pre.path_count {
            (
                (BootstrapController { phase: Phase::Connected, paths_done: pre.path_count, ..pre }),
                BootstrapAction::ReplaceRootView,
            )
        } else {
            (
                (BootstrapController { paths_done: (pre.paths_done + 1) as usize, ..pre }),
                BootstrapAction::ResolveNextWorktree,
            )
        },
        (Phase::SettingUpWorktrees, BootstrapEvent::WorktreeFailed) => (
            (BootstrapController { phase: Phase::Failed, ..pre }),
            BootstrapAction::TearDown,
        ),
        (Phase::SettingUpWorktrees, BootstrapEvent::Dismissed) => (
            (BootstrapController { phase: Phase::Failed, ..pre }),
            BootstrapAction::TearDown,
        ),
        _ => (pre, BootstrapAction::Ignore),
    }
}

impl BootstrapController {
    /// Worktree progress never exceeds what was asked for, and worktree
    /// setup is only ever in progress while paths remain.
    pub open spec fn wf(self) -> bool {
        &&& self.paths_done <= self.path_count
        &&& self.phase == Phase::SettingUpWorktrees ==> self.paths_done < self.path_count
    }

    /// A controller for an attempt that requests `path_count` worktree paths.
    pub fn new(path_count: usize) -> (r: Self)
        ensures
            r.wf(),
            r.phase == Phase::Idle,
            r.path_count == path_count,
            r.paths_done == 0,
    {
        BootstrapController { phase: Phase::Idle, path_count, paths_done: 0 }
    }

    /// Advance the attempt by one event; the caller performs the returned
    /// action.
    pub fn step(&mut self, event: BootstrapEvent) -> (action: BootstrapAction)
        requires
            old(self).wf(),
        ensures
            final(self).wf(),
            (*final(self), action) == spec_step(*old(self), event),
    {
        match (self.phase, event) {
            (Phase::Idle, BootstrapEvent::Initiated) => {
                self.phase = Phase::Opening;
                BootstrapAction::OpenWindow
            },
            (Phase::Opening, BootstrapEvent::WindowOpened) => {
                self.phase = Phase::Handshaking;
                BootstrapAction::SpawnHandshake
            },
            (Phase::Handshaking, BootstrapEvent::HandshakeSucceeded) => {
                if self.path_count == 0 {
                    self.phase = Phase::Connected;
                    BootstrapAction::ReplaceRootView
                } else {
                    self.phase = Phase::SettingUpWorktrees;
                    self.paths_done = 0;
                    BootstrapAction::ResolveNextWorktree
                }
            },
            (Phase::Handshaking, BootstrapEvent::HandshakeFailed) => {
                self.phase = Phase::Failed;
                BootstrapAction::TearDown
            },
            (Phase::Handshaking, BootstrapEvent::Dismissed) => {
                self.phase = Phase::Failed;
                BootstrapAction::TearDown
            },
            (Phase::SettingUpWorktrees, BootstrapEvent::WorktreeReady) => {
                if self.paths_done + 1 == self.path_count {
                    self.phase = Phase::Connected;
                    self.paths_done = self.path_count;
                    BootstrapAction::ReplaceRootView
                } else {
                    self.paths_done = self.paths_done + 1;
                    BootstrapAction::ResolveNextWorktree
                }
            },
            (Phase::SettingUpWorktrees, BootstrapEvent::WorktreeFailed) => {
                self.phase = Phase::Failed;
                BootstrapAction::TearDown
            },
            (Phase::SettingUpWorktrees, BootstrapEvent::Dismissed) => {
                self.phase = Phase::Failed;
                BootstrapAction::TearDown
            },
            _ => BootstrapAction::Ignore,
        }
    }
}

/// Dismissing the prompt surface during the handshake abandons the attempt:
/// the controller fails and tears the window down, and the handshake task's
/// result, whichever it is, is discarded when it eventually arrives.
pub proof fn lemma_dismissal_abandons_attempt(pre: BootstrapController, late: BootstrapEvent)
    requires
        pre.wf(),
        pre.phase == Phase::Handshaking,
        late == BootstrapEvent::HandshakeSucceeded || late == BootstrapEvent::HandshakeFailed,
    ensures
        spec_step(pre, BootstrapEvent::Dismissed).0.phase == Phase::Failed,
        spec_step(pre, BootstrapEvent::Dismissed).1 == BootstrapAction::TearDown,
        spec_step(spec_step(pre, BootstrapEvent::Dismissed).0, late) == (
            (spec_step(pre, BootstrapEvent::Dismissed).0, BootstrapAction::Ignore)
        ),
{
}

} // verus!
