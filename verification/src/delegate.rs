//! The transport's callback surface for one attempt: password requests,
//! status updates and the per-channel install path of the remote server.
//!
//! The pre-supplied password is a single-use credential: it answers the
//! first password request of the attempt and is consumed by it; every later
//! request goes to the operator through the prompt sink.

use vstd::prelude::*;
use vstd::string::StringExecFns;
use crate::prompt::PromptResolution;
use crate::prompt::SshPrompt;
use crate::prompt::prompt_issued;
use crate::prompt::status_set;
use crate::resolver::ReleaseChannel;
use crate::resolver::SshPlatform;

verus! {

/// What one attempt is asked to connect to: the host, an optional
/// pre-supplied password, the requested platform, and the release channel.
/// Immutable once the attempt starts.
pub struct ConnectionOptions {
    pub host: String,
    pub password: Option<String>,
    pub platform: SshPlatform,
    pub release_channel: ReleaseChannel,
}

/// How a password request was answered.
pub enum PasswordResponse {
    /// Resolved at once from the cached credential.
    Immediate(String),
    /// Forwarded to the operator: holds the id of the prompt now pending.
    Forwarded(u64),
}

/// The delegate the handshake task drives: it holds the attempt's cached
/// password, if the operator supplied one with the connection options.
pub struct SshClientDelegate {
    /// The pre-supplied password; consumed by the first password request.
    pub known_password: Option<String>,
}

/// Relates delegate and sink before and after `ask_password(prompt)`: a
/// cached password answers the request at once and is consumed, leaving the
/// sink untouched; otherwise the request is forwarded to the operator as a
/// pending prompt. After either outcome no password remains cached.
pub open spec fn password_asked(
    pre: SshClientDelegate,
    post: SshClientDelegate,
    ui_pre: SshPrompt,
    ui_post: SshPrompt,
    prompt: String,
    r: PasswordResponse,
    cancelled: Option<PromptResolution>,
) -> bool {
    &&& post.known_password is None
    &&& match pre.known_password {
        Some(pw) => {
            &&& r == PasswordResponse::Immediate(pw)
            &&& ui_post == ui_pre
            &&& cancelled is None
        },
        None => {
            &&& r == PasswordResponse::Forwarded(ui_pre.next_id)
            &&& prompt_issued(ui_pre, ui_post, prompt, cancelled)
        },
    }
}

impl SshClientDelegate {
    /// A delegate for one attempt.
    pub fn new(known_password: Option<String>) -> (r: Self)
        ensures
            r.known_password == known_password,
    {
        SshClientDelegate { known_password }
    }

    /// Answer the transport's password request: the pre-supplied password
    /// answers the first request of the attempt and is consumed by it; every
    /// later request — even with identical prompt text — is surfaced to the
    /// operator through the sink. Returns the response and the resolution of
    /// a prompt the new one replaced, if any.
    pub fn ask_password(&mut self, prompt: String, ui: &mut SshPrompt) -> (r: (
        PasswordResponse,
        Option<PromptResolution>,
    ))
        requires
            old(ui).wf(),
            old(ui).next_id < u64::MAX,
        ensures
            final(ui).wf(),
            password_asked(*old(self), *final(self), *old(ui), *final(ui), prompt, r.0, r.1),
    {
        match self.known_password.take() {
            Some(pw) => (PasswordResponse::Immediate(pw), None),
            None => {
                let id: u64 = ui.next_id;
                let cancelled = ui.set_prompt(prompt);
                (PasswordResponse::Forwarded(id), cancelled)
            },
        }
    }

    /// Forward a transport status update to the sink.
    pub fn set_status(&self, status: Option<String>, ui: &mut SshPrompt)
        requires
            old(ui).wf(),
        ensures
            final(ui).wf(),
            status_set(*old(ui), *final(ui), status),
    {
        ui.set_status(status);
    }
}

/// The install-path prefix of the remote server binary on the host.
pub open spec fn install_prefix() -> Seq<char> {
    ".local/zed-remote-server-"@
}

/// The deterministic per-channel install path of the remote server binary on
/// the host: a dotted hidden directory keyed by the channel's name. No I/O.
pub fn remote_server_binary_path(channel: &ReleaseChannel) -> (r: String)
    ensures
        r@ == install_prefix() + channel.spec_dev_name(),
{
    String::from_str(".local/zed-remote-server-").concat(channel.dev_name())
}

/// A pre-supplied password answers exactly the first password request of an
/// attempt: the first request resolves immediately with it, and a second
/// request — even with identical prompt text — goes to the operator as a
/// pending prompt, never to the cached value.
pub proof fn lemma_password_answers_only_first(
    d0: SshClientDelegate,
    d1: SshClientDelegate,
    d2: SshClientDelegate,
    ui0: SshPrompt,
    ui1: SshPrompt,
    ui2: SshPrompt,
    pw: String,
    prompt1: String,
    prompt2: String,
    r1: PasswordResponse,
    c1: Option<PromptResolution>,
    r2: PasswordResponse,
    c2: Option<PromptResolution>,
)
    requires
        d0.known_password == Some(pw),
        password_asked(d0, d1, ui0, ui1, prompt1, r1, c1),
        password_asked(d1, d2, ui1, ui2, prompt2, r2, c2),
    ensures
        r1 == PasswordResponse::Immediate(pw),
        r2 is Forwarded,
        prompt_issued(ui1, ui2, prompt2, c2),
{
}

} // verus!
