//! The prompt sink for one connection attempt: a single-slot request/response
//! primitive together with the latest status line.
//!
//! The transport side of an attempt issues prompts and status updates; the
//! operator side answers or dismisses them. Each prompt gets an id unique
//! within the attempt, and a ghost map records how every prompt left the
//! sink, so that "every issued prompt is resolved exactly once, and at most
//! one is ever outstanding" is a proved invariant rather than a convention.

use vstd::prelude::*;
use crate::text::contains_seq;
use crate::text::contains_str;

verus! {

/// The marker that distinguishes a visible yes/no confirmation from a
/// masked secret prompt.
pub open spec fn confirmation_marker() -> Seq<char> {
    "yes/no"@
}

/// Operator input for `message` is masked unless the message asks for a
/// yes/no confirmation.
pub open spec fn masked_for(message: Seq<char>) -> bool {
    !contains_seq(message, confirmation_marker())
}

/// An unanswered prompt held by the sink: its attempt-unique id, the message
/// shown to the operator, and whether the operator's input is masked.
pub struct PendingPrompt {
    pub id: u64,
    pub message: String,
    pub masked: bool,
}

/// What a prompt's waiter observes when the prompt leaves the sink:
/// the operator's text, or `None` when the prompt was abandoned.
pub struct PromptResolution {
    pub id: u64,
    pub answer: Option<String>,
}

/// What the sink shows: a pending prompt takes priority over any status line.
pub enum Displayed {
    Prompt(Seq<char>),
    Status(Seq<char>),
    Nothing,
}

/// The UI-facing sink of one attempt: the latest status line, the pending
/// prompt (at most one), and the operator's input buffer.
pub struct SshPrompt {
    pub host: String,
    pub status_message: Option<String>,
    pub prompt: Option<PendingPrompt>,
    pub input: String,
    pub next_id: u64,
    pub resolved: Ghost<Map<int, Option<Seq<char>>>>,
}

impl SshPrompt {
    /// Every id below `next_id` was issued; all of them except the pending
    /// one (if any) have exactly one recorded resolution.
    pub open spec fn wf(self) -> bool {
        &&& (self.prompt matches Some(p) ==> {
            &&& p.id < self.next_id
            &&& !self.resolved@.dom().contains(p.id as int)
            &&& p.masked == masked_for(p.message@)
        })
        &&& (forall|i: int| #[trigger] self.resolved@.dom().contains(i) ==> 0 <= i < self.next_id)
        &&& (forall|i: int|
            0 <= i < self.next_id && !(self.prompt matches Some(p) && p.id == i)
                ==> #[trigger] self.resolved@.dom().contains(i))
    }

    /// What the sink displays: the pending prompt whenever one exists,
    /// otherwise the status line, otherwise nothing.
    pub open spec fn displayed(self) -> Displayed {
        match self.prompt {
            Some(p) => Displayed::Prompt(p.message@),
            None => match self.status_message {
                Some(s) => Displayed::Status(s@),
                None => Displayed::Nothing,
            },
        }
    }

    /// A fresh sink for one connection attempt to `host`.
    pub fn new(host: String) -> (r: Self)
        ensures
            r.wf(),
            r.host == host,
            r.status_message is None,
            r.prompt is None,
            r.input@ == Seq::<char>::empty(),
            r.next_id == 0,
            r.resolved@ == Map::<int, Option<Seq<char>>>::empty(),
    {
        SshPrompt {
            host,
            status_message: None,
            prompt: None,
            input: String::new(),
            next_id: 0,
            resolved: Ghost(Map::empty()),
        }
    }

    /// Replace the status line. The pending prompt, the input buffer and the
    /// resolution record are untouched: a prompt keeps display priority over
    /// any interleaved status updates.
    pub fn set_status(&mut self, status: Option<String>)
        requires
            old(self).wf(),
        ensures
            final(self).wf(),
            status_set(*old(self), *final(self), status),
    {
        self.status_message = status;
    }

    /// Issue a new prompt, replacing any prompt still pending: the earlier
    /// prompt's waiter observes abandonment, never a stale answer. Clears the
    /// status line. A message containing "yes/no" asks for a visible
    /// confirmation; any other message asks for a masked secret. Returns the
    /// resolution delivered to the replaced prompt, if there was one.
    /// (Moving input focus to the sink's edit field is the caller's side.)
    pub fn set_prompt(&mut self, message: String) -> (cancelled: Option<PromptResolution>)
        requires
            old(self).wf(),
            old(self).next_id < u64::MAX,
        ensures
            final(self).wf(),
            prompt_issued(*old(self), *final(self), message, cancelled),
    {
        let masked = !contains_str(message.as_str(), "yes/no");
        let mut cancelled: Option<PromptResolution> = None;
        match self.prompt.take() {
            Some(p) => {
                self.resolved = Ghost(self.resolved@.insert(p.id as int, None::<Seq<char>>));
                cancelled = Some(PromptResolution { id: p.id, answer: None });
            }
            None => {}
        }
        self.prompt = Some(PendingPrompt { id: self.next_id, message, masked });
        self.status_message = None;
        self.next_id = self.next_id + 1;
        cancelled
    }

    /// Deliver the operator's current input to the pending prompt, clearing
    /// both the prompt and the input buffer. No-op when no prompt is pending.
    pub fn confirm(&mut self) -> (r: Option<PromptResolution>)
        requires
            old(self).wf(),
        ensures
            final(self).wf(),
            reply_delivered(*old(self), *final(self), r),
    {
        match self.prompt.take() {
            Some(p) => {
                let text = self.input.clone();
                self.input = String::new();
                self.resolved = Ghost(self.resolved@.insert(p.id as int, Some(text@)));
                Some(PromptResolution { id: p.id, answer: Some(text) })
            }
            None => None,
        }
    }

    /// Abandon any pending prompt, as when the prompt surface is dismissed
    /// or the attempt torn down: the prompt's waiter observes abandonment
    /// rather than waiting forever. No-op when no prompt is pending.
    pub fn abandon(&mut self) -> (r: Option<PromptResolution>)
        requires
            old(self).wf(),
        ensures
            final(self).wf(),
            prompt_abandoned(*old(self), *final(self), r),
    {
        match self.prompt.take() {
            Some(p) => {
                self.resolved = Ghost(self.resolved@.insert(p.id as int, None::<Seq<char>>));
                Some(PromptResolution { id: p.id, answer: None })
            }
            None => None,
        }
    }

    /// Record the operator's current input text (the edit field's contents).
    pub fn set_input(&mut self, text: String)
        requires
            old(self).wf(),
        ensures
            final(self).wf(),
            *final(self) == (SshPrompt { input: text, ..*old(self) }),
    {
        self.input = text;
    }
}

/// Relates a sink before and after `set_status(status)`.
pub open spec fn status_set(pre: SshPrompt, post: SshPrompt, status: Option<String>) -> bool {
    post == (SshPrompt { status_message: status, ..pre })
}

/// Relates a sink before and after a prompt with `message` was issued:
/// the new prompt is pending under the next fresh id, the status line is
/// cleared, and a previously pending prompt was resolved as abandoned,
/// reported in `cancelled`.
pub open spec fn prompt_issued(
    pre: SshPrompt,
    post: SshPrompt,
    message: String,
    cancelled: Option<PromptResolution>,
) -> bool {
    &&& (post.prompt matches Some(p) ==> {
        &&& p.id == pre.next_id
        &&& p.message == message
        &&& p.masked == masked_for(message@)
    })
    &&& post.prompt is Some
    &&& post.next_id == pre.next_id + 1
    &&& post.status_message is None
    &&& post.host == pre.host
    &&& post.input == pre.input
    &&& match pre.prompt {
        Some(p) => {
            &&& cancelled == Some(PromptResolution { id: p.id, answer: None::<String> })
            &&& post.resolved@ == pre.resolved@.insert(p.id as int, None::<Seq<char>>)
        },
        None => cancelled is None && post.resolved@ == pre.resolved@,
    }
}

/// Relates a sink before and after `confirm()`: the pending prompt, if any,
/// was resolved with the operator's input, and the input buffer cleared.
pub open spec fn reply_delivered(
    pre: SshPrompt,
    post: SshPrompt,
    r: Option<PromptResolution>,
) -> bool {
    match pre.prompt {
        Some(p) => {
            &&& r == Some(PromptResolution { id: p.id, answer: Some(pre.input) })
            &&& post.prompt is None
            &&& post.input@ == Seq::<char>::empty()
            &&& post.resolved@ == pre.resolved@.insert(p.id as int, Some(pre.input@))
            &&& post.status_message == pre.status_message
            &&& post.host == pre.host
            &&& post.next_id == pre.next_id
        },
        None => r is None && post == pre,
    }
}

/// Relates a sink before and after `abandon()`: the pending prompt, if any,
/// was resolved as abandoned.
pub open spec fn prompt_abandoned(
    pre: SshPrompt,
    post: SshPrompt,
    r: Option<PromptResolution>,
) -> bool {
    match pre.prompt {
        Some(p) => {
            &&& r == Some(PromptResolution { id: p.id, answer: None::<String> })
            &&& post.prompt is None
            &&& post.resolved@ == pre.resolved@.insert(p.id as int, None::<Seq<char>>)
            &&& post.input == pre.input
            &&& post.status_message == pre.status_message
            &&& post.host == pre.host
            &&& post.next_id == pre.next_id
        },
        None => r is None && post == pre,
    }
}

/// The modal dialog of one attempt, owning its prompt sink. Confirming
/// forwards the operator's input to the pending prompt; dismissing abandons
/// the pending prompt (closing the surrounding window is the caller's side).
pub struct SshConnectionModal {
    pub prompt: SshPrompt,
}

impl SshConnectionModal {
    /// A fresh modal for one attempt to `host`.
    pub fn new(host: String) -> (r: Self)
        ensures
            r.prompt.wf(),
            r.prompt.host == host,
            r.prompt.status_message is None,
            r.prompt.prompt is None,
            r.prompt.input@ == Seq::<char>::empty(),
            r.prompt.next_id == 0,
            r.prompt.resolved@ == Map::<int, Option<Seq<char>>>::empty(),
    {
        SshConnectionModal { prompt: SshPrompt::new(host) }
    }

    /// Submit the operator's current input to the pending prompt.
    pub fn confirm(&mut self) -> (r: Option<PromptResolution>)
        requires
            old(self).prompt.wf(),
        ensures
            final(self).prompt.wf(),
            reply_delivered(old(self).prompt, final(self).prompt, r),
    {
        self.prompt.confirm()
    }

    /// Dismiss the surface: a pending prompt observes abandonment.
    pub fn dismiss(&mut self) -> (r: Option<PromptResolution>)
        requires
            old(self).prompt.wf(),
        ensures
            final(self).prompt.wf(),
            prompt_abandoned(old(self).prompt, final(self).prompt, r),
    {
        self.prompt.abandon()
    }
}

/// A prompt id that was issued to the sink and has not been resolved.
pub open spec fn unresolved(s: SshPrompt, i: int) -> bool {
    0 <= i < s.next_id && !s.resolved@.dom().contains(i)
}

/// Whenever a prompt is pending, the sink displays it, whatever the status
/// line holds and however status updates were interleaved before it.
pub proof fn lemma_prompt_takes_priority(s: SshPrompt, p: PendingPrompt)
    requires
        s.prompt == Some(p),
    ensures
        s.displayed() == Displayed::Prompt(p.message@),
{
}

/// A status update never disturbs a pending prompt: after any `set_status`,
/// the prompt pending before is still pending and still what the sink
/// displays.
pub proof fn lemma_status_update_keeps_prompt(
    pre: SshPrompt,
    post: SshPrompt,
    status: Option<String>,
    p: PendingPrompt,
)
    requires
        pre.prompt == Some(p),
        status_set(pre, post, status),
    ensures
        post.prompt == Some(p),
        post.displayed() == Displayed::Prompt(p.message@),
{
}

/// Issuing a new prompt while one is pending cancels the earlier prompt:
/// its waiter observes abandonment, never a stale answer.
pub proof fn lemma_replacement_abandons_previous(
    pre: SshPrompt,
    post: SshPrompt,
    p: PendingPrompt,
    message: String,
    cancelled: Option<PromptResolution>,
)
    requires
        pre.prompt == Some(p),
        prompt_issued(pre, post, message, cancelled),
    ensures
        cancelled == Some(PromptResolution { id: p.id, answer: None::<String> }),
        post.resolved@.dom().contains(p.id as int),
        post.resolved@[p.id as int] is None,
{
}

/// Tearing an attempt down while a prompt is pending resolves that prompt's
/// waiter with an abandonment signal: the waiter is never left unresolved.
pub proof fn lemma_abandon_resolves_waiter(
    pre: SshPrompt,
    post: SshPrompt,
    p: PendingPrompt,
    r: Option<PromptResolution>,
)
    requires
        pre.prompt == Some(p),
        prompt_abandoned(pre, post, r),
    ensures
        r == Some(PromptResolution { id: p.id, answer: None::<String> }),
        post.resolved@.dom().contains(p.id as int),
        post.resolved@[p.id as int] is None,
{
}

/// At most one issued prompt is ever unresolved: any two unresolved ids
/// coincide, and belong to the currently pending prompt.
pub proof fn lemma_at_most_one_unresolved(s: SshPrompt, i: int, j: int)
    requires
        s.wf(),
        unresolved(s, i),
        unresolved(s, j),
    ensures
        i == j,
        s.prompt matches Some(p) && p.id == i,
{
    match s.prompt {
        Some(p) => {
            if p.id != i {
                assert(s.resolved@.dom().contains(i));
            }
            if p.id != j {
                assert(s.resolved@.dom().contains(j));
            }
        }
        None => {
            assert(s.resolved@.dom().contains(i));
        }
    }
}

} // verus!
