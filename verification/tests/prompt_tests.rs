use ssh_bootstrap::prompt::SshConnectionModal;
use ssh_bootstrap::prompt::SshPrompt;

#[test]
fn new_sink_is_empty() {
    let s = SshPrompt::new(String::from("example.com"));
    assert_eq!(s.host, "example.com");
    assert!(s.status_message.is_none());
    assert!(s.prompt.is_none());
    assert_eq!(s.input, "");
    assert_eq!(s.next_id, 0);
}

#[test]
fn secret_prompt_is_masked() {
    let mut s = SshPrompt::new(String::from("example.com"));
    let cancelled = s.set_prompt(String::from("Enter password:"));
    assert!(cancelled.is_none());
    let p = s.prompt.as_ref().unwrap();
    assert_eq!(p.message, "Enter password:");
    assert!(p.masked);
}

#[test]
fn confirmation_prompt_is_not_masked() {
    let mut s = SshPrompt::new(String::from("example.com"));
    s.set_prompt(String::from("The authenticity of host can't be established. Continue? (yes/no)"));
    let p = s.prompt.as_ref().unwrap();
    assert!(!p.masked);
}

#[test]
fn prompt_outranks_interleaved_status_updates() {
    let mut s = SshPrompt::new(String::from("example.com"));
    s.set_status(Some(String::from("connecting")));
    s.set_prompt(String::from("Enter password:"));
    // issuing the prompt clears the status line
    assert!(s.status_message.is_none());
    assert!(s.prompt.is_some());
    // a later status update leaves the pending prompt in place
    s.set_status(Some(String::from("still working")));
    assert!(s.prompt.is_some());
    assert_eq!(s.status_message.as_deref(), Some("still working"));
}

#[test]
fn new_prompt_cancels_the_previous_one() {
    let mut s = SshPrompt::new(String::from("example.com"));
    let none = s.set_prompt(String::from("Enter password:"));
    assert!(none.is_none());
    let first_id = s.prompt.as_ref().unwrap().id;
    let cancelled = s.set_prompt(String::from("Enter one-time code:"));
    // the replaced prompt's waiter observes abandonment, not a stale answer
    let c = cancelled.unwrap();
    assert_eq!(c.id, first_id);
    assert!(c.answer.is_none());
    // the new prompt is pending under a fresh id
    let p = s.prompt.as_ref().unwrap();
    assert_eq!(p.message, "Enter one-time code:");
    assert_ne!(p.id, first_id);
}

#[test]
fn confirm_delivers_the_input_and_clears_it() {
    let mut s = SshPrompt::new(String::from("example.com"));
    s.set_prompt(String::from("Enter one-time code:"));
    let id = s.prompt.as_ref().unwrap().id;
    s.set_input(String::from("123456"));
    let r = s.confirm().unwrap();
    assert_eq!(r.id, id);
    assert_eq!(r.answer.as_deref(), Some("123456"));
    assert!(s.prompt.is_none());
    assert_eq!(s.input, "");
}

#[test]
fn confirm_without_a_prompt_is_a_no_op() {
    let mut s = SshPrompt::new(String::from("example.com"));
    s.set_input(String::from("stray text"));
    assert!(s.confirm().is_none());
    assert_eq!(s.input, "stray text");
}

#[test]
fn abandon_resolves_the_pending_prompt() {
    let mut s = SshPrompt::new(String::from("example.com"));
    s.set_prompt(String::from("Enter password:"));
    let id = s.prompt.as_ref().unwrap().id;
    let r = s.abandon().unwrap();
    assert_eq!(r.id, id);
    assert!(r.answer.is_none());
    assert!(s.prompt.is_none());
}

#[test]
fn abandon_without_a_prompt_is_a_no_op() {
    let mut s = SshPrompt::new(String::from("example.com"));
    assert!(s.abandon().is_none());
}

#[test]
fn modal_confirm_and_dismiss_forward_to_the_sink() {
    let mut m = SshConnectionModal::new(String::from("example.com"));
    m.prompt.set_prompt(String::from("Enter password:"));
    m.prompt.set_input(String::from("hunter2"));
    let r = m.confirm().unwrap();
    assert_eq!(r.answer.as_deref(), Some("hunter2"));
    m.prompt.set_prompt(String::from("Enter one-time code:"));
    let d = m.dismiss().unwrap();
    assert!(d.answer.is_none());
    assert!(m.prompt.prompt.is_none());
}
