//! The connection prompts that interrupt a dial: the host-key check,
//! the keyboard-interactive (2FA) challenge, and the command-proxy
//! approval.

use vstd::prelude::*;
use crate::text::{chars_of, decimal, push_all, push_decimal, string_from_chars, trim, trim_chars};

verus! {

/// `host:port`, the endpoint line of the prompts.
pub open spec fn endpoint_text(host: Seq<char>, port: u16) -> Seq<char> {
    host + seq![':'] + decimal(port as nat)
}

/// The endpoint line a prompt shows for a dial.
pub fn endpoint_line(host: &str, port: u16) -> (s: String)
    ensures
        s@ == endpoint_text(host@, port),
{
    let mut v = chars_of(host);
    v.push(':');
    push_decimal(&mut v, port as u64);
    string_from_chars(&v)
}

/// How the host-key prompt reads.
#[derive(Clone, Copy, Debug, PartialEq, Eq, Structural)]
pub enum HostKeyPrompt {
    /// The host is not known yet: an amber "unknown host" title.
    Unknown,
    /// The host's key changed since it was saved: a red warning, the
    /// warning text and the old fingerprint.
    Changed,
}

/// The host-key prompt for a key that changed (`changed`) or a host
/// that is unknown.
pub fn host_key_prompt(changed: bool) -> (p: HostKeyPrompt)
    ensures
        p == (if changed { HostKeyPrompt::Changed } else { HostKeyPrompt::Unknown }),
{
    if changed { HostKeyPrompt::Changed } else { HostKeyPrompt::Unknown }
}

/// The line naming the key: its type, then ` SHA256:`.
pub fn key_type_line(key_type: &str) -> (s: String)
    ensures
        s@ == key_type@ + " SHA256:"@,
{
    let mut v = chars_of(key_type);
    let tail = chars_of(" SHA256:");
    push_all(&mut v, &tail);
    string_from_chars(&v)
}

/// The buttons of the host-key prompt, left to right.
#[derive(Clone, Copy, Debug, PartialEq, Eq, Structural)]
pub enum HostKeyButton {
    /// Refuse the key.
    Close,
    /// Connect this once without saving the key.
    Continue,
    /// Save the key and connect.
    AddAndContinue,
}

/// The host-key prompt's buttons, in order.
pub fn host_key_buttons() -> (v: Vec<HostKeyButton>)
    ensures
        v@ == seq![HostKeyButton::Close, HostKeyButton::Continue, HostKeyButton::AddAndContinue],
{
    let mut v: Vec<HostKeyButton> = Vec::new();
    v.push(HostKeyButton::Close);
    v.push(HostKeyButton::Continue);
    v.push(HostKeyButton::AddAndContinue);
    assert(v@ =~= seq![HostKeyButton::Close, HostKeyButton::Continue, HostKeyButton::AddAndContinue]);
    v
}

/// One answer field of a keyboard-interactive challenge.
#[derive(Clone, Copy, Debug, PartialEq, Eq, Structural)]
pub struct KbiField {
    /// The answer is masked (the server asked for no echo).
    pub secure: bool,
    /// The field takes the focus when the prompt opens.
    pub focused: bool,
}

/// A keyboard-interactive challenge as the modal shows it.
#[derive(Clone, Debug)]
pub struct KbiPrompt {
    /// The server's name for the challenge, or none to use the generic
    /// title.
    pub title: Option<String>,
    /// The server's instructions line is shown.
    pub instructions: bool,
    pub fields: Vec<KbiField>,
}

/// The keyboard-interactive modal for a challenge named `name` with
/// `instructions`, whose prompts echo as `echo` says. Server strings are
/// shown as they are; blank ones are left out.
pub fn kbi_prompt(name: &str, instructions: &str, echo: &Vec<bool>) -> (p: KbiPrompt)
    ensures
        p.title matches Some(t) ==> trim(name@).len() > 0 && t@ == name@,
        p.title is None <==> trim(name@).len() == 0,
        p.instructions == (trim(instructions@).len() > 0),
        p.fields@.len() == echo@.len(),
        forall|i: int| 0 <= i < echo@.len() ==> #[trigger] p.fields@[i] == (KbiField { secure: !echo@[i], focused: i == 0 }),
{
    let n = trim_chars(&chars_of(name));
    let ins = trim_chars(&chars_of(instructions));
    let mut fields: Vec<KbiField> = Vec::new();
    let mut i: usize = 0;
    while i < echo.len()
        invariant
            i <= echo@.len(),
            fields@.len() == i,
            forall|k: int| 0 <= k < i ==> #[trigger] fields@[k] == (KbiField { secure: !echo@[k], focused: k == 0 }),
        decreases echo.len() - i,
    {
        fields.push(KbiField { secure: !echo[i], focused: i == 0 });
        i = i + 1;
    }
    KbiPrompt {
        title: if n.len() == 0 { None } else { Some(string_from_chars(&chars_of(name))) },
        instructions: ins.len() > 0,
        fields,
    }
}

/// The answer a challenge field starts with: what was typed so far, or
/// nothing.
pub fn kbi_value(inputs: &Vec<String>, i: usize) -> (s: String)
    ensures
        s@ == (if i < inputs@.len() { inputs@[i as int]@ } else { Seq::empty() }),
{
    if i < inputs.len() {
        inputs[i].clone()
    } else {
        String::new()
    }
}

/// The buttons of the command-proxy approval, left to right.
#[derive(Clone, Copy, Debug, PartialEq, Eq, Structural)]
pub enum ProxyCommandButton {
    /// Refuse: the leading button, and the default row, so a stray
    /// Enter never spawns a local process.
    Refuse,
    /// Run the command this once.
    RunOnce,
    /// Always run it for this host (the accented button).
    AlwaysRun,
}

/// The approval's buttons in order, and the position of the default one.
pub fn proxy_command_buttons() -> (r: (Vec<ProxyCommandButton>, usize))
    ensures
        r.0@ == seq![ProxyCommandButton::Refuse, ProxyCommandButton::RunOnce, ProxyCommandButton::AlwaysRun],
        r.1 == 0,
        r.0@[r.1 as int] == ProxyCommandButton::Refuse,
{
    let mut v: Vec<ProxyCommandButton> = Vec::new();
    v.push(ProxyCommandButton::Refuse);
    v.push(ProxyCommandButton::RunOnce);
    v.push(ProxyCommandButton::AlwaysRun);
    assert(v@ =~= seq![ProxyCommandButton::Refuse, ProxyCommandButton::RunOnce, ProxyCommandButton::AlwaysRun]);
    (v, 0)
}

} // verus!
