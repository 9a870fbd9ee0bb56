//! Settings -> SSH agent and Settings -> AI: the agent's roster line and
//! snippet buttons, and the AI provider's key and URL fields.

use vstd::prelude::*;
use crate::sftp_menu::Platform;
use crate::state::SshKey;

verus! {

/// The number of vault keys among the first `n` that the agent serves.
pub open spec fn served_count(keys: Seq<SshKey>, n: nat) -> nat
    decreases n,
{
    if n == 0 {
        0
    } else {
        served_count(keys, (n - 1) as nat) + (if keys[n - 1].expose_via_agent { 1nat } else { 0nat })
    }
}

/// The agent's roster line.
#[derive(Clone, Copy, Debug, PartialEq, Eq, Structural)]
pub struct AgentRoster {
    /// Vault keys the agent serves.
    pub vault_served: usize,
    /// Keys added to the running agent from outside, when adding is
    /// allowed and the agent runs.
    pub external_held: Option<u64>,
    /// The external count is greyed (nothing held).
    pub external_muted: bool,
}

/// The roster line for the keychain `keys`; `external_held` is the
/// running agent's count of externally added keys (none when it is not
/// running).
pub fn agent_roster(keys: &Vec<SshKey>, allow_add: bool, external_held: Option<u64>) -> (r: AgentRoster)
    ensures
        r.vault_served == served_count(keys@, keys@.len()),
        r.external_held == (if allow_add { external_held } else { None }),
        r.external_muted == (allow_add && external_held == Some(0u64)),
{
    let mut n: usize = 0;
    let mut i: usize = 0;
    while i < keys.len()
        invariant
            i <= keys@.len(),
            n == served_count(keys@, i as nat),
            n <= i,
        decreases keys.len() - i,
    {
        if keys[i].expose_via_agent {
            n = n + 1;
        }
        i = i + 1;
    }
    let held = if allow_add { external_held } else { None };
    let muted = match held {
        Some(h) => h == 0,
        None => false,
    };
    AgentRoster { vault_served: n, external_held: held, external_muted: muted }
}

/// A configuration snippet the agent page can copy.
#[derive(Clone, Copy, Debug, PartialEq, Eq, Structural)]
pub enum AgentSnippet {
    /// `IdentityAgent` for `~/.ssh/config`: portable, and the only form
    /// Windows OpenSSH honours for a pipe.
    SshConfig,
    /// The `SSH_AUTH_SOCK` export, a unix shell idiom.
    ShellEnv,
}

/// The snippet buttons, in order: the ssh config line everywhere, the
/// shell export on unix-like systems.
pub fn agent_snippets(platform: Platform) -> (v: Vec<AgentSnippet>)
    ensures
        v@ == (if platform == Platform::Windows { seq![AgentSnippet::SshConfig] } else {
            seq![AgentSnippet::SshConfig, AgentSnippet::ShellEnv]
        }),
{
    let mut v: Vec<AgentSnippet> = Vec::new();
    v.push(AgentSnippet::SshConfig);
    match platform {
        Platform::Windows => {},
        _ => v.push(AgentSnippet::ShellEnv),
    }
    assert(v@ =~= (if platform == Platform::Windows { seq![AgentSnippet::SshConfig] } else {
        seq![AgentSnippet::SshConfig, AgentSnippet::ShellEnv]
    }));
    v
}

/// The OpenSSH pipe alias toggle exists only on Windows.
pub fn openssh_pipe_toggle_shown(platform: Platform) -> (b: bool)
    ensures
        b == (platform == Platform::Windows),
{
    match platform {
        Platform::Windows => true,
        _ => false,
    }
}

/// What the AI key field says.
#[derive(Clone, Copy, Debug, PartialEq, Eq, Structural)]
pub enum KeyFieldState {
    /// A key is stored: the field is blank and its placeholder says so;
    /// typing replaces the key on save.
    Saved,
    /// No key yet: an example placeholder and a "no key" status.
    Missing,
}

/// The AI key field's state.
pub fn ai_key_field(api_key_set: bool) -> (s: KeyFieldState)
    ensures
        s == (if api_key_set { KeyFieldState::Saved } else { KeyFieldState::Missing }),
{
    if api_key_set { KeyFieldState::Saved } else { KeyFieldState::Missing }
}

/// The kind of AI provider.
#[derive(Clone, Copy, Debug, PartialEq, Eq, Structural)]
pub enum ProviderKind {
    Hosted,
    Custom,
}

/// The API URL field is offered for a custom provider only.
pub fn ai_url_field_shown(kind: ProviderKind) -> (b: bool)
    ensures
        b == (kind == ProviderKind::Custom),
{
    match kind {
        ProviderKind::Custom => true,
        ProviderKind::Hosted => false,
    }
}

} // verus!
