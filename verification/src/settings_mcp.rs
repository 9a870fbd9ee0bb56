//! Settings > MCP Server: the config-path hint, the token row, the
//! install / copy buttons and the vault-password embed flow.

use vstd::prelude::*;
use crate::settings_sync::Tone;
use crate::sftp_menu::Platform;

verus! {

/// A config file the MCP panel points the user at.
#[derive(Clone, Copy, Debug, PartialEq, Eq, Structural)]
pub enum McpConfigFile {
    /// The command-line client's user-scope JSON file in the home
    /// directory (never a file inside the hidden directory of the same
    /// name, which that client does not read).
    UserScopeJson,
    /// The desktop app's config file under `%APPDATA%` (Windows).
    DesktopConfigAppData,
    /// The desktop app's config file under `~/Library/Application
    /// Support` (macOS).
    DesktopConfigLibrary,
    /// The user-scope JSON file of a client running inside WSL.
    WslUserScopeJson,
}

/// The files the native-client hint names, in order: the user-scope file
/// first, then the desktop app's config on Windows and macOS.
pub open spec fn config_files(platform: Platform) -> Seq<McpConfigFile> {
    match platform {
        Platform::Windows => seq![McpConfigFile::UserScopeJson, McpConfigFile::DesktopConfigAppData],
        Platform::MacOs => seq![McpConfigFile::UserScopeJson, McpConfigFile::DesktopConfigLibrary],
        Platform::Linux => seq![McpConfigFile::UserScopeJson],
    }
}

/// The config-file hint of the MCP panel for the native client.
pub fn mcp_config_path(platform: Platform) -> (h: Vec<McpConfigFile>)
    ensures
        h@ == config_files(platform),
{
    let mut h: Vec<McpConfigFile> = Vec::new();
    h.push(McpConfigFile::UserScopeJson);
    match platform {
        Platform::Windows => h.push(McpConfigFile::DesktopConfigAppData),
        Platform::MacOs => h.push(McpConfigFile::DesktopConfigLibrary),
        Platform::Linux => {},
    }
    assert(h@ =~= config_files(platform));
    h
}

/// The hint the panel shows: the WSL client's user-scope file when the
/// snippet targets WSL (never a Windows desktop path), the native hint
/// otherwise.
pub fn mcp_path_hint(target_wsl: bool, platform: Platform) -> (h: Vec<McpConfigFile>)
    ensures
        h@ == (if target_wsl { seq![McpConfigFile::WslUserScopeJson] } else { config_files(platform) }),
{
    if target_wsl {
        let mut h: Vec<McpConfigFile> = Vec::new();
        h.push(McpConfigFile::WslUserScopeJson);
        assert(h@ =~= seq![McpConfigFile::WslUserScopeJson]);
        h
    } else {
        mcp_config_path(platform)
    }
}

/// How the token row shows the MCP token.
#[derive(Clone, Copy, Debug, PartialEq, Eq, Structural)]
pub enum TokenDisplay {
    /// No token yet: the localized "unset", in the warning tone.
    Unset,
    /// Revealed.
    Plain,
    /// Masked.
    Masked,
}

/// The token row's text mode.
pub fn token_display(token_empty: bool, visible: bool) -> (d: TokenDisplay)
    ensures
        d == (if token_empty { TokenDisplay::Unset } else if visible { TokenDisplay::Plain } else { TokenDisplay::Masked }),
{
    if token_empty { TokenDisplay::Unset } else if visible { TokenDisplay::Plain } else { TokenDisplay::Masked }
}

/// The token row's action buttons.
#[derive(Clone, Copy, Debug, PartialEq, Eq, Structural)]
pub struct TokenActions {
    /// Show / Hide, offered whenever the panel holds a secret at all.
    pub reveal: bool,
    /// Copy, only with a token.
    pub copy: bool,
    /// Regenerate, always.
    pub regenerate: bool,
}

/// Which token actions the row offers: the reveal toggle whenever a token
/// or an embedded vault password is on the panel, Copy with a token,
/// Regenerate always.
pub fn token_actions(token_empty: bool, has_vault_password: bool) -> (a: TokenActions)
    ensures
        a.reveal == (!token_empty || has_vault_password),
        a.copy == !token_empty,
        a.regenerate,
{
    TokenActions { reveal: !token_empty || has_vault_password, copy: !token_empty, regenerate: true }
}

/// Outcome of the last config install.
#[derive(Clone, Copy, Debug, PartialEq, Eq, Structural)]
pub enum InstallStatus {
    NotRun,
    Installed,
    Failed,
}

/// The install button's label key and tone.
pub fn install_button(status: InstallStatus) -> (b: (&'static str, Tone))
    ensures
        (b.0@, b.1) == (match status {
            InstallStatus::Installed => ("mcp_installed"@, Tone::Success),
            InstallStatus::Failed => ("mcp_install_failed"@, Tone::Error),
            InstallStatus::NotRun => ("mcp_install_claude"@, Tone::Success),
        }),
{
    match status {
        InstallStatus::Installed => ("mcp_installed", Tone::Success),
        InstallStatus::Failed => ("mcp_install_failed", Tone::Error),
        InstallStatus::NotRun => ("mcp_install_claude", Tone::Success),
    }
}

/// The copy button's label key and tone: "copied" in the success tone
/// right after a copy.
pub fn copy_button(copied: bool) -> (b: (&'static str, Tone))
    ensures
        (b.0@, b.1) == (if copied { ("mcp_copied"@, Tone::Success) } else { ("mcp_info_copy"@, Tone::Accent) }),
{
    if copied { ("mcp_copied", Tone::Success) } else { ("mcp_info_copy", Tone::Accent) }
}

/// Outcome of the last "remove the embedded password".
#[derive(Clone, Copy, Debug, PartialEq, Eq, Structural)]
pub enum StripStatus {
    NotRun,
    Removed,
    Failed,
}

/// The vault-password block of the MCP panel.
#[derive(Clone, Copy, Debug, PartialEq, Eq, Structural)]
pub enum VaultPasswordBlock {
    /// The vault has no master password: the static note only.
    Note,
    /// The password is embedded: status, Remove and the plaintext warning.
    Included,
    /// The typed confirmation prompt is open; `wrong` after a mismatch.
    Prompt { wrong: bool },
    /// The offer to embed it, with the outcome of the last removal.
    Offer { strip: StripStatus },
}

/// Which vault-password block the panel shows: embedding happens only
/// after a typed confirmation of the master password.
pub fn vault_password_block(has_user_password: bool, included: bool, prompt_open: bool, prompt_wrong: bool, strip: StripStatus) -> (b: VaultPasswordBlock)
    ensures
        b == (if !has_user_password {
            VaultPasswordBlock::Note
        } else if included {
            VaultPasswordBlock::Included
        } else if prompt_open {
            VaultPasswordBlock::Prompt { wrong: prompt_wrong }
        } else {
            VaultPasswordBlock::Offer { strip }
        }),
{
    if !has_user_password {
        VaultPasswordBlock::Note
    } else if included {
        VaultPasswordBlock::Included
    } else if prompt_open {
        VaultPasswordBlock::Prompt { wrong: prompt_wrong }
    } else {
        VaultPasswordBlock::Offer { strip }
    }
}

/// The Native / WSL target toggle and its WSL note exist only on
/// Windows, where a WSL-resident client reaches the binary via `/mnt/c`.
pub fn wsl_controls(platform: Platform, target_wsl: bool) -> (r: (bool, bool))
    ensures
        r.0 == (platform == Platform::Windows),
        r.1 == (platform == Platform::Windows && target_wsl),
{
    (platform == Platform::Windows, platform == Platform::Windows && target_wsl)
}

/// The setup-guide button toggles the info panel.
#[derive(Clone, Copy, Debug, PartialEq, Eq, Structural)]
pub enum GuideMessage {
    ShowMcpInfo,
    HideMcpInfo,
}

/// The message of the setup-guide button.
pub fn guide_message(show_info: bool) -> (m: GuideMessage)
    ensures
        m == (if show_info { GuideMessage::HideMcpInfo } else { GuideMessage::ShowMcpInfo }),
{
    if show_info { GuideMessage::HideMcpInfo } else { GuideMessage::ShowMcpInfo }
}

} // verus!
