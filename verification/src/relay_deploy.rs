//! Settings > Sync, relay wizard level two: installing the relay on one
//! of the user's hosts. The action row, the progress line, the consent
//! dialog's rows and "as whom" text, and the log tinting.

use vstd::prelude::*;
use crate::settings_sync::Tone;
use crate::text::{chars_of, push_all, string_from_chars};

verus! {

/// A stage of a deploy run.
#[derive(Clone, Copy, Debug, PartialEq, Eq, Structural)]
pub enum RelayDeployStep {
    Probe,
    Download,
    Upload,
    Install,
    Service,
    Caddy,
    Health,
    Adopt,
}

/// The English progress label of each step.
pub open spec fn step_text(step: RelayDeployStep) -> Seq<char> {
    match step {
        RelayDeployStep::Probe => "Checking the host"@,
        RelayDeployStep::Download => "Downloading the relay"@,
        RelayDeployStep::Upload => "Uploading the relay"@,
        RelayDeployStep::Install => "Installing the relay"@,
        RelayDeployStep::Service => "Starting the service"@,
        RelayDeployStep::Caddy => "Configuring Caddy"@,
        RelayDeployStep::Health => "Checking the relay responds"@,
        RelayDeployStep::Adopt => "Adopting the relay"@,
    }
}

/// The progress-line label of a step.
pub fn step_label(step: RelayDeployStep) -> (l: &'static str)
    ensures
        l@ == step_text(step),
{
    match step {
        RelayDeployStep::Probe => "Checking the host",
        RelayDeployStep::Download => "Downloading the relay",
        RelayDeployStep::Upload => "Uploading the relay",
        RelayDeployStep::Install => "Installing the relay",
        RelayDeployStep::Service => "Starting the service",
        RelayDeployStep::Caddy => "Configuring Caddy",
        RelayDeployStep::Health => "Checking the relay responds",
        RelayDeployStep::Adopt => "Adopting the relay",
    }
}

/// How the deploy will act on the host.
#[derive(Clone, Copy, Debug, PartialEq, Eq, Structural)]
pub enum Privilege {
    Root,
    Sudo,
    /// Neither root nor sudo: the plan can only be copied.
    Unprivileged,
}

/// The row of deploy actions.
#[derive(Clone, Copy, Debug, PartialEq, Eq, Structural)]
pub struct DeployActions {
    /// "Check host", disabled (and not recorded) while busy.
    pub probe_enabled: bool,
    /// "Review & run": a plan and a probe exist, nothing runs, and the
    /// probe found a way to act (root or sudo).
    pub review: bool,
    /// "Copy script": a plan and a probe exist and nothing runs.
    pub copy_script: bool,
}

/// The deploy action row. `probe` is the privilege the last probe found.
pub fn deploy_actions(has_plan: bool, probe: Option<Privilege>, busy: bool) -> (a: DeployActions)
    ensures
        a.probe_enabled == !busy,
        a.copy_script == (has_plan && probe is Some && !busy),
        a.review == (has_plan && !busy && match probe {
            Some(p) => p != Privilege::Unprivileged,
            None => false,
        }),
{
    let ready = has_plan && probe.is_some() && !busy;
    let review = ready && match probe {
        Some(p) => p != Privilege::Unprivileged,
        None => false,
    };
    DeployActions { probe_enabled: !busy, review, copy_script: ready }
}

/// The progress line names the current step only while a probe or run is
/// in flight.
pub fn progress_step(busy: bool, step: Option<RelayDeployStep>) -> (s: Option<RelayDeployStep>)
    ensures
        s == (if busy { step } else { None }),
{
    if busy { step } else { None }
}

/// The "as whom" part of the consent text: `root`, `user (sudo)`, or the
/// plain user.
pub open spec fn consent_user_text(privilege: Privilege, user: Seq<char>) -> Seq<char> {
    match privilege {
        Privilege::Root => "root"@,
        Privilege::Sudo => user + " (sudo)"@,
        Privilege::Unprivileged => user,
    }
}

/// The account the consent dialog says the plan runs as.
pub fn consent_user(privilege: Privilege, user: &str) -> (s: String)
    ensures
        s@ == consent_user_text(privilege, user@),
{
    match privilege {
        Privilege::Root => string_from_chars(&chars_of("root")),
        Privilege::Sudo => {
            let mut v = chars_of(user);
            let suffix = chars_of(" (sudo)");
            push_all(&mut v, &suffix);
            string_from_chars(&v)
        },
        Privilege::Unprivileged => string_from_chars(&chars_of(user)),
    }
}

/// A streamed log line is an error when it starts with the ✗ mark.
pub fn log_line_is_error(line: &str) -> (b: bool)
    ensures
        b == (line@.len() > 0 && line@[0] == '\u{2717}'),
{
    let c = chars_of(line);
    c.len() > 0 && c[0] == '\u{2717}'
}

/// The hint under the Caddy toggle: what TLS via Caddy does, or, without
/// it, the warning that the relay will speak plain HTTP.
pub fn caddy_hint(use_caddy: bool) -> (h: (&'static str, Tone))
    ensures
        (h.0@, h.1) == (if use_caddy { ("relay_deploy_caddy_hint"@, Tone::Muted) } else { ("relay_deploy_http_warning"@, Tone::Warning) }),
{
    if use_caddy { ("relay_deploy_caddy_hint", Tone::Muted) } else { ("relay_deploy_http_warning", Tone::Warning) }
}

/// The deploy plan the consent dialog shows: the host, the account and
/// how it gains root, and the consent script (the plan's commands,
/// shown and copied verbatim).
#[derive(Clone, Debug)]
pub struct DeployPlan {
    pub host_label: String,
    pub user: String,
    pub privilege: Privilege,
    pub script: String,
}

/// A keyboard row of the consent dialog, in order.
#[derive(Clone, Debug, PartialEq, Eq)]
pub enum ConfirmRow {
    /// Cancel the deploy.
    Cancel,
    /// Copy this text (the consent script) to the clipboard.
    CopyScript(String),
    /// Run the plan.
    Run,
}

/// The consent dialog as it renders.
#[derive(Clone, Debug)]
pub struct ConfirmDialog {
    /// The keyboard rows in order.
    pub rows: Vec<ConfirmRow>,
    /// The position of the default row (what a stray Enter does).
    pub default_row: usize,
    /// The script pane's text, verbatim; none without a plan.
    pub script: Option<String>,
    /// The "as whom" text; none without a plan.
    pub user: Option<String>,
}

/// The consent dialog: with a plan, Cancel (the default row), Copy script
/// and Run, the script shown verbatim and the account it runs as;
/// without one (a state no handler produces), the Cancel-only shell.
pub fn deploy_confirm_dialog(plan: &Option<DeployPlan>) -> (d: ConfirmDialog)
    ensures
        d.default_row == 0,
        match plan {
            None => d.rows@ == seq![ConfirmRow::Cancel] && d.script is None && d.user is None,
            Some(p) => d.rows@ == seq![ConfirmRow::Cancel, ConfirmRow::CopyScript(p.script), ConfirmRow::Run]
                && (d.script matches Some(t) && t@ == p.script@)
                && (d.user matches Some(u) && u@ == consent_user_text(p.privilege, p.user@)),
        },
{
    let mut rows: Vec<ConfirmRow> = Vec::new();
    rows.push(ConfirmRow::Cancel);
    match plan {
        None => {
            assert(rows@ =~= seq![ConfirmRow::Cancel]);
            ConfirmDialog { rows, default_row: 0, script: None, user: None }
        },
        Some(p) => {
            rows.push(ConfirmRow::CopyScript(p.script.clone()));
            rows.push(ConfirmRow::Run);
            assert(rows@ =~= seq![ConfirmRow::Cancel, ConfirmRow::CopyScript(p.script), ConfirmRow::Run]);
            let user = consent_user(p.privilege, p.user.as_str());
            ConfirmDialog { rows, default_row: 0, script: Some(p.script.clone()), user: Some(user) }
        },
    }
}

} // verus!
