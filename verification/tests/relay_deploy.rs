use oryxis_app::relay_deploy::{
    caddy_hint, consent_user, deploy_actions, deploy_confirm_dialog, log_line_is_error, progress_step, step_label,
    ConfirmRow, DeployPlan, Privilege,
    RelayDeployStep,
};
use oryxis_app::settings_sync::Tone;

#[test]
fn every_step_has_an_english_label() {
    for step in [
        RelayDeployStep::Probe,
        RelayDeployStep::Download,
        RelayDeployStep::Upload,
        RelayDeployStep::Install,
        RelayDeployStep::Service,
        RelayDeployStep::Caddy,
        RelayDeployStep::Health,
        RelayDeployStep::Adopt,
    ] {
        assert_ne!(step_label(step), "???", "{step:?}");
    }
}

#[test]
fn step_labels_are_exact() {
    assert_eq!(step_label(RelayDeployStep::Probe), "Checking the host");
    assert_eq!(step_label(RelayDeployStep::Adopt), "Adopting the relay");
}

#[test]
fn deploy_actions_follow_plan_probe_and_busy() {
    let a = deploy_actions(true, Some(Privilege::Sudo), false);
    assert!(a.probe_enabled && a.review && a.copy_script);
    let a = deploy_actions(true, Some(Privilege::Unprivileged), false);
    assert!(a.probe_enabled && !a.review && a.copy_script);
    let a = deploy_actions(true, Some(Privilege::Root), true);
    assert!(!a.probe_enabled && !a.review && !a.copy_script);
    let a = deploy_actions(false, Some(Privilege::Root), false);
    assert!(a.probe_enabled && !a.review && !a.copy_script);
    let a = deploy_actions(true, None, false);
    assert!(!a.review && !a.copy_script);
}

#[test]
fn consent_user_names_the_account() {
    assert_eq!(consent_user(Privilege::Root, "alice"), "root");
    assert_eq!(consent_user(Privilege::Sudo, "alice"), "alice (sudo)");
    assert_eq!(consent_user(Privilege::Unprivileged, "alice"), "alice");
}

#[test]
fn progress_and_log_and_caddy() {
    assert_eq!(progress_step(true, Some(RelayDeployStep::Upload)), Some(RelayDeployStep::Upload));
    assert_eq!(progress_step(false, Some(RelayDeployStep::Upload)), None);
    assert!(log_line_is_error("\u{2717} install failed"));
    assert!(!log_line_is_error("\u{2713} ok"));
    assert!(!log_line_is_error(""));
    assert_eq!(caddy_hint(true), ("relay_deploy_caddy_hint", Tone::Muted));
    assert_eq!(caddy_hint(false), ("relay_deploy_http_warning", Tone::Warning));
}

#[test]
fn consent_dialog_rows_default_to_cancel() {
    let none = deploy_confirm_dialog(&None);
    assert_eq!(none.rows, vec![ConfirmRow::Cancel]);
    assert_eq!(none.default_row, 0);
    assert!(none.script.is_none() && none.user.is_none());
    let plan = DeployPlan {
        host_label: "edge".to_string(),
        user: "alice".to_string(),
        privilege: Privilege::Sudo,
        script: "sudo install -m 755 relay /usr/local/bin\n".to_string(),
    };
    let d = deploy_confirm_dialog(&Some(plan.clone()));
    assert_eq!(
        d.rows,
        vec![ConfirmRow::Cancel, ConfirmRow::CopyScript(plan.script.clone()), ConfirmRow::Run]
    );
    assert_eq!(d.default_row, 0);
    assert_eq!(d.script, Some(plan.script.clone()));
    assert_eq!(d.user, Some("alice (sudo)".to_string()));
}
