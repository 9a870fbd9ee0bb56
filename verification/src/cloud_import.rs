//! The cloud-discovery import confirmation: its summary line, the
//! transports a default can be, and what a click on the scrim does.

use vstd::prelude::*;
use crate::text::{decimal, push_all, push_decimal, string_from_chars};

verus! {

/// How an imported cloud host is reached.
#[derive(Clone, Copy, Debug, PartialEq, Eq, Structural)]
pub enum TransportKind {
    Ssh,
    InstanceConnect,
    Ssm,
    EcsExec,
    KubectlExec,
}

/// The label the transport picker shows for a transport.
pub fn transport_label(t: TransportKind) -> (s: &'static str)
    ensures
        s@ == match t {
            TransportKind::Ssh => "SSH"@,
            TransportKind::InstanceConnect => "EC2 Instance Connect"@,
            TransportKind::Ssm => "SSM Session"@,
            TransportKind::EcsExec => "ECS Exec"@,
            TransportKind::KubectlExec => "kubectl exec"@,
        },
{
    match t {
        TransportKind::Ssh => "SSH",
        TransportKind::InstanceConnect => "EC2 Instance Connect",
        TransportKind::Ssm => "SSM Session",
        TransportKind::EcsExec => "ECS Exec",
        TransportKind::KubectlExec => "kubectl exec",
    }
}

/// The transports an import's default can be set to, in picker order
/// (ECS tasks always run ECS Exec, so it is not offered).
pub fn import_transport_options() -> (v: Vec<TransportKind>)
    ensures
        v@ == seq![TransportKind::Ssh, TransportKind::InstanceConnect, TransportKind::Ssm],
{
    let mut v: Vec<TransportKind> = Vec::new();
    v.push(TransportKind::Ssh);
    v.push(TransportKind::InstanceConnect);
    v.push(TransportKind::Ssm);
    assert(v@ =~= seq![TransportKind::Ssh, TransportKind::InstanceConnect, TransportKind::Ssm]);
    v
}

/// The dialog's summary of the selection: both counts when both kinds
/// are selected, else the EC2 count when there is one, else the ECS
/// count.
pub open spec fn import_summary_text(n_ec2: nat, n_ecs: nat) -> Seq<char> {
    if n_ec2 > 0 && n_ecs > 0 {
        decimal(n_ec2) + " EC2 + "@ + decimal(n_ecs) + " ECS"@
    } else if n_ec2 > 0 {
        decimal(n_ec2) + " EC2"@
    } else {
        decimal(n_ecs) + " ECS"@
    }
}

/// The summary line under the dialog's title.
pub fn import_summary(n_ec2: usize, n_ecs: usize) -> (s: String)
    ensures
        s@ == import_summary_text(n_ec2 as nat, n_ecs as nat),
{
    let ec2 = crate::text::chars_of(" EC2");
    let ecs = crate::text::chars_of(" ECS");
    let plus = crate::text::chars_of(" EC2 + ");
    let mut v: Vec<char> = Vec::new();
    if n_ec2 > 0 && n_ecs > 0 {
        push_decimal(&mut v, n_ec2 as u64);
        push_all(&mut v, &plus);
        push_decimal(&mut v, n_ecs as u64);
        push_all(&mut v, &ecs);
    } else if n_ec2 > 0 {
        push_decimal(&mut v, n_ec2 as u64);
        push_all(&mut v, &ec2);
    } else {
        push_decimal(&mut v, n_ecs as u64);
        push_all(&mut v, &ecs);
    }
    string_from_chars(&v)
}

/// What a click outside the dialog does.
#[derive(Clone, Copy, Debug, PartialEq, Eq, Structural)]
pub enum ScrimClick {
    /// Close the group suggestions only, keeping the import open.
    CloseGroupPicker,
    /// Cancel the import.
    CancelImport,
}

/// A click on the scrim closes the open group picker first; only with
/// the picker closed does it cancel the import.
pub fn import_scrim_click(group_picker_open: bool) -> (c: ScrimClick)
    ensures
        c == (if group_picker_open { ScrimClick::CloseGroupPicker } else { ScrimClick::CancelImport }),
{
    if group_picker_open { ScrimClick::CloseGroupPicker } else { ScrimClick::CancelImport }
}

} // verus!
