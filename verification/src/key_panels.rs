//! The Keychain side panels: the identity editor and the key import
//! form, as the labels, gates and lists they show.

use vstd::prelude::*;
use crate::connection_defaults::PickList;
use crate::search::keep_in_order;
use crate::state::{Connection, SshKey};
use crate::text::{chars_of, trim, trim_chars};

verus! {

/// Whether `s` is empty once surrounding whitespace is trimmed.
pub fn is_blank_text(s: &str) -> (b: bool)
    ensures
        b == (trim(s@).len() == 0),
{
    let c = chars_of(s);
    let t = trim_chars(&c);
    t.len() == 0
}

/// What the identity password field shows while empty.
#[derive(Clone, Copy, Debug, PartialEq, Eq, Structural)]
pub enum PasswordPlaceholder {
    /// Bullets: a password is stored and the field was not touched.
    StoredBullets,
    /// The plain "Password" hint.
    Hint,
}

/// The identity editor's chrome.
#[derive(Clone, Copy, Debug, PartialEq, Eq)]
pub struct IdentityPanel {
    pub title_key: &'static str,
    pub save_key: &'static str,
    pub password_placeholder: PasswordPlaceholder,
    /// Save is offered only once the label has non-blank text.
    pub save_enabled: bool,
}

/// The identity editor for a new identity (`editing` false) or an
/// existing one.
pub fn identity_panel(editing: bool, label: &str, has_existing_password: bool, password_touched: bool) -> (p: IdentityPanel)
    ensures
        p.title_key@ == (if editing { "edit_identity"@ } else { "new_identity"@ }),
        p.save_key@ == (if editing { "update_identity"@ } else { "save_identity"@ }),
        p.password_placeholder == (if has_existing_password && !password_touched {
            PasswordPlaceholder::StoredBullets
        } else {
            PasswordPlaceholder::Hint
        }),
        p.save_enabled == (trim(label@).len() > 0),
{
    IdentityPanel {
        title_key: if editing { "edit_identity" } else { "new_identity" },
        save_key: if editing { "update_identity" } else { "save_identity" },
        password_placeholder: if has_existing_password && !password_touched {
            PasswordPlaceholder::StoredBullets
        } else {
            PasswordPlaceholder::Hint
        },
        save_enabled: !is_blank_text(label),
    }
}

/// The identity's key picker: "(none)" then every key's label, with the
/// form's key selected ("(none)" when it has none).
pub fn identity_key_picker(keys: &Vec<SshKey>, selected: &Option<String>) -> (p: PickList)
    requires
        keys@.len() + 1 < usize::MAX,
    ensures
        p.options@.len() == keys@.len() + 1,
        p.options@[0]@ == "(none)"@,
        forall|i: int| 0 <= i < keys@.len() ==> #[trigger] p.options@[i + 1]@ == keys@[i].label@,
        p.selected@ == match selected {
            Some(s) => s@,
            None => "(none)"@,
        },
{
    let mut options: Vec<String> = Vec::new();
    options.push("(none)".to_string());
    let mut i: usize = 0;
    while i < keys.len()
        invariant
            i <= keys.len(),
            options@.len() == i + 1,
            options@[0]@ == "(none)"@,
            forall|k: int| 0 <= k < i ==> #[trigger] options@[k + 1]@ == keys@[k].label@,
        decreases keys.len() - i,
    {
        options.push(keys[i].label.clone());
        i = i + 1;
    }
    let sel = match selected {
        Some(s) => s.clone(),
        None => "(none)".to_string(),
    };
    PickList { options, selected: sel }
}

/// The hosts signed in with identity `id`, in vault order.
pub open spec fn linked_hosts(conns: Seq<Connection>, id: u128) -> Seq<usize> {
    keep_in_order(Seq::new(conns.len(), |i: int| i as usize),
        |i: usize| i < conns.len() && conns[i as int].identity_id == Some(id))
}

/// The "Linked to" list of the identity being edited.
pub fn linked_connections(conns: &Vec<Connection>, id: u128) -> (v: Vec<usize>)
    ensures
        v@ == linked_hosts(conns@, id),
{
    let ghost idx = Seq::new(conns@.len(), |i: int| i as usize);
    let ghost keep = |i: usize| i < conns@.len() && conns@[i as int].identity_id == Some(id);
    let mut out: Vec<usize> = Vec::new();
    let mut i: usize = 0;
    while i < conns.len()
        invariant
            i <= conns@.len(),
            idx == Seq::new(conns@.len(), |i: int| i as usize),
            keep == (|i: usize| i < conns@.len() && conns@[i as int].identity_id == Some(id)),
            out@ == keep_in_order(idx.subrange(0, i as int), keep),
        decreases conns.len() - i,
    {
        proof {
            assert(idx.subrange(0, i + 1).drop_last() =~= idx.subrange(0, i as int));
            assert(idx.subrange(0, i + 1).last() == i);
        }
        let linked = match conns[i].identity_id {
            Some(x) => x == id,
            None => false,
        };
        if linked {
            out.push(i);
        }
        i = i + 1;
    }
    proof {
        assert(idx.subrange(0, conns@.len() as int) =~= idx);
    }
    out
}

/// What the certificate section of the key form says.
#[derive(Clone, Copy, Debug, PartialEq, Eq, Structural)]
pub enum CertHint {
    /// A certificate was found next to the key.
    Detected,
    /// The plain description of the optional certificate.
    Describe,
}

/// The key import form's chrome.
#[derive(Clone, Copy, Debug, PartialEq, Eq)]
pub struct KeyImportPanel {
    pub title_key: &'static str,
    pub save_key: &'static str,
    /// The "loaded N bytes" status under the file picker.
    pub loaded_status: bool,
    /// The passphrase field of an encrypted key.
    pub passphrase_field: bool,
    pub cert_hint: CertHint,
    /// Save is offered once there is key content, or a public line alone
    /// (a security key has no private half).
    pub save_enabled: bool,
}

/// The key import form for a new key (`editing` false) or an existing
/// one.
pub fn key_import_panel(
    editing: bool,
    pem: &str,
    public_key: &str,
    passphrase_required: bool,
    cert_detected: bool,
) -> (p: KeyImportPanel)
    ensures
        p.title_key@ == (if editing { "edit_key"@ } else { "add_key"@ }),
        p.save_key@ == (if editing { "update_key"@ } else { "save_key"@ }),
        p.loaded_status == (pem@.len() > 0),
        p.passphrase_field == passphrase_required,
        p.cert_hint == (if cert_detected { CertHint::Detected } else { CertHint::Describe }),
        p.save_enabled == (pem@.len() > 0 || trim(public_key@).len() > 0),
{
    let has_content = chars_of(pem).len() > 0;
    KeyImportPanel {
        title_key: if editing { "edit_key" } else { "add_key" },
        save_key: if editing { "update_key" } else { "save_key" },
        loaded_status: has_content,
        passphrase_field: passphrase_required,
        cert_hint: if cert_detected { CertHint::Detected } else { CertHint::Describe },
        save_enabled: has_content || !is_blank_text(public_key),
    }
}

} // verus!
