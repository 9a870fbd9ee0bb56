//! The Keychain screen: the key cards' badge, the identity cards'
//! credential summary, which sections and placeholders show, and the key
//! generator's form.

use vstd::prelude::*;
use std::collections::HashSet;
use crate::state::{contains_id, SshKey};
use crate::text::{chars_of, push_all, string_from_chars};

verus! {

/// The badge after a key card's algorithm line.
#[derive(Clone, Copy, Debug, PartialEq, Eq, Structural)]
pub enum KeyBadge {
    SecurityKey,
    Certificate,
}

/// The key card's badge: a security key says so (its private half is not
/// in the vault); otherwise a key carrying a certificate is flagged.
pub fn key_badge(key: &SshKey) -> (b: Option<KeyBadge>)
    ensures
        b == (if key.is_security_key {
            Some(KeyBadge::SecurityKey)
        } else if key.has_certificate {
            Some(KeyBadge::Certificate)
        } else {
            None
        }),
{
    if key.is_security_key {
        Some(KeyBadge::SecurityKey)
    } else if key.has_certificate {
        Some(KeyBadge::Certificate)
    } else {
        None
    }
}

/// A saved identity (username plus credentials).
#[derive(Clone, Debug)]
pub struct Identity {
    pub id: u128,
    pub label: String,
    pub username: Option<String>,
    pub key_id: Option<u128>,
}

/// `parts` joined with `", "`.
pub open spec fn join_comma(parts: Seq<Seq<char>>) -> Seq<char>
    decreases parts.len(),
{
    if parts.len() == 0 {
        Seq::empty()
    } else if parts.len() == 1 {
        parts[0]
    } else {
        join_comma(parts.drop_last()) + seq![',', ' '] + parts.last()
    }
}

/// Label of the first key with `id`.
pub open spec fn key_label_of(keys: Seq<SshKey>, id: u128) -> Option<Seq<char>> {
    if exists|i: int| 0 <= i < keys.len() && keys[i].id == id {
        Some(keys[choose|i: int| 0 <= i < keys.len() && keys[i].id == id
            && forall|j: int| 0 <= j < i ==> keys[j].id != id].label@)
    } else {
        None
    }
}

/// The credentials an identity card lists: its username, a dot mask when
/// a password is stored, and the label of its key when that key exists.
pub open spec fn identity_parts(identity: Identity, has_password: bool, keys: Seq<SshKey>) -> Seq<Seq<char>> {
    (if identity.username is Some { seq![identity.username->0@] } else { Seq::empty() })
        + (if has_password { seq!["\u{25CF}\u{25CF}\u{25CF}\u{25CF}"@] } else { Seq::empty() })
        + (if identity.key_id is Some && key_label_of(keys, identity.key_id->0) is Some {
            seq![key_label_of(keys, identity.key_id->0)->0]
        } else {
            Seq::empty()
        })
}

/// Label of the first key with `id`.
fn find_key_label(keys: &Vec<SshKey>, id: u128) -> (r: Option<Vec<char>>)
    ensures
        r is None ==> key_label_of(keys@, id) is None,
        r matches Some(l) ==> key_label_of(keys@, id) == Some(l@),
{
    let mut i: usize = 0;
    while i < keys.len()
        invariant
            i <= keys.len(),
            forall|j: int| 0 <= j < i ==> keys@[j].id != id,
        decreases keys.len() - i,
    {
        if keys[i].id == id {
            proof {
                let c = choose|k: int| 0 <= k < keys@.len() && keys@[k].id == id
                    && forall|j: int| 0 <= j < k ==> keys@[j].id != id;
                assert(keys@[i as int].id == id);
                if c < i {
                    assert(keys@[c].id != id);
                }
                if i < c {
                    assert(keys@[i as int].id != id);
                }
            }
            return Some(chars_of(keys[i].label.as_str()));
        }
        i = i + 1;
    }
    None
}

/// Appends `part` to a `", "`-joined list of `n` parts.
fn push_part(out: &mut Vec<char>, n: usize, part: &Vec<char>, parts: Ghost<Seq<Seq<char>>>)
    requires
        old(out)@ == join_comma(parts@),
        parts@.len() == n,
    ensures
        final(out)@ == join_comma(parts@.push(part@)),
{
    proof {
        assert(parts@.push(part@).drop_last() =~= parts@);
    }
    if n > 0 {
        out.push(',');
        out.push(' ');
    } else {
        assert(old(out)@ == Seq::<char>::empty());
    }
    push_all(out, part);
    proof {
        if n == 0 {
            assert(final(out)@ =~= part@);
        } else {
            assert(final(out)@ =~= join_comma(parts@) + seq![',', ' '] + part@);
        }
    }
}

/// The identity card's subtitle: the listed credentials joined with
/// `", "`, or `None` when there are none (the card then says "no
/// credentials"). `with_password` holds the identities that store a
/// password.
pub fn identity_subtitle(identity: &Identity, with_password: &HashSet<u128>, keys: &Vec<SshKey>) -> (s: Option<String>)
    ensures
        ({
            let parts = identity_parts(*identity, with_password@.contains(identity.id), keys@);
            &&& s is None <==> parts.len() == 0
            &&& s matches Some(t) ==> t@ == join_comma(parts)
        }),
{
    let has_pw = contains_id(with_password, identity.id);
    let ghost mut parts: Seq<Seq<char>> = Seq::empty();
    let mut out: Vec<char> = Vec::new();
    let mut n: usize = 0;
    if let Some(u) = &identity.username {
        let uc = chars_of(u.as_str());
        push_part(&mut out, n, &uc, Ghost(parts));
        proof { parts = parts.push(uc@); }
        n = n + 1;
    }
    if has_pw {
        let dots = chars_of("\u{25CF}\u{25CF}\u{25CF}\u{25CF}");
        push_part(&mut out, n, &dots, Ghost(parts));
        proof { parts = parts.push(dots@); }
        n = n + 1;
    }
    if let Some(kid) = identity.key_id {
        if let Some(l) = find_key_label(keys, kid) {
            push_part(&mut out, n, &l, Ghost(parts));
            proof { parts = parts.push(l@); }
            n = n + 1;
        }
    }
    proof {
        assert(parts =~= identity_parts(*identity, has_pw, keys@));
    }
    if n == 0 { None } else { Some(string_from_chars(&out)) }
}

/// What a keychain section (keys or identities) shows.
#[derive(Clone, Copy, Debug, PartialEq, Eq, Structural)]
pub enum SectionState {
    /// The section is hidden (nothing of its kind is saved).
    Hidden,
    /// A "nothing matches" card.
    NoMatches,
    /// The matching cards.
    Cards,
}

/// The layout of the Keychain screen.
#[derive(Clone, Copy, Debug, PartialEq, Eq, Structural)]
pub enum KeychainLayout {
    /// Neither keys nor identities exist: the full-page empty state.
    Empty,
    /// The two sections.
    Sections { keys: SectionState, identities: SectionState },
}

/// The state of one section given its total and its matching count.
pub open spec fn section_state(total: nat, matching: nat) -> SectionState {
    if total == 0 { SectionState::Hidden } else if matching == 0 { SectionState::NoMatches } else { SectionState::Cards }
}

/// The Keychain layout: the empty state only when the whole keychain is
/// empty (identities must still show when there are no keys); otherwise
/// each section hides when nothing of its kind is saved and shows a
/// no-match card when the search filters everything out.
pub fn keychain_layout(keys_total: usize, keys_matching: usize, ids_total: usize, ids_matching: usize) -> (l: KeychainLayout)
    ensures
        l == (if keys_total == 0 && ids_total == 0 {
            KeychainLayout::Empty
        } else {
            KeychainLayout::Sections {
                keys: section_state(keys_total as nat, keys_matching as nat),
                identities: section_state(ids_total as nat, ids_matching as nat),
            }
        }),
{
    if keys_total == 0 && ids_total == 0 {
        return KeychainLayout::Empty;
    }
    let keys = if keys_total == 0 { SectionState::Hidden } else if keys_matching == 0 { SectionState::NoMatches } else { SectionState::Cards };
    let identities = if ids_total == 0 { SectionState::Hidden } else if ids_matching == 0 { SectionState::NoMatches } else { SectionState::Cards };
    KeychainLayout::Sections { keys, identities }
}

/// Key generation algorithm.
#[derive(Clone, Copy, Debug, PartialEq, Eq, Structural)]
pub enum KeyGenAlgo {
    Ed25519,
    Rsa,
    Ecdsa,
}

/// The dependent picker under the algorithm: RSA key sizes or ECDSA
/// curves (none for Ed25519).
#[derive(Clone, Copy, Debug, PartialEq, Eq, Structural)]
pub enum KeyGenSubPicker {
    Nothing,
    RsaBits,
    EcdsaCurve,
}

/// The sub-picker the generator shows for `algo`.
pub fn keygen_sub_picker(algo: KeyGenAlgo) -> (p: KeyGenSubPicker)
    ensures
        p == (match algo {
            KeyGenAlgo::Ed25519 => KeyGenSubPicker::Nothing,
            KeyGenAlgo::Rsa => KeyGenSubPicker::RsaBits,
            KeyGenAlgo::Ecdsa => KeyGenSubPicker::EcdsaCurve,
        }),
{
    match algo {
        KeyGenAlgo::Ed25519 => KeyGenSubPicker::Nothing,
        KeyGenAlgo::Rsa => KeyGenSubPicker::RsaBits,
        KeyGenAlgo::Ecdsa => KeyGenSubPicker::EcdsaCurve,
    }
}

/// The generator's footer.
#[derive(Clone, Copy, Debug, PartialEq, Eq, Structural)]
pub enum KeyGenFooter {
    /// The result screen: Done.
    Done,
    /// The spec form: Cancel and Generate (enabled unless a task runs).
    CancelGenerate { generate_enabled: bool },
}

/// The generator's footer for the form state.
pub fn keygen_footer(has_result: bool, working: bool) -> (f: KeyGenFooter)
    ensures
        f == (if has_result { KeyGenFooter::Done } else { KeyGenFooter::CancelGenerate { generate_enabled: !working } }),
{
    if has_result { KeyGenFooter::Done } else { KeyGenFooter::CancelGenerate { generate_enabled: !working } }
}

/// Exporting the generated private key with neither passphrase field
/// filled writes it unencrypted; the result screen warns so.
pub fn keygen_plaintext_warning(passphrase: &str, confirm: &str) -> (w: bool)
    ensures
        w == (passphrase@.len() == 0 && confirm@.len() == 0),
{
    passphrase.is_empty() && confirm.is_empty()
}

/// The status line above the keychain cards.
#[derive(Clone, Copy, Debug, PartialEq, Eq, Structural)]
pub enum KeychainStatus {
    /// No line (a side panel shows its own message next to its fields).
    Nothing,
    /// The last action's error.
    Error,
    /// The last action's success message.
    Success,
}

/// The status line: hidden while an import, identity or generate panel
/// is open; otherwise the error, else the success message.
pub fn keychain_status(panel_open: bool, has_error: bool, has_success: bool) -> (s: KeychainStatus)
    ensures
        s == (if panel_open {
            KeychainStatus::Nothing
        } else if has_error {
            KeychainStatus::Error
        } else if has_success {
            KeychainStatus::Success
        } else {
            KeychainStatus::Nothing
        }),
{
    if panel_open {
        KeychainStatus::Nothing
    } else if has_error {
        KeychainStatus::Error
    } else if has_success {
        KeychainStatus::Success
    } else {
        KeychainStatus::Nothing
    }
}

} // verus!
