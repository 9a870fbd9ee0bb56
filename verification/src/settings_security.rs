//! Settings > Security & Privacy: the vault-password and lock cards, the
//! Privacy Mode and logging cards with their pickers (retention and size
//! cap), and the SFTP backup dialog's confirm button.

use vstd::prelude::*;
use crate::text::{chars_of, str_eq};

verus! {

/// The value of the decimal digits `s` (all of them digits).
pub open spec fn digits_value(s: Seq<char>) -> int
    decreases s.len(),
{
    if s.len() == 0 { 0 } else { digits_value(s.drop_last()) * 10 + (s.last() as int - 48) }
}

/// Every character of `s` is an ASCII digit.
pub open spec fn all_digits(s: Seq<char>) -> bool {
    forall|i: int| 0 <= i < s.len() ==> '0' <= #[trigger] s[i] <= '9'
}

/// `str::parse::<u64>`: an optional `+`, then one or more ASCII digits
/// whose value fits in 64 bits.
pub open spec fn parse_u64_spec(s: Seq<char>) -> Option<u64> {
    let d = if s.len() > 0 && s[0] == '+' { s.drop_first() } else { s };
    if d.len() > 0 && all_digits(d) && digits_value(d) <= u64::MAX {
        Some(digits_value(d) as u64)
    } else {
        None
    }
}

/// Extending a digit string by one digit.
proof fn lemma_digits_push(s: Seq<char>, c: char)
    ensures
        digits_value(s.push(c)) == digits_value(s) * 10 + (c as int - 48),
{
    assert(s.push(c).drop_last() == s);
}

/// Digit strings have non-negative values.
proof fn lemma_digits_nonneg(s: Seq<char>)
    requires
        all_digits(s),
    ensures
        digits_value(s) >= 0,
    decreases s.len(),
{
    if s.len() > 0 {
        lemma_digits_nonneg(s.drop_last());
    }
}

/// A longer digit string is worth at least as much as its prefix.
proof fn lemma_digits_prefix_le(s: Seq<char>, k: int)
    requires
        all_digits(s),
        0 <= k <= s.len(),
    ensures
        digits_value(s.subrange(0, k)) <= digits_value(s),
    decreases s.len() - k,
{
    if k < s.len() {
        lemma_digits_prefix_le(s, k + 1);
        assert(s.subrange(0, k + 1) == s.subrange(0, k).push(s[k]));
        lemma_digits_push(s.subrange(0, k), s[k]);
        lemma_digits_nonneg(s.subrange(0, k));
    } else {
        assert(s.subrange(0, k) == s);
    }
}

/// Parses a non-negative decimal integer the way `str::parse::<u64>`
/// does.
pub fn parse_u64(s: &str) -> (r: Option<u64>)
    ensures
        r == parse_u64_spec(s@),
{
    let c = chars_of(s);
    let start: usize = if c.len() > 0 && c[0] == '+' { 1 } else { 0 };
    let ghost d = if c@.len() > 0 && c@[0] == '+' { c@.drop_first() } else { c@ };
    proof {
        assert(d == c@.subrange(start as int, c@.len() as int));
    }
    if start == c.len() {
        return None;
    }
    let mut acc: u64 = 0;
    let mut i: usize = start;
    while i < c.len()
        invariant
            start <= i <= c@.len(),
            c@ == s@,
            d == (if s@.len() > 0 && s@[0] == '+' { s@.drop_first() } else { s@ }),
            d == c@.subrange(start as int, c@.len() as int),
            all_digits(c@.subrange(start as int, i as int)),
            acc == digits_value(c@.subrange(start as int, i as int)),
        decreases c.len() - i,
    {
        let ch = c[i];
        let prefix = Ghost(c@.subrange(start as int, i as int));
        assert(c@.subrange(start as int, i + 1) == prefix@.push(ch));
        if !('0' <= ch && ch <= '9') {
            proof {
                assert(d[i - start] == ch);
                assert(!('0' <= d[i - start] <= '9'));
                assert(!all_digits(d));
            }
            return None;
        }
        let digit: u64 = (ch as u32 - 48) as u64;
        proof {
            lemma_digits_push(prefix@, ch);
        }
        if acc > 1844674407370955161 || (acc == 1844674407370955161 && digit > 5) {
            proof {
                assert(acc * 10 + digit > u64::MAX) by (nonlinear_arith)
                    requires
                        acc > 1844674407370955161 || (acc == 1844674407370955161 && digit > 5);
                assert(digits_value(c@.subrange(start as int, i + 1)) > u64::MAX);
                assert(all_digits(c@.subrange(start as int, i + 1)));
                if all_digits(d) {
                    lemma_digits_prefix_le(d, i + 1 - start);
                    assert(d.subrange(0, i + 1 - start) == c@.subrange(start as int, i + 1));
                }
            }
            return None;
        }
        acc = acc * 10 + digit;
        i = i + 1;
    }
    proof {
        assert(c@.subrange(start as int, i as int) == d);
    }
    Some(acc)
}

/// How the size-cap picker labels a code.
#[derive(Clone, Copy, Debug, PartialEq, Eq, Structural)]
pub enum SizeCapLabel {
    /// The localized "off".
    Off,
    /// A human-readable size of this many bytes.
    Bytes(u64),
}

/// The label for a size-cap code: codes are byte counts, labelled by the
/// size they stand for; "off", anything unparsable and zero read as off.
pub fn log_size_cap_label(code: &str) -> (l: SizeCapLabel)
    ensures
        l == (match parse_u64_spec(code@) {
            Some(n) => if n > 0 { SizeCapLabel::Bytes(n) } else { SizeCapLabel::Off },
            None => SizeCapLabel::Off,
        }),
{
    match parse_u64(code) {
        Some(n) => if n > 0 { SizeCapLabel::Bytes(n) } else { SizeCapLabel::Off },
        None => SizeCapLabel::Off,
    }
}

/// The retention codes, in picker order.
pub open spec fn is_retention_code(c: Seq<char>) -> bool {
    c == "off"@ || c == "1d"@ || c == "3d"@ || c == "7d"@ || c == "14d"@ || c == "30d"@ || c == "90d"@
}

/// The retention picker's selection: the stored code when it is one of
/// the codes, "off" otherwise.
pub fn retention_selected(stored: &str) -> (c: &'static str)
    ensures
        c@ == (if is_retention_code(stored@) { stored@ } else { "off"@ }),
{
    if str_eq(stored, "1d") { "1d" }
    else if str_eq(stored, "3d") { "3d" }
    else if str_eq(stored, "7d") { "7d" }
    else if str_eq(stored, "14d") { "14d" }
    else if str_eq(stored, "30d") { "30d" }
    else if str_eq(stored, "90d") { "90d" }
    else { "off" }
}

/// The translation key that labels a retention code.
pub fn retention_label_key(code: &str) -> (k: &'static str)
    ensures
        k@ == (if code@ == "1d"@ { "log_retention_1d"@ }
            else if code@ == "3d"@ { "log_retention_3d"@ }
            else if code@ == "7d"@ { "log_retention_7d"@ }
            else if code@ == "14d"@ { "log_retention_14d"@ }
            else if code@ == "30d"@ { "log_retention_30d"@ }
            else if code@ == "90d"@ { "log_retention_90d"@ }
            else { "log_retention_off"@ }),
{
    if str_eq(code, "1d") { "log_retention_1d" }
    else if str_eq(code, "3d") { "log_retention_3d" }
    else if str_eq(code, "7d") { "log_retention_7d" }
    else if str_eq(code, "14d") { "log_retention_14d" }
    else if str_eq(code, "30d") { "log_retention_30d" }
    else if str_eq(code, "90d") { "log_retention_90d" }
    else { "log_retention_off" }
}

/// The size-cap codes (byte counts) offered by the picker.
pub open spec fn size_cap_code(n: u64) -> Option<Seq<char>> {
    if n == 536870912 { Some("536870912"@) }
    else if n == 1073741824 { Some("1073741824"@) }
    else if n == 5368709120 { Some("5368709120"@) }
    else if n == 10737418240 { Some("10737418240"@) }
    else if n == 53687091200 { Some("53687091200"@) }
    else { None }
}

/// The size-cap picker's selection for the stored cap: the code of a cap
/// the picker offers, "off" for no cap or any other value.
pub fn size_cap_selected(max_bytes: Option<u64>) -> (c: &'static str)
    ensures
        c@ == (match max_bytes {
            Some(n) => match size_cap_code(n) {
                Some(code) => code,
                None => "off"@,
            },
            None => "off"@,
        }),
{
    match max_bytes {
        Some(n) => {
            if n == 536870912 { "536870912" }
            else if n == 1073741824 { "1073741824" }
            else if n == 5368709120 { "5368709120" }
            else if n == 10737418240 { "10737418240" }
            else if n == 53687091200 { "53687091200" }
            else { "off" }
        },
        None => "off",
    }
}

/// The body of the vault master-password card.
#[derive(Clone, Copy, Debug, PartialEq, Eq, Structural)]
pub enum PasswordSection {
    /// No password, switch off: the "why set one" callout only.
    Importance,
    /// No password, switch on: the callout and the set-password form
    /// (with the biometric opt-in where the platform has it).
    SetupForm { offer_biometric: bool },
    /// Password set and removal armed: the confirm callout.
    RemoveConfirm,
    /// Password set: the protected callout.
    Protected,
}

/// The vault-password card: the header switch reads on with a committed
/// password or an open set-password form; the body follows the state.
pub fn password_card(has_password: bool, show_form: bool, confirm_remove: bool, biometric_available: bool) -> (r: (bool, PasswordSection))
    ensures
        r.0 == (has_password || show_form),
        r.1 == (if !has_password {
            if show_form { PasswordSection::SetupForm { offer_biometric: biometric_available } } else { PasswordSection::Importance }
        } else if confirm_remove {
            PasswordSection::RemoveConfirm
        } else {
            PasswordSection::Protected
        }),
{
    let section = if !has_password {
        if show_form { PasswordSection::SetupForm { offer_biometric: biometric_available } } else { PasswordSection::Importance }
    } else if confirm_remove {
        PasswordSection::RemoveConfirm
    } else {
        PasswordSection::Protected
    };
    (has_password || show_form, section)
}

/// The translation key labelling a manual-lock action setting.
pub fn manual_lock_label_key(v: &str) -> (k: &'static str)
    ensures
        k@ == (if v@ == "sleep"@ { "lock_vault_sleep"@ } else if v@ == "lock"@ { "lock_vault"@ } else { "manual_lock_ask"@ }),
{
    if str_eq(v, "sleep") { "lock_vault_sleep" } else if str_eq(v, "lock") { "lock_vault" } else { "manual_lock_ask" }
}

/// A confirm button of a Security dialog.
#[derive(Clone, Copy, Debug, PartialEq, Eq)]
pub struct ConfirmButton {
    /// Translation key of the label.
    pub label_key: &'static str,
    /// Fires (and is keyboard-recorded) only while no round runs.
    pub enabled: bool,
}

/// The backup dialog's confirm button: disabled and relabelled while a
/// round runs, otherwise "restore" or "back up" by direction.
pub fn sftp_backup_confirm(busy: bool, is_import: bool) -> (b: ConfirmButton)
    ensures
        b.enabled == !busy,
        b.label_key@ == (if busy { "sftp_backup_working"@ } else if is_import { "sftp_backup_restore_confirm"@ } else { "sftp_backup_confirm"@ }),
{
    let label_key = if busy {
        "sftp_backup_working"
    } else if is_import {
        "sftp_backup_restore_confirm"
    } else {
        "sftp_backup_confirm"
    };
    ConfirmButton { label_key, enabled: !busy }
}

/// The vault-lock card. Locking protects nothing without a master
/// password, so every control below needs one; without it the card says
/// so instead.
#[derive(Clone, Copy, Debug, PartialEq, Eq, Structural)]
pub struct LockCard {
    /// The biometric-unlock callout.
    pub biometric: bool,
    /// The Lock Vault and Update Password buttons (else the "needs a
    /// password" note).
    pub lock_buttons: bool,
    /// The change-password form under the buttons.
    pub change_form: bool,
    /// The "what Lock Vault does" picker.
    pub manual_action: bool,
    /// The auto-lock minutes field (else the same note).
    pub auto_lock_field: bool,
}

/// The lock card for the vault state.
pub fn lock_card(has_password: bool, biometric_available: bool, change_open: bool) -> (c: LockCard)
    ensures
        c == (LockCard {
            biometric: biometric_available && has_password,
            lock_buttons: has_password,
            change_form: has_password && change_open,
            manual_action: has_password,
            auto_lock_field: has_password,
        }),
{
    LockCard {
        biometric: biometric_available && has_password,
        lock_buttons: has_password,
        change_form: has_password && change_open,
        manual_action: has_password,
        auto_lock_field: has_password,
    }
}

/// The change-password form's confirm button: disabled and relabelled
/// while the key-derivation calibration runs.
pub fn change_password_confirm(calibrating: bool) -> (b: ConfirmButton)
    ensures
        b.enabled == !calibrating,
        b.label_key@ == (if calibrating { "kdf_calibrating"@ } else { "update_password"@ }),
{
    ConfirmButton { label_key: if calibrating { "kdf_calibrating" } else { "update_password" }, enabled: !calibrating }
}

/// The manual-lock picker's options, in order.
pub fn manual_lock_options() -> (v: Vec<&'static str>)
    ensures
        v@.len() == 3,
        v@[0]@ == "ask"@,
        v@[1]@ == "sleep"@,
        v@[2]@ == "lock"@,
{
    let mut v: Vec<&'static str> = Vec::new();
    v.push("ask");
    v.push("sleep");
    v.push("lock");
    v
}

/// One row of the Privacy Mode card.
#[derive(Clone, Copy, Debug, PartialEq, Eq, Structural)]
pub enum PrivacyRow {
    /// The master switch.
    Mode,
    PublicIps,
    PrivateIps,
    Usernames,
    Hostnames,
    /// The always-mask list.
    AlwaysMask,
    /// The never-mask list.
    NeverMask,
}

/// The Privacy Mode card: the master switch, and while the mode is on the
/// four per-class gates and the two lists.
pub fn privacy_rows(mode: bool) -> (v: Vec<PrivacyRow>)
    ensures
        v@ == (if mode {
            seq![PrivacyRow::Mode, PrivacyRow::PublicIps, PrivacyRow::PrivateIps, PrivacyRow::Usernames,
                PrivacyRow::Hostnames, PrivacyRow::AlwaysMask, PrivacyRow::NeverMask]
        } else {
            seq![PrivacyRow::Mode]
        }),
{
    let mut v: Vec<PrivacyRow> = Vec::new();
    v.push(PrivacyRow::Mode);
    if mode {
        v.push(PrivacyRow::PublicIps);
        v.push(PrivacyRow::PrivateIps);
        v.push(PrivacyRow::Usernames);
        v.push(PrivacyRow::Hostnames);
        v.push(PrivacyRow::AlwaysMask);
        v.push(PrivacyRow::NeverMask);
    }
    assert(v@ =~= (if mode {
        seq![PrivacyRow::Mode, PrivacyRow::PublicIps, PrivacyRow::PrivateIps, PrivacyRow::Usernames,
            PrivacyRow::Hostnames, PrivacyRow::AlwaysMask, PrivacyRow::NeverMask]
    } else {
        seq![PrivacyRow::Mode]
    }));
    v
}

/// One row of the Logging card.
#[derive(Clone, Copy, Debug, PartialEq, Eq, Structural)]
pub enum LoggingRow {
    SessionLogging,
    FullRecording,
    Compress,
    PlainTextFile,
    /// The folder of the plain-text logs, with its Change button.
    FileFolder,
    ConnectionHistory,
    Retention,
    SizeCap,
}

/// The Logging card: session recording with its sub-options while it is
/// on (the folder row only while the plain-text mirror is on), then the
/// connection history, the retention and the size cap.
pub fn logging_rows(session_logging: bool, log_file: bool) -> (v: Vec<LoggingRow>)
    ensures
        v@ == seq![LoggingRow::SessionLogging]
            + (if session_logging {
                seq![LoggingRow::FullRecording, LoggingRow::Compress, LoggingRow::PlainTextFile]
                    + (if log_file { seq![LoggingRow::FileFolder] } else { Seq::empty() })
            } else {
                Seq::empty()
            })
            + seq![LoggingRow::ConnectionHistory, LoggingRow::Retention, LoggingRow::SizeCap],
{
    let mut v: Vec<LoggingRow> = Vec::new();
    v.push(LoggingRow::SessionLogging);
    if session_logging {
        v.push(LoggingRow::FullRecording);
        v.push(LoggingRow::Compress);
        v.push(LoggingRow::PlainTextFile);
        if log_file {
            v.push(LoggingRow::FileFolder);
        }
    }
    v.push(LoggingRow::ConnectionHistory);
    v.push(LoggingRow::Retention);
    v.push(LoggingRow::SizeCap);
    assert(v@ =~= seq![LoggingRow::SessionLogging]
        + (if session_logging {
            seq![LoggingRow::FullRecording, LoggingRow::Compress, LoggingRow::PlainTextFile]
                + (if log_file { seq![LoggingRow::FileFolder] } else { Seq::empty() })
        } else {
            Seq::empty()
        })
        + seq![LoggingRow::ConnectionHistory, LoggingRow::Retention, LoggingRow::SizeCap]);
    v
}

} // verus!
