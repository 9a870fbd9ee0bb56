//! Translated label templates filled with their values: `{n}`, `{host}`,
//! `{name}` and the other placeholders of the client's strings.

use vstd::prelude::*;
use crate::text::{chars_of, decimal, push_decimal, replace_all, replace_all_chars, replace_first, replace_first_chars, string_from_chars};

verus! {

/// `template.replace(key, value)`: every occurrence of the placeholder
/// filled.
pub fn fill_all(template: &str, key: &str, value: &str) -> (s: String)
    ensures
        s@ == replace_all(template@, key@, value@),
{
    let r = replace_all_chars(&chars_of(template), &chars_of(key), &chars_of(value));
    string_from_chars(&r)
}

/// `template.replacen(key, value, 1)`: the first occurrence of the
/// placeholder filled.
pub fn fill_first(template: &str, key: &str, value: &str) -> (s: String)
    ensures
        s@ == replace_first(template@, key@, value@),
{
    let r = replace_first_chars(&chars_of(template), &chars_of(key), &chars_of(value));
    string_from_chars(&r)
}

/// A bulk menu row's label (`upload_n_items` and its siblings): the first
/// `{n}` filled with the selection size.
pub fn count_label(template: &str, n: usize) -> (s: String)
    ensures
        s@ == replace_first(template@, "{n}"@, decimal(n as nat)),
{
    let mut digits: Vec<char> = Vec::new();
    push_decimal(&mut digits, n as u64);
    let r = replace_first_chars(&chars_of(template), &chars_of("{n}"), &digits);
    string_from_chars(&r)
}

/// A cross-pane row's label (`upload_to_host`, `relay_to_remote`,
/// `move_to_remote`): the first `{host}` filled with the other pane's host
/// label, or with the "the other host" wording when it has none.
pub fn host_label(template: &str, host: &Option<String>, other_host: &str) -> (s: String)
    ensures
        s@ == replace_first(template@, "{host}"@, match host {
            Some(h) => h@,
            None => other_host@,
        }),
{
    match host {
        Some(h) => fill_first(template, "{host}", h.as_str()),
        None => fill_first(template, "{host}", other_host),
    }
}

/// The relay deploy consent text: `{host}` then `{user}` filled, every
/// occurrence of each.
pub fn consent_text(template: &str, host: &str, user: &str) -> (s: String)
    ensures
        s@ == replace_all(replace_all(template@, "{host}"@, host@), "{user}"@, user@),
{
    let a = fill_all(template, "{host}", host);
    fill_all(a.as_str(), "{user}", user)
}

/// Filling a template that lacks the placeholder leaves it unchanged,
/// whichever fill is used.
pub proof fn fill_without_placeholder(s: Seq<char>, pat: Seq<char>, rep: Seq<char>)
    requires
        pat.len() > 0,
        forall|i: int| 0 <= i <= s.len() - pat.len() ==> #[trigger] s.subrange(i, i + pat.len()) != pat,
    ensures
        replace_all(s, pat, rep) == s,
        replace_first(s, pat, rep) == s,
    decreases s.len(),
{
    if s.len() >= pat.len() {
        assert(s.take(pat.len() as int) == s.subrange(0, pat.len() as int));
        assert(s.subrange(0, 0 + pat.len() as int) != pat);
        let t = s.drop_first();
        assert forall|i: int| 0 <= i <= t.len() - pat.len() implies #[trigger] t.subrange(i, i + pat.len()) != pat by {
            assert(t.subrange(i, i + pat.len()) =~= s.subrange(i + 1, i + 1 + pat.len()));
        }
        fill_without_placeholder(t, pat, rep);
        assert(seq![s[0]] + t =~= s);
        assert(replace_all(s, pat, rep) == seq![s[0]] + replace_all(t, pat, rep));
        assert(replace_first(s, pat, rep) == seq![s[0]] + replace_first(t, pat, rep));
    }
}

} // verus!
