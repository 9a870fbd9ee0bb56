//! The sidebar Snippets tab: which snippets the search and the host-tag
//! filter keep, how the kept ones split into group folders and rows, and
//! what each row shows (the command preview and the install marker).

use vstd::prelude::*;
use crate::search::{contains_seq, keep_in_order, keep_in_order_every, keep_in_order_exact, lowercase, matches_ci, matches_text, needle_of, to_lowercase};
use crate::text::{before_first, chars_eq, chars_of, lemma_before_first, slice_chars, string_from_chars};

verus! {

/// A saved command snippet.
#[derive(Clone, Debug)]
pub struct Snippet {
    pub label: String,
    pub command: String,
    pub tags: Vec<String>,
    pub group: Option<String>,
}

/// Some tag of `tags` contains the needle (case-insensitively).
pub open spec fn some_tag_matches(tags: Seq<String>, q: Seq<char>) -> bool {
    exists|i: int| 0 <= i < tags.len() && matches_ci(#[trigger] tags[i]@, q)
}

/// Some tag of `tags`, lowercased, is one of the focused host's
/// (lowercased) tags.
pub open spec fn shares_host_tag(tags: Seq<String>, host_tags: Seq<String>) -> bool {
    exists|i: int, j: int| 0 <= i < tags.len() && 0 <= j < host_tags.len()
        && #[trigger] host_tags[j]@ == lowercase(#[trigger] tags[i]@)
}

/// The search needle keeps snippet `s`: empty needle, or a match in its
/// label, command, a tag or its group name.
pub open spec fn needle_keeps(s: Snippet, q: Seq<char>) -> bool {
    q.len() == 0 || matches_ci(s.label@, q) || matches_ci(s.command@, q) || some_tag_matches(s.tags@, q)
        || (s.group is Some && matches_ci(s.group->0@, q))
}

/// The tag filter keeps snippet `s`: off, no tagged host focused, or a
/// tag shared with the focused host.
pub open spec fn tags_keep(s: Snippet, tag_filter: bool, host_tags: Option<Vec<String>>) -> bool {
    !tag_filter || host_tags is None || shares_host_tag(s.tags@, host_tags->0@)
}

/// The snippets kept by the search (`search` is the raw query) and the
/// tag filter, in the given display order.
pub open spec fn visible_snippets(
    snippets: Seq<Snippet>,
    order: Seq<usize>,
    search: Seq<char>,
    tag_filter: bool,
    host_tags: Option<Vec<String>>,
) -> Seq<usize> {
    keep_in_order(order, |i: usize| needle_keeps(snippets[i as int], lowercase(search))
        && tags_keep(snippets[i as int], tag_filter, host_tags))
}

/// Whether some tag matches the needle.
fn any_tag_matches(tags: &Vec<String>, q: &Vec<char>) -> (b: bool)
    ensures
        b == some_tag_matches(tags@, q@),
{
    let mut i: usize = 0;
    while i < tags.len()
        invariant
            i <= tags.len(),
            forall|k: int| 0 <= k < i ==> !matches_ci(#[trigger] tags@[k]@, q@),
        decreases tags.len() - i,
    {
        if matches_text(tags[i].as_str(), q) {
            return true;
        }
        i = i + 1;
    }
    false
}

/// Whether `v` holds a string with the characters `c`.
fn holds_text(v: &Vec<String>, c: &Vec<char>) -> (b: bool)
    ensures
        b == exists|j: int| 0 <= j < v@.len() && #[trigger] v@[j]@ == c@,
{
    let mut j: usize = 0;
    while j < v.len()
        invariant
            j <= v.len(),
            forall|k: int| 0 <= k < j ==> #[trigger] v@[k]@ != c@,
        decreases v.len() - j,
    {
        let have = chars_of(v[j].as_str());
        if chars_eq(&have, c) {
            return true;
        }
        j = j + 1;
    }
    false
}

/// Whether the snippet shares a tag with the focused host.
fn any_tag_shared(tags: &Vec<String>, host_tags: &Vec<String>) -> (b: bool)
    ensures
        b == shares_host_tag(tags@, host_tags@),
{
    let mut i: usize = 0;
    while i < tags.len()
        invariant
            i <= tags.len(),
            forall|k: int, j: int| 0 <= k < i && 0 <= j < host_tags@.len()
                ==> #[trigger] host_tags@[j]@ != lowercase(#[trigger] tags@[k]@),
        decreases tags.len() - i,
    {
        let low = to_lowercase(tags[i].as_str());
        if holds_text(host_tags, &low) {
            return true;
        }
        i = i + 1;
    }
    false
}

/// Sort then filter: the indices of `order` (the sorted snippet order)
/// that the search and the tag filter keep, so actions still address the
/// canonical snippet index. With nothing typed and the tag filter off,
/// every snippet shows, in display order.
pub fn filter_snippets(
    snippets: &Vec<Snippet>,
    order: &Vec<usize>,
    search: &str,
    tag_filter: bool,
    host_tags: &Option<Vec<String>>,
) -> (visible: Vec<usize>)
    requires
        forall|k: int| 0 <= k < order@.len() ==> #[trigger] order@[k] < snippets@.len(),
    ensures
        visible@ == visible_snippets(snippets@, order@, search@, tag_filter, *host_tags),
        search@.len() == 0 && !tag_filter ==> visible@ == order@,
{
    let q = needle_of(search);
    let ghost keep = |i: usize| needle_keeps(snippets@[i as int], lowercase(search@))
        && tags_keep(snippets@[i as int], tag_filter, *host_tags);
    let mut out: Vec<usize> = Vec::new();
    let mut k: usize = 0;
    while k < order.len()
        invariant
            k <= order@.len(),
            forall|t: int| 0 <= t < order@.len() ==> #[trigger] order@[t] < snippets@.len(),
            q@ == lowercase(search@),
            keep == (|i: usize| needle_keeps(snippets@[i as int], lowercase(search@))
                && tags_keep(snippets@[i as int], tag_filter, *host_tags)),
            out@ == keep_in_order(order@.subrange(0, k as int), keep),
        decreases order.len() - k,
    {
        let idx = order[k];
        let s = &snippets[idx];
        let needle_ok = q.len() == 0 || matches_text(s.label.as_str(), &q) || matches_text(s.command.as_str(), &q)
            || any_tag_matches(&s.tags, &q) || match &s.group {
                Some(g) => matches_text(g.as_str(), &q),
                None => false,
            };
        let tags_ok = !tag_filter || match host_tags {
            Some(ht) => any_tag_shared(&s.tags, ht),
            None => true,
        };
        proof {
            assert(order@.subrange(0, k + 1).drop_last() =~= order@.subrange(0, k as int));
            assert(order@.subrange(0, k + 1).last() == idx);
            assert((needle_ok && tags_ok) == keep(idx));
        }
        if needle_ok && tags_ok {
            out.push(idx);
        }
        k = k + 1;
    }
    proof {
        assert(order@.subrange(0, order@.len() as int) =~= order@);
        if search@.len() == 0 && !tag_filter {
            lemma_empty_needle_shows_every_snippet(snippets@, order@, search@, *host_tags);
        }
    }
    out
}

/// ASCII case folding of one character's code (`A`-`Z` to `a`-`z`).
pub open spec fn ascii_fold(c: char) -> u32 {
    let u = c as u32;
    if 65 <= u <= 90 { (u + 32) as u32 } else { u }
}

/// `str::eq_ignore_ascii_case`.
pub open spec fn eq_ignore_ascii_case(a: Seq<char>, b: Seq<char>) -> bool {
    a.len() == b.len() && forall|i: int| 0 <= i < a.len() ==> ascii_fold(#[trigger] a[i]) == ascii_fold(b[i])
}

/// Whether two strings are equal up to ASCII case.
pub fn eq_ignore_ascii(a: &str, b: &str) -> (r: bool)
    ensures
        r == eq_ignore_ascii_case(a@, b@),
{
    let x = chars_of(a);
    let y = chars_of(b);
    if x.len() != y.len() {
        return false;
    }
    let mut i: usize = 0;
    while i < x.len()
        invariant
            i <= x.len() == y.len(),
            x@ == a@,
            y@ == b@,
            forall|k: int| 0 <= k < i ==> ascii_fold(#[trigger] x@[k]) == ascii_fold(y@[k]),
        decreases x.len() - i,
    {
        let u = x[i] as u32;
        let v = y[i] as u32;
        let fu: u32 = if 65 <= u && u <= 90 { u + 32 } else { u };
        let fv: u32 = if 65 <= v && v <= 90 { v + 32 } else { v };
        if fu != fv {
            return false;
        }
        i = i + 1;
    }
    true
}

/// Snippet `s` is in group `name` (ASCII case-insensitively).
pub open spec fn in_group(s: Snippet, name: Seq<char>) -> bool {
    s.group is Some && eq_ignore_ascii_case(s.group->0@, name)
}

/// The visible snippets in group `name`.
pub open spec fn group_members(snippets: Seq<Snippet>, visible: Seq<usize>, name: Seq<char>) -> Seq<usize> {
    keep_in_order(visible, |i: usize| in_group(snippets[i as int], name))
}

/// One folder row per group name with at least one visible member, with
/// its member count, in the order of `names`.
pub open spec fn folder_rows(snippets: Seq<Snippet>, visible: Seq<usize>, names: Seq<String>) -> Seq<(String, usize)>
    decreases names.len(),
{
    if names.len() == 0 {
        Seq::empty()
    } else {
        let n = names.last();
        let cnt = group_members(snippets, visible, n@).len();
        folder_rows(snippets, visible, names.drop_last())
            + (if cnt > 0 { seq![(n, cnt as usize)] } else { Seq::empty() })
    }
}

/// How the Snippets tab lays out the visible snippets.
#[derive(Clone, Debug, PartialEq, Eq)]
pub struct SnippetListing {
    /// Inside a group: the group's name (a back row leads out of it).
    pub open_group: Option<String>,
    /// At the root: the group folders with their member counts.
    pub folders: Vec<(String, usize)>,
    /// The snippet rows, as indices into the vault's snippet list.
    pub rows: Vec<usize>,
}

/// The listing: a search flattens everything into rows; inside an open
/// group, that group's snippets; at the root, the folders of the groups
/// with visible members, then the ungrouped snippets.
pub open spec fn snippet_listing(
    snippets: Seq<Snippet>,
    visible: Seq<usize>,
    searching: bool,
    open_group: Option<String>,
    names: Seq<String>,
) -> (Option<String>, Seq<(String, usize)>, Seq<usize>) {
    if open_group is Some && !searching {
        (open_group, Seq::empty(), group_members(snippets, visible, open_group->0@))
    } else if searching {
        (None, Seq::empty(), visible)
    } else {
        (None, folder_rows(snippets, visible, names), keep_in_order(visible, |i: usize| snippets[i as int].group is None))
    }
}

/// The visible snippets whose group matches `name`.
fn members_of(snippets: &Vec<Snippet>, visible: &Vec<usize>, name: &str) -> (r: Vec<usize>)
    requires
        forall|k: int| 0 <= k < visible@.len() ==> #[trigger] visible@[k] < snippets@.len(),
    ensures
        r@ == group_members(snippets@, visible@, name@),
{
    let ghost keep = |i: usize| in_group(snippets@[i as int], name@);
    let mut out: Vec<usize> = Vec::new();
    let mut k: usize = 0;
    while k < visible.len()
        invariant
            k <= visible@.len(),
            forall|t: int| 0 <= t < visible@.len() ==> #[trigger] visible@[t] < snippets@.len(),
            keep == (|i: usize| in_group(snippets@[i as int], name@)),
            out@ == keep_in_order(visible@.subrange(0, k as int), keep),
        decreases visible.len() - k,
    {
        let idx = visible[k];
        let hit = match &snippets[idx].group {
            Some(g) => eq_ignore_ascii(g.as_str(), name),
            None => false,
        };
        proof {
            assert(visible@.subrange(0, k + 1).drop_last() =~= visible@.subrange(0, k as int));
        }
        if hit {
            out.push(idx);
        }
        k = k + 1;
    }
    proof {
        assert(visible@.subrange(0, visible@.len() as int) =~= visible@);
    }
    out
}

/// Lays out the visible snippets (see `snippet_listing`). `names` are the
/// vault's group names in folder order; `searching` is a non-empty search.
pub fn snippet_rows(
    snippets: &Vec<Snippet>,
    visible: &Vec<usize>,
    searching: bool,
    open_group: &Option<String>,
    names: &Vec<String>,
) -> (listing: SnippetListing)
    requires
        forall|k: int| 0 <= k < visible@.len() ==> #[trigger] visible@[k] < snippets@.len(),
    ensures
        (listing.open_group, listing.folders@, listing.rows@)
            == snippet_listing(snippets@, visible@, searching, *open_group, names@),
{
    if !searching {
        if let Some(open) = open_group {
            let rows = members_of(snippets, visible, open.as_str());
            return SnippetListing { open_group: Some(open.clone()), folders: Vec::new(), rows };
        }
    }
    if searching {
        return SnippetListing { open_group: None, folders: Vec::new(), rows: visible.clone() };
    }
    let mut folders: Vec<(String, usize)> = Vec::new();
    let mut n: usize = 0;
    while n < names.len()
        invariant
            n <= names@.len(),
            forall|k: int| 0 <= k < visible@.len() ==> #[trigger] visible@[k] < snippets@.len(),
            folders@ == folder_rows(snippets@, visible@, names@.subrange(0, n as int)),
        decreases names.len() - n,
    {
        let members = members_of(snippets, visible, names[n].as_str());
        proof {
            assert(names@.subrange(0, n + 1).drop_last() =~= names@.subrange(0, n as int));
        }
        if members.len() > 0 {
            folders.push((names[n].clone(), members.len()));
        }
        n = n + 1;
    }
    let ghost keep = |i: usize| snippets@[i as int].group is None;
    let mut rows: Vec<usize> = Vec::new();
    let mut k: usize = 0;
    while k < visible.len()
        invariant
            k <= visible@.len(),
            forall|t: int| 0 <= t < visible@.len() ==> #[trigger] visible@[t] < snippets@.len(),
            keep == (|i: usize| snippets@[i as int].group is None),
            rows@ == keep_in_order(visible@.subrange(0, k as int), keep),
        decreases visible.len() - k,
    {
        let idx = visible[k];
        proof {
            assert(visible@.subrange(0, k + 1).drop_last() =~= visible@.subrange(0, k as int));
        }
        if snippets[idx].group.is_none() {
            rows.push(idx);
        }
        k = k + 1;
    }
    proof {
        assert(visible@.subrange(0, visible@.len() as int) =~= visible@);
        assert(names@.subrange(0, names@.len() as int) =~= names@);
    }
    SnippetListing { open_group: None, folders, rows }
}

/// An empty needle with the tag filter off shows every snippet, in the
/// given display order.
proof fn lemma_empty_needle_shows_every_snippet(
    snippets: Seq<Snippet>,
    order: Seq<usize>,
    search: Seq<char>,
    host_tags: Option<Vec<String>>,
)
    requires
        lowercase(search).len() == 0,
    ensures
        visible_snippets(snippets, order, search, false, host_tags) == order,
{
    let keep = |i: usize| needle_keeps(snippets[i as int], lowercase(search))
        && tags_keep(snippets[i as int], false, host_tags);
    assert forall|k: int| 0 <= k < order.len() implies #[trigger] keep(order[k]) by {}
    keep_in_order_every(order, keep);
}

/// The search finds a snippet by any one of its fields: a snippet of
/// `order` whose label, command, group name or any single tag contains
/// the query (both lowercased), or any snippet when the query is empty,
/// is listed, whatever its other fields hold, provided the tag filter is
/// off, no tagged host is focused, or one of its tags, lowercased, is one
/// of the focused host's tags.
pub proof fn search_finds_snippet_by_any_field(
    snippets: Seq<Snippet>,
    order: Seq<usize>,
    search: Seq<char>,
    tag_filter: bool,
    host_tags: Option<Vec<String>>,
    k: int,
)
    requires
        0 <= k < order.len(),
        order[k] < snippets.len(),
        ({
            let s = snippets[order[k] as int];
            let q = lowercase(search);
            ||| q.len() == 0
            ||| contains_seq(lowercase(s.label@), q)
            ||| contains_seq(lowercase(s.command@), q)
            ||| (s.group is Some && contains_seq(lowercase(s.group->0@), q))
            ||| exists|t: int| 0 <= t < s.tags@.len() && contains_seq(lowercase(#[trigger] s.tags@[t]@), q)
        }),
        !tag_filter || host_tags is None || exists|t: int, j: int|
            0 <= t < snippets[order[k] as int].tags@.len() && 0 <= j < host_tags->0@.len()
                && #[trigger] host_tags->0@[j]@ == lowercase(#[trigger] snippets[order[k] as int].tags@[t]@),
    ensures
        visible_snippets(snippets, order, search, tag_filter, host_tags).contains(order[k]),
{
    let keep = |i: usize| needle_keeps(snippets[i as int], lowercase(search))
        && tags_keep(snippets[i as int], tag_filter, host_tags);
    keep_in_order_exact(order, keep);
    let s = snippets[order[k] as int];
    let q = lowercase(search);
    if exists|t: int| 0 <= t < s.tags@.len() && contains_seq(lowercase(#[trigger] s.tags@[t]@), q) {
        let t = choose|t: int| 0 <= t < s.tags@.len() && contains_seq(lowercase(#[trigger] s.tags@[t]@), q);
        assert(matches_ci(s.tags@[t]@, q));
    }
    assert(keep(order[k]));
    assert(order.contains(order[k]));
    assert(keep_in_order(order, keep).contains(order[k]) <==> (order.contains(order[k]) && keep(order[k])));
}

/// The lenses only narrow: a listed snippet is one of `order`; unless the
/// query is empty, its label, command, group name or one of its tags
/// contains the query (both lowercased); and with the tag filter on for a
/// focused host, one of its tags, lowercased, is one of the host's tags.
pub proof fn listed_snippet_matches_the_lenses(
    snippets: Seq<Snippet>,
    order: Seq<usize>,
    search: Seq<char>,
    tag_filter: bool,
    host_tags: Option<Vec<String>>,
    x: usize,
)
    requires
        visible_snippets(snippets, order, search, tag_filter, host_tags).contains(x),
    ensures
        order.contains(x),
        ({
            let s = snippets[x as int];
            let q = lowercase(search);
            ||| q.len() == 0
            ||| contains_seq(lowercase(s.label@), q)
            ||| contains_seq(lowercase(s.command@), q)
            ||| (s.group is Some && contains_seq(lowercase(s.group->0@), q))
            ||| exists|t: int| 0 <= t < s.tags@.len() && contains_seq(lowercase(#[trigger] s.tags@[t]@), q)
        }),
        tag_filter && host_tags is Some ==> exists|t: int, j: int|
            0 <= t < snippets[x as int].tags@.len() && 0 <= j < host_tags->0@.len()
                && #[trigger] host_tags->0@[j]@ == lowercase(#[trigger] snippets[x as int].tags@[t]@),
{
    let keep = |i: usize| needle_keeps(snippets[i as int], lowercase(search))
        && tags_keep(snippets[i as int], tag_filter, host_tags);
    keep_in_order_exact(order, keep);
    assert(keep_in_order(order, keep) == visible_snippets(snippets, order, search, tag_filter, host_tags));
    assert(keep_in_order(order, keep).contains(x));
    assert(keep_in_order(order, keep).contains(x) <==> (order.contains(x) && keep(x)));
    assert(keep(x));
    let s = snippets[x as int];
    let q = lowercase(search);
    if some_tag_matches(s.tags@, q) {
        let t = choose|t: int| 0 <= t < s.tags@.len() && matches_ci(#[trigger] s.tags@[t]@, q);
        assert(contains_seq(lowercase(s.tags@[t]@), q));
    }
}

/// A line without the `\r` of a `\r\n` ending.
pub open spec fn strip_cr(t: Seq<char>) -> Seq<char> {
    if t.len() > 0 && t.last() == '\r' { t.drop_last() } else { t }
}

/// `str::lines().next()`, or empty for an empty command: the text before
/// the first line feed, without the carriage return of a CRLF ending.
pub open spec fn first_line(s: Seq<char>) -> Seq<char> {
    let b = before_first(s, '\n');
    if b.len() < s.len() { strip_cr(b) } else { b }
}

/// `str::lines().nth(1).is_some()`: something follows the first line feed.
pub open spec fn has_second_line(s: Seq<char>) -> bool {
    before_first(s, '\n').len() + 1 < s.len()
}

/// The one-line preview of a snippet's command: its first line cut to 48
/// characters, with an ellipsis when the line was cut or more lines
/// follow.
pub open spec fn command_preview_text(s: Seq<char>) -> Seq<char> {
    let f = first_line(s);
    let head = if f.len() > 48 { f.take(48) } else { f };
    if has_second_line(s) || f.len() > 48 { head.push('\u{2026}') } else { head }
}

/// The preview line a snippet row shows under its label.
pub fn command_preview(command: &str) -> (p: String)
    ensures
        p@ == command_preview_text(command@),
{
    let s = chars_of(command);
    let mut k: usize = 0;
    while k < s.len() && s[k] != '\n'
        invariant
            k <= s.len(),
            forall|j: int| 0 <= j < k ==> s@[j] != '\n',
        decreases s.len() - k,
    {
        k = k + 1;
    }
    proof {
        lemma_before_first(s@, '\n', k as int);
    }
    let mut end: usize = k;
    if k < s.len() && k > 0 && s[k - 1] == '\r' {
        end = k - 1;
    }
    let f = slice_chars(&s, 0, end);
    assert(f@ == first_line(command@)) by {
        if k < s.len() && k > 0 && s@[k - 1] == '\r' {
            assert(s@.subrange(0, k as int).drop_last() =~= s@.subrange(0, k - 1));
        }
    }
    let multiline = k < s.len() && k + 1 < s.len();
    let cut = f.len() > 48;
    let mut head = if cut { slice_chars(&f, 0, 48) } else { slice_chars(&f, 0, f.len()) };
    assert(f@.subrange(0, f@.len() as int) =~= f@);
    if multiline || cut {
        head.push('\u{2026}');
    }
    string_from_chars(&head)
}

/// The install-script marker of a snippet row.
#[derive(Clone, Copy, Debug, PartialEq, Eq, Structural)]
pub enum InstallMarker {
    /// An ordinary snippet: no marker.
    Plain,
    /// An install script not yet run on this host: the amber badge.
    NotRunHere,
    /// An install script that ran on this host: "installed here" and the
    /// date of the last run.
    RanHere,
}

/// The marker for a snippet that is not an install script (`None`), or
/// one that has (`Some(true)`) or has not (`Some(false)`) run here.
pub fn install_marker(install: Option<bool>) -> (m: InstallMarker)
    ensures
        m == match install {
            None => InstallMarker::Plain,
            Some(false) => InstallMarker::NotRunHere,
            Some(true) => InstallMarker::RanHere,
        },
{
    match install {
        None => InstallMarker::Plain,
        Some(false) => InstallMarker::NotRunHere,
        Some(true) => InstallMarker::RanHere,
    }
}

/// The tab says "no matches" when the filters keep no snippet at all, or
/// when a search leaves no row to show.
pub fn snippets_no_matches(visible_empty: bool, searching: bool, rows_empty: bool) -> (b: bool)
    ensures
        b == (visible_empty || (searching && rows_empty)),
{
    visible_empty || (searching && rows_empty)
}

/// The `%Y-%m-%d` calendar date, in UTC, of the Unix timestamp `secs`
/// as chrono writes it; none for a timestamp beyond chrono's range.
pub uninterp spec fn utc_ymd(secs: i64) -> Option<Seq<char>>;

/// The first and last second of the years 0 to 9999, as Unix times.
pub open spec fn in_four_digit_years(secs: int) -> bool {
    -62167219200 <= secs <= 253402300799
}

/// The proleptic Gregorian (year, month, day) of the day `days` after
/// 1970-01-01, counting from March so the leap day ends the year.
pub open spec fn civil_from_days(days: int) -> (int, int, int) {
    let z = days + 719468;
    let era = z / 146097;
    let doe = z - era * 146097;
    let yoe = (doe - doe / 1460 + doe / 36524 - doe / 146096) / 365;
    let doy = doe - (365 * yoe + yoe / 4 - yoe / 100);
    let mp = (5 * doy + 2) / 153;
    let d = doy - (153 * mp + 2) / 5 + 1;
    let m = if mp < 10 { mp + 3 } else { mp - 9 };
    (if m <= 2 { yoe + era * 400 + 1 } else { yoe + era * 400 }, m, d)
}

/// The decimal digit `k` (0 to 9).
pub open spec fn digit(k: int) -> char {
    seq!['0', '1', '2', '3', '4', '5', '6', '7', '8', '9'][k]
}

/// `n` (0 to 99) in two zero-padded digits.
pub open spec fn two_digits(n: int) -> Seq<char> {
    seq![digit(n / 10), digit(n % 10)]
}

/// The `YYYY-MM-DD` text of the UTC calendar date of Unix time `secs`, for
/// a date in the years 0 to 9999.
pub open spec fn ymd_text(secs: int) -> Seq<char> {
    let (y, m, d) = civil_from_days(secs / 86400);
    two_digits(y / 100) + two_digits(y % 100) + seq!['-'] + two_digits(m) + seq!['-'] + two_digits(d)
}

/// `chrono::DateTime::from_timestamp(secs, 0)`, written with the
/// `%Y-%m-%d` format. What the result holds is named by `utc_ymd`, a
/// function of `secs` alone. For a date in the years 0 to 9999 the result
/// is stated: chrono's proleptic Gregorian UTC date with a four-digit
/// zero-padded year and two-digit month and day. Outside those years
/// (where chrono writes a signed year, or gives none beyond its range)
/// only the name is stated.
#[verifier::external_body]
fn format_utc_ymd(secs: i64) -> (r: Option<String>)
    ensures
        r matches Some(d) ==> utc_ymd(secs) == Some(d@),
        r is None ==> utc_ymd(secs) is None,
        r matches Some(d) ==> (in_four_digit_years(secs as int) ==> d@ == ymd_text(secs as int)),
        in_four_digit_years(secs as int) ==> r is Some,
{
    match chrono::DateTime::from_timestamp(secs, 0) {
        Some(at) => Some(at.format("%Y-%m-%d").to_string()),
        None => None,
    }
}

/// The "installed here" line: the label, a middle dot, the date.
pub open spec fn installed_line_text(label: Seq<char>, date: Seq<char>) -> Seq<char> {
    label + seq![' ', '\u{b7}', ' '] + date
}

/// The "installed here" line of an install script, for its run date.
pub fn installed_here_line(label: &str, date: &str) -> (s: String)
    ensures
        s@ == installed_line_text(label@, date@),
{
    let mut v = chars_of(label);
    v.push(' ');
    v.push('\u{b7}');
    v.push(' ');
    let d = chars_of(date);
    crate::text::push_all(&mut v, &d);
    string_from_chars(&v)
}

/// The marker line of an install script that last ran on this host at
/// the Unix time `ran_at`: the "installed here" line with the run's UTC
/// date (none for a time chrono cannot represent).
pub fn install_ran_line(label: &str, ran_at: i64) -> (s: Option<String>)
    ensures
        match utc_ymd(ran_at) {
            Some(d) => s matches Some(t) && t@ == installed_line_text(label@, d),
            None => s is None,
        },
        in_four_digit_years(ran_at as int)
            ==> (s matches Some(t) && t@ == installed_line_text(label@, ymd_text(ran_at as int))),
{
    match format_utc_ymd(ran_at) {
        Some(d) => Some(installed_here_line(label, d.as_str())),
        None => None,
    }
}

/// An action a snippet row fires, naming the snippet by its index.
#[derive(Clone, Copy, Debug, PartialEq, Eq, Structural)]
pub enum SnippetAction {
    Edit(usize),
    Paste(usize),
    Run(usize),
    /// Ask to delete the snippet (a confirmation follows).
    RequestDelete(usize),
}

/// The keyboard bindings of a snippet row under the sidebar's key
/// navigation.
#[derive(Clone, Copy, Debug, PartialEq, Eq, Structural)]
pub struct SnippetRowKeys {
    pub enter: SnippetAction,
    pub shift_enter: SnippetAction,
    pub delete: SnippetAction,
}

/// The keys of row `idx` of the Snippets tab: Enter runs the snippet
/// (running is the row's primary action), Shift+Enter pastes it without
/// running, Delete asks to delete it.
pub fn snippet_row_keys(idx: usize) -> (k: SnippetRowKeys)
    ensures
        k.enter == SnippetAction::Run(idx),
        k.shift_enter == SnippetAction::Paste(idx),
        k.delete == SnippetAction::RequestDelete(idx),
{
    SnippetRowKeys {
        enter: SnippetAction::Run(idx),
        shift_enter: SnippetAction::Paste(idx),
        delete: SnippetAction::RequestDelete(idx),
    }
}

/// The hover messages a snippet row emits as the pointer enters or
/// leaves it.
#[derive(Clone, Copy, Debug, PartialEq, Eq, Structural)]
pub enum SnippetHover {
    Hovered(usize),
    Unhovered(usize),
}

/// One row of the Snippets tab as it renders.
#[derive(Clone, Debug)]
pub struct SnippetRowView {
    /// The one-line command preview under the label.
    pub preview: String,
    /// The floating actions, shown only while the row is hovered.
    pub actions: Vec<SnippetAction>,
    pub on_enter: SnippetHover,
    pub on_exit: SnippetHover,
    pub marker: InstallMarker,
    /// What Enter, Shift+Enter and Delete fire on the row.
    pub keys: SnippetRowKeys,
}

/// Row `idx` of the Snippets tab: the command preview, Edit / Paste / Run
/// floating over the trailing edge only while hovered, the hover
/// messages, the install marker (see `install_marker`) and the row's
/// keys (see `snippet_row_keys`).
pub fn snippet_row(idx: usize, command: &str, hovered: bool, install: Option<bool>) -> (r: SnippetRowView)
    ensures
        r.preview@ == command_preview_text(command@),
        r.actions@ == (if hovered {
            seq![SnippetAction::Edit(idx), SnippetAction::Paste(idx), SnippetAction::Run(idx)]
        } else {
            Seq::empty()
        }),
        r.on_enter == SnippetHover::Hovered(idx),
        r.on_exit == SnippetHover::Unhovered(idx),
        r.marker == match install {
            None => InstallMarker::Plain,
            Some(false) => InstallMarker::NotRunHere,
            Some(true) => InstallMarker::RanHere,
        },
        r.keys.enter == SnippetAction::Run(idx),
        r.keys.shift_enter == SnippetAction::Paste(idx),
        r.keys.delete == SnippetAction::RequestDelete(idx),
{
    let mut actions: Vec<SnippetAction> = Vec::new();
    if hovered {
        actions.push(SnippetAction::Edit(idx));
        actions.push(SnippetAction::Paste(idx));
        actions.push(SnippetAction::Run(idx));
    }
    assert(actions@ =~= (if hovered {
        seq![SnippetAction::Edit(idx), SnippetAction::Paste(idx), SnippetAction::Run(idx)]
    } else {
        Seq::empty()
    }));
    SnippetRowView {
        preview: command_preview(command),
        actions,
        on_enter: SnippetHover::Hovered(idx),
        on_exit: SnippetHover::Unhovered(idx),
        marker: install_marker(install),
        keys: snippet_row_keys(idx),
    }
}

} // verus!
