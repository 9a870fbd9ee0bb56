//! The SFTP local pane's Windows drive picker: whether a path sits on a
//! drive volume, and the short-lived cache in front of the drive probe.

use vstd::prelude::*;
use crate::sftp_menu::Platform;
use crate::text::chars_of;

verus! {

/// An ASCII letter.
pub open spec fn ascii_alpha(c: char) -> bool {
    ('a' <= c <= 'z') || ('A' <= c <= 'Z')
}

/// The path's first component is a Windows drive volume: a `C:` disk
/// prefix, or the verbatim `\\?\C:` form (where only `\` may follow the
/// drive). Only Windows paths have prefixes; elsewhere this never holds.
pub open spec fn windows_disk_path(path: Seq<char>, platform: Platform) -> bool {
    platform == Platform::Windows && (
        (path.len() >= 2 && ascii_alpha(path[0]) && path[1] == ':')
        || (path.len() >= 6 && path[0] == '\\' && path[1] == '\\' && path[2] == '?' && path[3] == '\\'
            && ascii_alpha(path[4]) && path[5] == ':' && (path.len() == 6 || path[6] == '\\'))
    )
}

/// Whether `c` is an ASCII letter.
fn is_ascii_alpha(c: char) -> (b: bool)
    ensures
        b == ascii_alpha(c),
{
    ('a' <= c && c <= 'z') || ('A' <= c && c <= 'Z')
}

/// True when the path's first component is a real Windows volume (`C:\`,
/// `D:\`, including the `\\?\C:\` verbatim form). UNC paths like
/// `\\server\share` or `\\wsl$\Ubuntu` are not.
pub fn is_windows_disk_path(path: &str, platform: Platform) -> (b: bool)
    ensures
        b == windows_disk_path(path@, platform),
{
    if platform != Platform::Windows {
        return false;
    }
    let p = chars_of(path);
    if p.len() >= 2 && is_ascii_alpha(p[0]) && p[1] == ':' {
        return true;
    }
    p.len() >= 6 && p[0] == '\\' && p[1] == '\\' && p[2] == '?' && p[3] == '\\' && is_ascii_alpha(p[4])
        && p[5] == ':' && (p.len() == 6 || p[6] == '\\')
}

/// How long a drive probe stays valid, in milliseconds.
pub const DRIVE_CACHE_TTL_MS: u64 = 5000;

/// The last drive probe: when it ran (a monotonic clock, in
/// milliseconds) and what it found.
#[derive(Clone, Debug)]
pub struct DriveCache {
    pub probe: Option<(u64, Vec<String>)>,
}

/// Time elapsed since `then`, saturating at zero like `Instant::elapsed`.
pub open spec fn elapsed_ms(now: u64, then: u64) -> u64 {
    if now >= then { (now - then) as u64 } else { 0 }
}

/// When the cached probe ran.
pub open spec fn probed_at(cache: DriveCache) -> u64 {
    match cache.probe {
        Some((t, _)) => t,
        None => 0,
    }
}

/// What the cached probe found.
pub open spec fn probed_drives(cache: DriveCache) -> Seq<String> {
    match cache.probe {
        Some((_, d)) => d@,
        None => Seq::empty(),
    }
}

/// The cache holds a probe younger than the TTL.
pub open spec fn cache_fresh(cache: DriveCache, now: u64) -> bool {
    cache.probe is Some && elapsed_ms(now, probed_at(cache)) < DRIVE_CACHE_TTL_MS
}

/// A copy of a list of strings.
fn copy_strings(v: &Vec<String>) -> (r: Vec<String>)
    ensures
        r@ == v@,
{
    let mut r: Vec<String> = Vec::new();
    let mut i: usize = 0;
    while i < v.len()
        invariant
            i <= v.len(),
            r@ == v@.subrange(0, i as int),
        decreases v.len() - i,
    {
        r.push(v[i].clone());
        i = i + 1;
        assert(v@.subrange(0, i as int) == v@.subrange(0, i - 1).push(v@[i - 1]));
    }
    assert(v@.subrange(0, v.len() as int) == v@);
    r
}

/// Cached front for the drive probe: a probe younger than the TTL at
/// `now_ms` is reused (the raw probe touches the filesystem for every
/// drive letter, far too heavy per frame); otherwise `probe` runs once and
/// its drives are stored with the clock reading it returns beside them,
/// taken once the probe has finished.
pub fn list_windows_drives_cached<F: FnOnce() -> (Vec<String>, u64)>(cache: &mut DriveCache, now_ms: u64, probe: F) -> (drives: Vec<String>)
    requires
        probe.requires(()),
    ensures
        cache_fresh(*old(cache), now_ms) ==> drives@ == probed_drives(*old(cache)) && *final(cache) == *old(cache),
        !cache_fresh(*old(cache), now_ms) ==> (final(cache).probe matches Some((t, d))
            && probe.ensures((), (drives, t)) && d@ == drives@),
{
    let fresh = match &cache.probe {
        Some((at, _)) => {
            let elapsed: u64 = if now_ms >= *at { now_ms - *at } else { 0 };
            elapsed < DRIVE_CACHE_TTL_MS
        },
        None => false,
    };
    if fresh {
        match &cache.probe {
            Some((_, drives)) => {
                return copy_strings(drives);
            },
            None => {
                return Vec::new();
            },
        }
    }
    let (drives, done_ms) = probe();
    cache.probe = Some((done_ms, copy_strings(&drives)));
    drives
}

/// A probe stored at time `at` is reused for the whole TTL after it,
/// and for any reading of a clock that went backwards; from `at + TTL`
/// on it is stale.
pub proof fn probe_fresh_for_its_ttl(cache: DriveCache, at: u64, now: u64)
    requires
        cache.probe matches Some((t, _)) && t == at,
    ensures
        cache_fresh(cache, now) <==> now < at + DRIVE_CACHE_TTL_MS,
{
}

} // verus!
