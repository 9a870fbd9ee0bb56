//! The WebDAV sync card's cleartext warning.

use vstd::prelude::*;
use crate::text::{
    after_last, after_last_chars, before_first, before_first_chars, chars_eq, chars_of, slice_chars,
    starts_with_chars, trim, trim_chars,
};

verus! {

/// The host named by a URL's authority (`host[:port]`, possibly after
/// `userinfo@`): a bracketed IPv6 literal is the text inside the
/// brackets, any other host ends at the first colon.
pub open spec fn authority_host(authority: Seq<char>) -> Seq<char> {
    let hostport = after_last(authority, '@');
    if hostport.len() > 0 && hostport[0] == '[' {
        before_first(hostport.drop_first(), ']')
    } else {
        before_first(hostport, ':')
    }
}

/// Whether `host` is the loopback address (no network path to sniff).
pub open spec fn is_loopback_host(host: Seq<char>) -> bool {
    host == "localhost"@ || host == "127.0.0.1"@ || host == "::1"@
}

/// Whether a WebDAV URL sends the account password in the clear: after
/// trimming, it is `http://` to a host that is not the loopback address.
pub open spec fn webdav_cleartext(url: Seq<char>) -> bool {
    let u = trim(url);
    let scheme = "http://"@;
    u.len() >= scheme.len() && u.subrange(0, scheme.len() as int) == scheme
        && !is_loopback_host(authority_host(before_first(u.skip(scheme.len() as int), '/')))
}

/// Whether this WebDAV URL would send the account password in the
/// clear. `http://` to anywhere but the loopback address does; `https`,
/// an empty field and a still-being-typed prefix do not.
pub fn webdav_is_cleartext(url: &str) -> (b: bool)
    ensures
        b == webdav_cleartext(url@),
{
    let all = chars_of(url);
    let u = trim_chars(&all);
    let scheme = chars_of("http://");
    if !starts_with_chars(&u, &scheme) {
        return false;
    }
    let rest = slice_chars(&u, scheme.len(), u.len());
    assert(rest@ == u@.skip(scheme@.len() as int));
    let authority = before_first_chars(&rest, '/');
    let hostport = after_last_chars(&authority, '@');
    let host = if hostport.len() > 0 && hostport[0] == '[' {
        let inner = slice_chars(&hostport, 1, hostport.len());
        assert(inner@ == hostport@.drop_first());
        before_first_chars(&inner, ']')
    } else {
        before_first_chars(&hostport, ':')
    };
    let localhost = chars_of("localhost");
    let v4 = chars_of("127.0.0.1");
    let v6 = chars_of("::1");
    !(chars_eq(&host, &localhost) || chars_eq(&host, &v4) || chars_eq(&host, &v6))
}

/// An `https://` URL never warns, whatever host it names, and neither
/// does a field holding less than the `http://` scheme (empty, or still
/// being typed).
pub proof fn https_and_partial_urls_are_quiet(url: Seq<char>)
    requires
        (trim(url).len() >= 8 && trim(url).subrange(0, 8) == "https://"@) || trim(url).len() < 7,
    ensures
        !webdav_cleartext(url),
{
    reveal_strlit("https://");
    reveal_strlit("http://");
    let u = trim(url);
    if u.len() >= 8 && u.subrange(0, 8) == "https://"@ {
        assert(u[4] == u.subrange(0, 8)[4]);
        if u.len() >= 7 && u.subrange(0, 7) == "http://"@ {
            assert(u[4] == u.subrange(0, 7)[4]);
        }
    }
}

} // verus!
