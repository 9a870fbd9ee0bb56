//! The case-insensitive search boxes of the vault screens: which rows a
//! query keeps, in their display order.

use vstd::prelude::*;
use crate::text::chars_of;

verus! {

/// What `str::to_lowercase` returns for `s` (Unicode lowercase mapping).
pub uninterp spec fn lowercase(s: Seq<char>) -> Seq<char>;

/// `str::to_lowercase`: the Unicode lowercase of `s`. The result is
/// named by `lowercase`, a function of `s` alone; the lowercase of the
/// empty string is empty (the mapping goes character by character).
#[verifier::external_body]
fn str_to_lowercase(s: &str) -> (r: String)
    ensures
        r@ == lowercase(s@),
        s@.len() == 0 ==> r@.len() == 0,
{
    s.to_lowercase()
}

/// The characters of the Unicode lowercase of `s`.
pub(crate) fn to_lowercase(s: &str) -> (r: Vec<char>)
    ensures
        r@ == lowercase(s@),
        s@.len() == 0 ==> r@.len() == 0,
{
    let low = str_to_lowercase(s);
    chars_of(low.as_str())
}

/// `needle` occurs in `hay` as a contiguous run.
pub open spec fn contains_seq(hay: Seq<char>, needle: Seq<char>) -> bool {
    exists|i: int| 0 <= i && i + needle.len() <= hay.len() && #[trigger] hay.subrange(i, i + needle.len()) == needle
}

/// Whether `needle` occurs in `hay` (`str::contains` with a string
/// pattern).
pub fn contains_chars(hay: &Vec<char>, needle: &Vec<char>) -> (b: bool)
    ensures
        b == contains_seq(hay@, needle@),
{
    if needle.len() > hay.len() {
        return false;
    }
    let last = hay.len() - needle.len();
    let mut i: usize = 0;
    while i <= last
        invariant
            last + needle.len() == hay.len(),
            i <= last + 1,
            forall|k: int| 0 <= k < i ==> #[trigger] hay@.subrange(k, k + needle@.len()) != needle@,
        decreases last + 1 - i,
    {
        let mut j: usize = 0;
        let mut ok = true;
        while j < needle.len()
            invariant
                i <= last,
                last + needle.len() == hay.len(),
                j <= needle.len(),
                ok ==> forall|t: int| 0 <= t < j ==> hay@[i + t] == needle@[t],
                !ok ==> hay@.subrange(i as int, i + needle@.len()) != needle@,
            decreases needle.len() - j,
        {
            if ok && hay[i + j] != needle[j] {
                assert(hay@.subrange(i as int, i + needle@.len())[j as int] != needle@[j as int]);
                ok = false;
            }
            j = j + 1;
        }
        if ok {
            assert(hay@.subrange(i as int, i + needle@.len()) =~= needle@);
            return true;
        }
        if i == last {
            proof {
                assert forall|k: int| 0 <= k && k + needle@.len() <= hay@.len()
                    implies #[trigger] hay@.subrange(k, k + needle@.len()) != needle@ by {
                    assert(k <= i);
                }
            }
            return false;
        }
        i = i + 1;
    }
    false
}

/// Case-insensitive substring test, as the search boxes run it: the
/// lowercased text contains the (already lowercased) needle.
pub open spec fn matches_ci(text: Seq<char>, needle_lower: Seq<char>) -> bool {
    contains_seq(lowercase(text), needle_lower)
}

/// Whether the lowercased `text` contains `needle_lower`.
pub fn matches_text(text: &str, needle_lower: &Vec<char>) -> (b: bool)
    ensures
        b == matches_ci(text@, needle_lower@),
{
    let t = to_lowercase(text);
    contains_chars(&t, needle_lower)
}

/// The entries of `order` (display order) that satisfy `keep`, in the
/// same order.
pub open spec fn keep_in_order<T>(order: Seq<T>, keep: spec_fn(T) -> bool) -> Seq<T>
    decreases order.len(),
{
    if order.len() == 0 {
        Seq::empty()
    } else {
        keep_in_order(order.drop_last(), keep)
            + (if keep(order.last()) { seq![order.last()] } else { Seq::empty() })
    }
}

/// `0, 1, ..., n - 1`: the natural row order.
pub open spec fn natural_order(n: nat) -> Seq<usize> {
    Seq::new(n, |i: int| i as usize)
}

/// Filtering keeps exactly the entries that satisfy the predicate: every
/// kept entry comes from `order` and satisfies it, and every entry of
/// `order` that satisfies it is kept.
pub proof fn keep_in_order_exact<T>(order: Seq<T>, keep: spec_fn(T) -> bool)
    ensures
        forall|x: T| keep_in_order(order, keep).contains(x) <==> (order.contains(x) && keep(x)),
        keep_in_order(order, keep).len() <= order.len(),
    decreases order.len(),
{
    if order.len() > 0 {
        let pre = order.drop_last();
        keep_in_order_exact(pre, keep);
        let r = keep_in_order(order, keep);
        assert forall|x: T| r.contains(x) <==> (order.contains(x) && keep(x)) by {
            if r.contains(x) {
                let k = choose|k: int| 0 <= k < r.len() && r[k] == x;
                if k < keep_in_order(pre, keep).len() {
                    assert(keep_in_order(pre, keep)[k] == x);
                    assert(keep_in_order(pre, keep).contains(x));
                    assert(pre.contains(x));
                    let m = choose|m: int| 0 <= m < pre.len() && pre[m] == x;
                    assert(order[m] == x);
                } else {
                    assert(order[order.len() - 1] == x);
                }
            }
            if order.contains(x) && keep(x) {
                let m = choose|m: int| 0 <= m < order.len() && order[m] == x;
                if m < order.len() - 1 {
                    assert(pre[m] == x);
                    assert(pre.contains(x));
                    assert(keep_in_order(pre, keep).contains(x));
                    let k = choose|k: int| 0 <= k < keep_in_order(pre, keep).len() && keep_in_order(pre, keep)[k] == x;
                    assert(r[k] == x);
                } else {
                    assert(r[r.len() - 1] == x);
                }
            }
        }
    }
}

/// A predicate that keeps everything keeps the whole list, in order.
pub proof fn keep_in_order_all<T>(order: Seq<T>, keep: spec_fn(T) -> bool)
    requires
        forall|x: T| #[trigger] keep(x),
    ensures
        keep_in_order(order, keep) == order,
    decreases order.len(),
{
    if order.len() > 0 {
        keep_in_order_all(order.drop_last(), keep);
        assert(order.drop_last().push(order.last()) == order);
    }
}

/// A predicate that holds of every entry of `order` keeps all of it, in
/// order.
pub proof fn keep_in_order_every<T>(order: Seq<T>, keep: spec_fn(T) -> bool)
    requires
        forall|k: int| 0 <= k < order.len() ==> #[trigger] keep(order[k]),
    ensures
        keep_in_order(order, keep) == order,
    decreases order.len(),
{
    if order.len() > 0 {
        assert forall|k: int| 0 <= k < order.drop_last().len() implies #[trigger] keep(order.drop_last()[k]) by {
            assert(order.drop_last()[k] == order[k]);
        }
        keep_in_order_every(order.drop_last(), keep);
        assert(keep(order[order.len() - 1]));
        assert(order.drop_last().push(order.last()) == order);
    }
}

/// Whether host `c` matches the lowercased picker query `q`.
pub open spec fn host_matches(label: Seq<char>, hostname: Seq<char>, q: Seq<char>) -> bool {
    q.len() == 0 || matches_ci(label, q) || matches_ci(hostname, q)
}

/// The search needle of a query: its lowercase.
pub fn needle_of(query: &str) -> (n: Vec<char>)
    ensures
        n@ == lowercase(query@),
        query@.len() == 0 ==> n@.len() == 0,
{
    to_lowercase(query)
}

} // verus!
