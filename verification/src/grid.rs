//! Card grids: the vault screens lay cards out in rows of as many
//! columns as fit, and record keyboard navigation in the same rows.

use vstd::prelude::*;

verus! {

/// `slice::chunks(c)`: consecutive runs of `c` items, the last one
/// possibly shorter.
pub open spec fn chunks<T>(s: Seq<T>, c: nat) -> Seq<Seq<T>>
    recommends
        c > 0,
    decreases s.len(),
{
    if s.len() == 0 || c == 0 {
        Seq::empty()
    } else if s.len() <= c {
        seq![s]
    } else {
        seq![s.take(c as int)] + chunks(s.skip(c as int), c)
    }
}

/// Concatenation of a sequence of runs.
pub open spec fn flatten<T>(rows: Seq<Seq<T>>) -> Seq<T>
    decreases rows.len(),
{
    if rows.len() == 0 { Seq::empty() } else { rows[0] + flatten(rows.drop_first()) }
}

/// Laying items out in rows loses, duplicates and reorders nothing;
/// every row holds between one and `c` items, and every row but the last
/// holds exactly `c`.
pub proof fn chunks_partition<T>(s: Seq<T>, c: nat)
    requires
        c > 0,
    ensures
        flatten(chunks(s, c)) == s,
        forall|k: int| 0 <= k < chunks(s, c).len() ==> 0 < #[trigger] chunks(s, c)[k].len() <= c,
        forall|k: int| 0 <= k < chunks(s, c).len() - 1 ==> #[trigger] chunks(s, c)[k].len() == c,
    decreases s.len(),
{
    if s.len() == 0 {
    } else if s.len() <= c {
        assert(flatten(seq![s]) == s + flatten(seq![s].drop_first()));
        assert(seq![s].drop_first() == Seq::<Seq<T>>::empty());
        assert(s + Seq::<T>::empty() == s);
    } else {
        let rest = chunks(s.skip(c as int), c);
        chunks_partition(s.skip(c as int), c);
        let all = seq![s.take(c as int)] + rest;
        assert(all.drop_first() == rest);
        assert(flatten(all) == s.take(c as int) + flatten(rest));
        assert(s.take(c as int) + s.skip(c as int) == s);
        assert forall|k: int| 0 <= k < all.len() implies 0 < #[trigger] all[k].len() <= c by {
            if k > 0 {
                assert(all[k] == rest[k - 1]);
            }
        }
        assert forall|k: int| 0 <= k < all.len() - 1 implies #[trigger] all[k].len() == c by {
            if k > 0 {
                assert(all[k] == rest[k - 1]);
            }
        }
    }
}

/// The rows a grid of `cols` columns lays `items` out in (at least one
/// column, whatever the width allows).
pub fn chunk_rows<T: Copy>(items: &Vec<T>, cols: usize) -> (rows: Vec<Vec<T>>)
    ensures
        rows@.len() == chunks(items@, if cols == 0 { 1nat } else { cols as nat }).len(),
        forall|k: int| 0 <= k < rows@.len()
            ==> #[trigger] rows@[k]@ == chunks(items@, if cols == 0 { 1nat } else { cols as nat })[k],
{
    let c: usize = if cols == 0 { 1 } else { cols };
    let ghost whole = chunks(items@, c as nat);
    let mut rows: Vec<Vec<T>> = Vec::new();
    let mut i: usize = 0;
    assert(items@.skip(0) =~= items@);
    while i < items.len()
        invariant
            c > 0,
            i <= items@.len(),
            whole == chunks(items@, c as nat),
            rows@.len() + chunks(items@.skip(i as int), c as nat).len() == whole.len(),
            forall|k: int| 0 <= k < rows@.len() ==> #[trigger] rows@[k]@ == whole[k],
            forall|k: int| 0 <= k < chunks(items@.skip(i as int), c as nat).len()
                ==> #[trigger] chunks(items@.skip(i as int), c as nat)[k] == whole[rows@.len() + k],
        decreases items.len() - i,
    {
        let rest = Ghost(items@.skip(i as int));
        let end: usize = if items.len() - i <= c { items.len() } else { i + c };
        let mut row: Vec<T> = Vec::new();
        let mut j: usize = i;
        while j < end
            invariant
                i <= j <= end <= items@.len(),
                row@ == items@.subrange(i as int, j as int),
            decreases end - j,
        {
            row.push(items[j]);
            j = j + 1;
            assert(items@.subrange(i as int, j as int) == items@.subrange(i as int, j - 1).push(items@[j - 1]));
        }
        proof {
            let ch = chunks(rest@, c as nat);
            assert(rest@.len() > 0);
            if rest@.len() <= c {
                assert(ch == seq![rest@]);
                assert(row@ =~= rest@);
                assert(items@.skip(end as int) =~= Seq::<T>::empty());
                assert(chunks(items@.skip(end as int), c as nat) == Seq::<Seq<T>>::empty());
            } else {
                assert(ch == seq![rest@.take(c as int)] + chunks(rest@.skip(c as int), c as nat));
                assert(row@ =~= rest@.take(c as int));
                assert(rest@.skip(c as int) =~= items@.skip(end as int));
            }
            assert(ch[0] == whole[rows@.len() as int]);
            assert forall|k: int| 0 <= k < chunks(items@.skip(end as int), c as nat).len()
                implies #[trigger] chunks(items@.skip(end as int), c as nat)[k] == whole[rows@.len() + 1 + k] by {
                assert(chunks(items@.skip(end as int), c as nat)[k] == ch[k + 1]);
            }
        }
        rows.push(row);
        i = end;
    }
    proof {
        assert(items@.skip(i as int) =~= Seq::<T>::empty());
    }
    rows
}

} // verus!
