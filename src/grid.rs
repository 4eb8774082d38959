use vstd::prelude::*;
use vstd::arithmetic::div_mod::{lemma_mod_sub_multiples_vanish, lemma_small_mod};
use crate::error::PickerError;
use crate::record::{EmojiRecord, RecordView, views};

verus! {

broadcast use vstd::seq_lib::group_seq_properties;

/// `s` cut, in order, into rows of `width` items; the last row holds what is
/// left over. No rows for an empty `s`, nor for a width of zero.
pub open spec fn chunks_spec<A>(s: Seq<A>, width: nat) -> Seq<Seq<A>>
    decreases s.len(),
{
    if width == 0 || s.len() == 0 {
        Seq::empty()
    } else if s.len() <= width {
        seq![s]
    } else {
        seq![s.take(width as int)] + chunks_spec(s.skip(width as int), width)
    }
}

/// The views of a sequence of rows.
pub open spec fn row_views(rows: Seq<Vec<EmojiRecord>>) -> Seq<Seq<RecordView>> {
    rows.map_values(|row: Vec<EmojiRecord>| views(row@))
}

/// Copies `records[start..end]` into a new row.
fn copy_row(records: &Vec<EmojiRecord>, start: usize, end: usize) -> (row: Vec<EmojiRecord>)
    requires
        start <= end <= records.len(),
    ensures
        views(row@) == views(records@).subrange(start as int, end as int),
{
    let mut row: Vec<EmojiRecord> = Vec::new();
    let mut j: usize = start;
    while j < end
        invariant
            start <= j <= end <= records.len(),
            views(row@) =~= views(records@).subrange(start as int, j as int),
        decreases end - j,
    {
        let ghost before = row@;
        let rec = records[j].clone();
        row.push(rec);
        assert(views(row@) =~= views(before).push(rec@));
        j = j + 1;
    }
    row
}

/// Cuts `records` into rows of `width` records each, in order; the last row
/// holds the remainder. An empty input gives no rows; a width of zero is a
/// configuration error.
pub fn chunk(records: &Vec<EmojiRecord>, width: usize) -> (r: Result<
    Vec<Vec<EmojiRecord>>,
    PickerError,
>)
    ensures
        width == 0 <==> r == Err::<Vec<Vec<EmojiRecord>>, PickerError>(
            PickerError::ConfigurationError,
        ),
        width > 0 ==> r is Ok,
        r matches Ok(rows) ==> row_views(rows@) == chunks_spec(views(records@), width as nat),
{
    if width == 0 {
        return Err(PickerError::ConfigurationError);
    }
    let ghost all = views(records@);
    let n = records.len();
    let mut rows: Vec<Vec<EmojiRecord>> = Vec::new();
    let mut start: usize = 0;
    while start < n
        invariant
            n == records.len(),
            all == views(records@),
            width > 0,
            start <= n,
            row_views(rows@) + chunks_spec(all.skip(start as int), width as nat) == chunks_spec(
                all,
                width as nat,
            ),
        decreases n - start,
    {
        let end: usize = if n - start <= width {
            n
        } else {
            start + width
        };
        let row = copy_row(records, start, end);
        proof {
            let rest = all.skip(start as int);
            if end < n {
                assert(rest.take(width as int) =~= all.subrange(start as int, end as int));
                assert(rest.skip(width as int) =~= all.skip(end as int));
            } else {
                assert(rest =~= all.subrange(start as int, end as int));
                assert(all.skip(end as int) =~= Seq::<RecordView>::empty());
            }
            assert(row_views(rows@.push(row)) =~= row_views(rows@).push(views(row@)));
            assert(row_views(rows@).push(views(row@)) + chunks_spec(all.skip(end as int), width as nat)
                =~= row_views(rows@) + chunks_spec(rest, width as nat));
        }
        rows.push(row);
        start = end;
    }
    assert(all.skip(n as int) =~= Seq::<RecordView>::empty());
    assert(row_views(rows@) + Seq::<Seq<RecordView>>::empty() =~= row_views(rows@));
    Ok(rows)
}

/// The size of the last row when `n` items are cut into rows of `width`.
pub open spec fn last_row_len(n: nat, width: nat) -> nat {
    if n % width == 0 {
        width
    } else {
        n % width
    }
}

/// Cutting a non-empty sequence into rows loses, adds and reorders nothing:
/// the rows joined back together give the sequence again. Every row but the
/// last holds exactly `width` items, and the last holds the remainder of the
/// length by `width`, or `width` when that remainder is zero.
pub proof fn lemma_chunks_rejoin<A>(s: Seq<A>, width: nat)
    requires
        s.len() > 0,
        width >= 1,
    ensures
        chunks_spec(s, width).len() > 0,
        chunks_spec(s, width).flatten() == s,
        forall|i: int|
            0 <= i < chunks_spec(s, width).len() - 1 ==> (#[trigger] chunks_spec(s, width)[i]).len()
                == width,
        chunks_spec(s, width).last().len() == last_row_len(s.len(), width),
    decreases s.len(),
{
    let rows = chunks_spec(s, width);
    if s.len() <= width {
        assert(rows.drop_first() =~= Seq::<Seq<A>>::empty());
        assert(rows.drop_first().flatten() =~= Seq::<A>::empty());
        assert(s + Seq::<A>::empty() =~= s);
        assert(rows.flatten() == s);
        if s.len() < width {
            lemma_small_mod(s.len(), width);
        } else {
            lemma_mod_sub_multiples_vanish(width as int, width as int);
            lemma_small_mod(0, width);
        }
    } else {
        let head = s.take(width as int);
        let rest = s.skip(width as int);
        lemma_chunks_rejoin(rest, width);
        let tail = chunks_spec(rest, width);
        assert(rows.first() == head);
        assert(rows.drop_first() =~= tail);
        assert(head + rest =~= s);
        assert(rows.flatten() == head + tail.flatten());
        assert forall|i: int| 0 <= i < rows.len() - 1 implies (#[trigger] rows[i]).len() == width by {
            if i > 0 {
                assert(rows[i] == tail[i - 1]);
            }
        }
        assert(rows.last() == tail.last());
        lemma_mod_sub_multiples_vanish(s.len() as int, width as int);
    }
}

/// An empty sequence is cut into no rows at all, whatever the width.
pub proof fn lemma_chunks_empty<A>(width: nat)
    ensures
        chunks_spec(Seq::<A>::empty(), width) == Seq::<Seq<A>>::empty(),
{
}

} // verus!
