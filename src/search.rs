use vstd::prelude::*;
use crate::record::{EmojiRecord, RecordView, views};
use crate::version::UnicodeVersion;

verus! {

broadcast use vstd::seq_lib::group_seq_properties;

/// `needle` occurs in `hay` as a contiguous run of characters.
pub open spec fn has_substring(hay: Seq<char>, needle: Seq<char>) -> bool {
    exists|i: int|
        0 <= i && i + needle.len() <= hay.len() && #[trigger] hay.subrange(i, i + needle.len())
            == needle
}

/// A record that a catalog limited to versions before `max_version` keeps.
pub open spec fn is_supported(r: RecordView, max_version: UnicodeVersion) -> bool {
    r.unicode_version.precedes(max_version)
}

/// A record whose name contains `query`.
pub open spec fn name_matches(r: RecordView, query: Seq<char>) -> bool {
    has_substring(r.name, query)
}

/// The test that `supported` applies to each record.
pub open spec fn supported_pred(max_version: UnicodeVersion) -> spec_fn(RecordView) -> bool {
    |r: RecordView| is_supported(r, max_version)
}

/// The test that `matches` applies to each record.
pub open spec fn matches_pred(query: Seq<char>) -> spec_fn(RecordView) -> bool {
    |r: RecordView| name_matches(r, query)
}

/// The records before `max_version`, in catalog order.
pub open spec fn supported_spec(s: Seq<RecordView>, max_version: UnicodeVersion) -> Seq<RecordView> {
    s.filter(supported_pred(max_version))
}

/// The records whose name contains `query`, in catalog order.
pub open spec fn matches_spec(s: Seq<RecordView>, query: Seq<char>) -> Seq<RecordView> {
    s.filter(matches_pred(query))
}

/// Relies on `str::contains` with a `&str` pattern: true exactly when `needle`
/// occurs in `hay` as a contiguous substring.
#[verifier::external_body]
fn str_contains(hay: &str, needle: &str) -> (r: bool)
    ensures
        r == has_substring(hay@, needle@),
{
    hay.contains(needle)
}

/// Keeps the records whose Unicode version comes strictly before `max_version`.
pub fn supported(records: &Vec<EmojiRecord>, max_version: UnicodeVersion) -> (r: Vec<EmojiRecord>)
    ensures
        views(r@) == supported_spec(views(records@), max_version),
{
    let ghost pred = supported_pred(max_version);
    let mut out: Vec<EmojiRecord> = Vec::new();
    let mut i: usize = 0;
    while i < records.len()
        invariant
            i <= records.len(),
            pred == supported_pred(max_version),
            views(out@) == views(records@).take(i as int).filter(pred),
        decreases records.len() - i,
    {
        proof {
            assert(views(records@).take(i + 1) =~= views(records@).take(i as int).push(
                records@[i as int]@,
            ));
            views(records@).take(i as int).lemma_filter_push(records@[i as int]@, pred);
        }
        if records[i].unicode_version.is_before(&max_version) {
            let ghost before = out@;
            let rec = records[i].clone();
            out.push(rec);
            assert(views(out@) =~= views(before).push(rec@));
        }
        i = i + 1;
    }
    assert(views(records@).take(records.len() as int) =~= views(records@));
    out
}

/// Keeps the records whose name contains `query`, case-sensitively; an empty
/// query keeps every record.
pub fn matches(records: &Vec<EmojiRecord>, query: &str) -> (r: Vec<EmojiRecord>)
    ensures
        views(r@) == matches_spec(views(records@), query@),
{
    let ghost pred = matches_pred(query@);
    let mut out: Vec<EmojiRecord> = Vec::new();
    let mut i: usize = 0;
    while i < records.len()
        invariant
            i <= records.len(),
            pred == matches_pred(query@),
            views(out@) == views(records@).take(i as int).filter(pred),
        decreases records.len() - i,
    {
        proof {
            assert(views(records@).take(i + 1) =~= views(records@).take(i as int).push(
                records@[i as int]@,
            ));
            views(records@).take(i as int).lemma_filter_push(records@[i as int]@, pred);
        }
        if str_contains(records[i].name.as_str(), query) {
            let ghost before = out@;
            let rec = records[i].clone();
            out.push(rec);
            assert(views(out@) =~= views(before).push(rec@));
        }
        i = i + 1;
    }
    assert(views(records@).take(records.len() as int) =~= views(records@));
    out
}

/// Every record that a search returns comes from the searched records, and its
/// name contains the query.
pub proof fn lemma_matches_sound(catalog: Seq<RecordView>, query: Seq<char>)
    ensures
        forall|i: int|
            0 <= i < matches_spec(catalog, query).len() ==> {
                let m = #[trigger] matches_spec(catalog, query)[i];
                catalog.contains(m) && has_substring(m.name, query)
            },
{
    let found = matches_spec(catalog, query);
    assert forall|i: int| 0 <= i < found.len() implies {
        let m = #[trigger] found[i];
        catalog.contains(m) && has_substring(m.name, query)
    } by {
        catalog.lemma_filter_pred(matches_pred(query), i);
        assert(found.contains(found[i]));
        catalog.lemma_filter_contains_rev(matches_pred(query), found[i]);
    }
}

/// Every name contains the empty query.
pub proof fn lemma_empty_substring(hay: Seq<char>)
    ensures
        has_substring(hay, Seq::<char>::empty()),
{
    let e = Seq::<char>::empty();
    assert(hay.subrange(0, 0 + e.len() as int) =~= e);
}

/// A search for the empty query returns every record, in the same order.
pub proof fn lemma_empty_query_keeps_all(catalog: Seq<RecordView>)
    ensures
        matches_spec(catalog, Seq::<char>::empty()) == catalog,
    decreases catalog.len(),
{
    let pred = matches_pred(Seq::<char>::empty());
    if catalog.len() > 0 {
        let rest = catalog.drop_last();
        lemma_empty_query_keeps_all(rest);
        lemma_empty_substring(catalog.last().name);
        rest.lemma_filter_push(catalog.last(), pred);
        assert(rest.push(catalog.last()) =~= catalog);
    } else {
        reveal(Seq::filter);
    }
}

} // verus!
