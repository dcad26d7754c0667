//! Scan records: what a scan reports of each reclaimable unit it found.
use vstd::prelude::*;
use crate::text::string_views;

verus! {

/// One reclaimable unit that a scan found: where it is, how large it was when
/// measured, which scan found it, and whether it may be deleted.
#[derive(Debug, PartialEq, Eq)]
pub struct ScanResult {
    pub path: String,
    pub size: u64,
    pub file_type: String,
    pub can_delete: bool,
}

/// The value of a scan record.
pub struct RecordView {
    pub path: Seq<char>,
    pub size: u64,
    pub file_type: Seq<char>,
    pub can_delete: bool,
}

impl View for ScanResult {
    type V = RecordView;

    open spec fn view(&self) -> RecordView {
        RecordView {
            path: self.path@,
            size: self.size,
            file_type: self.file_type@,
            can_delete: self.can_delete,
        }
    }
}

/// The deletable record of `path`, of `size` bytes, found by the scan tagged `tag`.
pub open spec fn record(path: Seq<char>, size: u64, tag: Seq<char>) -> RecordView {
    RecordView { path, size, file_type: tag, can_delete: true }
}

pub open spec fn record_views(v: Seq<ScanResult>) -> Seq<RecordView> {
    v.map_values(|r: ScanResult| r@)
}

/// A deletable record.
pub fn make_record(path: String, size: u64, tag: &str) -> (r: ScanResult)
    ensures
        r@ == record(path@, size, tag@),
{
    ScanResult { path, size, file_type: tag.to_owned(), can_delete: true }
}

/// The records of the candidates that could be measured, in order: candidate `i`
/// is `paths[i]`, and `sizes[i]` is its size, or `None` where it is absent or
/// could not be measured.
pub open spec fn measured_records(
    paths: Seq<Seq<char>>,
    sizes: Seq<Option<u64>>,
    tag: Seq<char>,
) -> Seq<RecordView>
    decreases sizes.len(),
{
    if sizes.len() == 0 {
        seq![]
    } else {
        let before = measured_records(paths.drop_last(), sizes.drop_last(), tag);
        match sizes.last() {
            Some(n) => before.push(record(paths.last(), n, tag)),
            None => before,
        }
    }
}

/// One record for each candidate that was measured, tagged `tag`, in the order of
/// the candidates.
pub fn collect_records(tag: &str, paths: &Vec<String>, sizes: &Vec<Option<u64>>) -> (r: Vec<
    ScanResult,
>)
    requires
        paths.len() == sizes.len(),
    ensures
        record_views(r@) == measured_records(string_views(paths@), sizes@, tag@),
{
    let mut out: Vec<ScanResult> = Vec::new();
    let mut i: usize = 0;
    let ghost ps = string_views(paths@);
    assert(ps.take(0) =~= Seq::<Seq<char>>::empty());
    assert(sizes@.take(0) =~= Seq::<Option<u64>>::empty());
    while i < sizes.len()
        invariant
            i <= sizes.len() == paths.len(),
            ps == string_views(paths@),
            record_views(out@) == measured_records(
                ps.take(i as int),
                sizes@.take(i as int),
                tag@,
            ),
        decreases sizes.len() - i,
    {
        assert(ps.take(i + 1).drop_last() =~= ps.take(i as int));
        assert(sizes@.take(i + 1).drop_last() =~= sizes@.take(i as int));
        assert(ps.take(i + 1).last() == paths@[i as int]@);
        match sizes[i] {
            Some(n) => {
                let rec = make_record(paths[i].clone(), n, tag);
                out.push(rec);
                assert(record_views(out@) =~= measured_records(
                    ps.take(i as int),
                    sizes@.take(i as int),
                    tag@,
                ).push(record(paths@[i as int]@, n, tag@)));
            },
            None => {},
        }
        i = i + 1;
    }
    assert(ps.take(i as int) =~= ps);
    assert(sizes@.take(i as int) =~= sizes@);
    out
}

/// Where no candidate could be measured, a scan reports nothing.
pub proof fn lemma_nothing_measured_nothing_reported(
    paths: Seq<Seq<char>>,
    sizes: Seq<Option<u64>>,
    tag: Seq<char>,
)
    requires
        forall|i: int| 0 <= i < sizes.len() ==> #[trigger] sizes[i] is None,
    ensures
        measured_records(paths, sizes, tag) == Seq::<RecordView>::empty(),
    decreases sizes.len(),
{
    if sizes.len() > 0 {
        let s = sizes.drop_last();
        assert forall|i: int| 0 <= i < s.len() implies #[trigger] s[i] is None by {
            assert(s[i] == sizes[i]);
        }
        assert(sizes[sizes.len() - 1] is None);
        lemma_nothing_measured_nothing_reported(paths.drop_last(), s, tag);
    }
}

} // verus!
