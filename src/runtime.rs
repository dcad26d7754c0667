//! Reading what the container runtime lists (stopped containers, dangling images,
//! unused volumes, and the build cache of its usage report) as scan records with
//! locators of the form `docker://<kind>/<id>`.
use vstd::prelude::*;
use crate::records::{make_record, record, record_views, RecordView, ScanResult};
use crate::size::{
    docker_size, parse_docker_volume_size, size_of_chars, volume_reclaimable,
};
use crate::text::{
    chars_of, concat, lines, lines_of, option_view, same_chars, split, split_chars, string_from,
    string_views, trim,
    trim_chars, views,
};

verus! {

/// The size given to each unused volume when the usage report gives none.
pub const FALLBACK_VOLUME_SIZE: u64 = 1048576;

/// The record of one row of a comma-separated listing whose first field is an id
/// and whose field `size_field` is a size; none where the row has fewer than
/// `min_fields` fields or its size is not above zero (an unreadable size counts as zero).
pub open spec fn listing_row(
    line: Seq<char>,
    min_fields: nat,
    size_field: int,
    prefix: Seq<char>,
    tag: Seq<char>,
) -> Option<RecordView> {
    let parts = split(line, ',');
    if parts.len() >= min_fields {
        let size = match docker_size(parts[size_field]) {
            Some(n) => n,
            None => 0,
        };
        if size > 0 {
            Some(record(prefix + parts[0], size, tag))
        } else {
            None
        }
    } else {
        None
    }
}

/// The records of the rows of a listing, in order.
pub open spec fn listing_records(
    rows: Seq<Seq<char>>,
    min_fields: nat,
    size_field: int,
    prefix: Seq<char>,
    tag: Seq<char>,
) -> Seq<RecordView>
    decreases rows.len(),
{
    if rows.len() == 0 {
        seq![]
    } else {
        let before = listing_records(rows.drop_last(), min_fields, size_field, prefix, tag);
        match listing_row(rows.last(), min_fields, size_field, prefix, tag) {
            Some(r) => before.push(r),
            None => before,
        }
    }
}

/// Records of stopped containers from a listing of `id,name,size` rows.
pub open spec fn container_listing(listing: Seq<char>) -> Seq<RecordView> {
    listing_records(lines(listing), 3, 2, "docker://container/"@, "docker_container"@)
}

/// Records of dangling images from a listing of `id,size` rows.
pub open spec fn image_listing(listing: Seq<char>) -> Seq<RecordView> {
    listing_records(lines(listing), 2, 1, "docker://image/"@, "docker_image"@)
}

fn listing_scan(listing: &str, min_fields: usize, size_field: usize, prefix: &str, tag: &str) -> (r:
    Vec<ScanResult>)
    requires
        size_field < min_fields,
    ensures
        record_views(r@) == listing_records(
            lines(listing@),
            min_fields as nat,
            size_field as int,
            prefix@,
            tag@,
        ),
{
    let rows = lines_of(&chars_of(listing));
    let ghost all = lines(listing@);
    let mut out: Vec<ScanResult> = Vec::new();
    let mut i: usize = 0;
    assert(all.take(0) =~= Seq::<Seq<char>>::empty());
    while i < rows.len()
        invariant
            i <= rows.len(),
            size_field < min_fields,
            views(rows@) == all,
            all == lines(listing@),
            record_views(out@) == listing_records(
                all.take(i as int),
                min_fields as nat,
                size_field as int,
                prefix@,
                tag@,
            ),
        decreases rows.len() - i,
    {
        assert(all.len() == rows.len());
        assert(all.take(i + 1).drop_last() =~= all.take(i as int));
        assert(all.take(i + 1).last() == rows@[i as int]@);
        let parts = split_chars(&rows[i], ',');
        let ghost line = rows@[i as int]@;
        assert(views(parts@) == split(line, ','));
        if parts.len() >= min_fields {
            let size = match size_of_chars(&parts[size_field]) {
                Some(n) => n,
                None => 0,
            };
            if size > 0 {
                let id = string_from(&parts[0]);
                let rec = make_record(concat(prefix, id.as_str()), size, tag);
                out.push(rec);
                assert(record_views(out@) =~= listing_records(
                    all.take(i as int),
                    min_fields as nat,
                    size_field as int,
                    prefix@,
                    tag@,
                ).push(record(prefix@ + split(line, ',')[0], size, tag@)));
            }
        }
        i = i + 1;
    }
    assert(all.take(i as int) =~= all);
    out
}

/// The stopped containers of a listing of `id,name,size` rows, one record each
/// for those whose size is above zero.
pub fn container_records(listing: &str) -> (r: Vec<ScanResult>)
    ensures
        record_views(r@) == container_listing(listing@),
{
    listing_scan(listing, 3, 2, "docker://container/", "docker_container")
}

/// The dangling images of a listing of `id,size` rows, one record each for those
/// whose size is above zero.
pub fn image_records(listing: &str) -> (r: Vec<ScanResult>)
    ensures
        record_views(r@) == image_listing(listing@),
{
    listing_scan(listing, 2, 1, "docker://image/", "docker_image")
}

/// The names of a volume listing: each line trimmed, blank lines left out.
pub open spec fn volume_name_list(rows: Seq<Seq<char>>) -> Seq<Seq<char>>
    decreases rows.len(),
{
    if rows.len() == 0 {
        seq![]
    } else {
        let before = volume_name_list(rows.drop_last());
        let name = trim(rows.last());
        if name.len() > 0 {
            before.push(name)
        } else {
            before
        }
    }
}

/// The volume names of a listing with one name per line.
pub fn volume_names(listing: &str) -> (r: Vec<String>)
    ensures
        string_views(r@) == volume_name_list(lines(listing@)),
{
    let rows = lines_of(&chars_of(listing));
    let ghost all = lines(listing@);
    let mut out: Vec<String> = Vec::new();
    let mut i: usize = 0;
    assert(all.take(0) =~= Seq::<Seq<char>>::empty());
    while i < rows.len()
        invariant
            i <= rows.len(),
            views(rows@) == all,
            all == lines(listing@),
            string_views(out@) == volume_name_list(all.take(i as int)),
        decreases rows.len() - i,
    {
        assert(all.len() == rows.len());
        assert(all.take(i + 1).drop_last() =~= all.take(i as int));
        assert(all.take(i + 1).last() == rows@[i as int]@);
        let name = trim_chars(&rows[i]);
        if name.len() > 0 {
            out.push(string_from(&name));
            assert(string_views(out@) =~= volume_name_list(all.take(i as int)).push(name@));
        }
        i = i + 1;
    }
    assert(all.take(i as int) =~= all);
    out
}

/// The size attributed to each unused volume: the reclaimable size of local
/// volumes in the usage report, where there is a report and it gives one, else
/// the fallback.
pub open spec fn volume_size_estimate(report: Option<Seq<char>>) -> u64 {
    match report {
        Some(text) => match volume_reclaimable(text) {
            Some(n) => n,
            None => FALLBACK_VOLUME_SIZE,
        },
        None => FALLBACK_VOLUME_SIZE,
    }
}

/// The size attributed to each unused volume, from the usage report if there is one.
pub fn volume_size(report: Option<&str>) -> (r: u64)
    ensures
        r == volume_size_estimate(option_view(report)),
{
    match report {
        Some(text) => match parse_docker_volume_size(text) {
            Some(n) => n,
            None => FALLBACK_VOLUME_SIZE,
        },
        None => FALLBACK_VOLUME_SIZE,
    }
}

/// The record of the unused volume `name`, of `size` bytes.
pub open spec fn volume_record(name: Seq<char>, size: u64) -> RecordView {
    record("docker://volume/"@ + name, size, "docker_volume"@)
}

/// The records of the unused volumes `names`, each of `size` bytes.
pub open spec fn volume_list_records(names: Seq<Seq<char>>, size: u64) -> Seq<RecordView> {
    Seq::new(names.len(), |i: int| volume_record(names[i], size))
}

/// One record per unused volume, each given the same size.
pub fn volume_records(names: &Vec<String>, size: u64) -> (r: Vec<ScanResult>)
    ensures
        record_views(r@) == volume_list_records(string_views(names@), size),
{
    let mut out: Vec<ScanResult> = Vec::new();
    let mut i: usize = 0;
    while i < names.len()
        invariant
            i <= names.len(),
            record_views(out@) == volume_list_records(string_views(names@).take(i as int), size),
        decreases names.len() - i,
    {
        let rec = make_record(concat("docker://volume/", names[i].as_str()), size, "docker_volume");
        assert(rec@ == volume_record(names@[i as int]@, size));
        assert(string_views(names@).take(i + 1) =~= string_views(names@).take(i as int).push(
            names@[i as int]@,
        ));
        let ghost before = out@;
        out.push(rec);
        assert(record_views(out@) =~= record_views(before).push(rec@));
        assert(record_views(out@) =~= volume_list_records(string_views(names@).take(i + 1), size));
        i = i + 1;
    }
    assert(string_views(names@).take(i as int) =~= string_views(names@));
    out
}

/// The reclaimable size that a report row gives for `label`: where the row has at
/// least four tab-separated fields, its first field (trimmed) is `label`, and its
/// fourth field (trimmed) reads as a size above zero.
pub open spec fn reclaimable_in_row(row: Seq<char>, label: Seq<char>) -> Option<u64> {
    let fields = split(row, '\t');
    if fields.len() >= 4 && trim(fields[0]) == label {
        match docker_size(trim(fields[3])) {
            Some(n) => if n > 0 {
                Some(n)
            } else {
                None
            },
            None => None,
        }
    } else {
        None
    }
}

/// The reclaimable size of the first row that gives one for `label`.
pub open spec fn first_reclaimable(rows: Seq<Seq<char>>, label: Seq<char>) -> Option<u64>
    decreases rows.len(),
{
    if rows.len() == 0 {
        None
    } else {
        match reclaimable_in_row(rows[0], label) {
            Some(n) => Some(n),
            None => first_reclaimable(rows.drop_first(), label),
        }
    }
}

/// The build-cache record of a tab-separated usage report: one, where some row
/// labelled "Build Cache" gives a reclaimable size above zero, with the size of
/// the first such row; none otherwise.
pub open spec fn build_cache_listing(report: Seq<char>) -> Seq<RecordView> {
    match first_reclaimable(lines(report), "Build Cache"@) {
        Some(n) => seq![record("docker://cache/build"@, n, "docker_cache"@)],
        None => seq![],
    }
}

/// The reclaimable size of the first row of `report` that gives one for `label`.
fn first_reclaimable_size(report: &str, label: &str) -> (r: Option<u64>)
    ensures
        r == first_reclaimable(lines(report@), label@),
{
    let rows = lines_of(&chars_of(report));
    let ghost all = lines(report@);
    let mut i: usize = 0;
    assert(all.skip(0) =~= all);
    while i < rows.len()
        invariant
            i <= rows.len(),
            views(rows@) == all,
            all == lines(report@),
            first_reclaimable(all, label@) == first_reclaimable(all.skip(i as int), label@),
        decreases rows.len() - i,
    {
        let ghost rest = all.skip(i as int);
        assert(all.len() == rows.len());
        assert(rest.len() > 0);
        assert(rest[0] == rows@[i as int]@);
        assert(rest.drop_first() =~= all.skip(i + 1));
        let fields = split_chars(&rows[i], '\t');
        assert(views(fields@) == split(rest[0], '\t'));
        if fields.len() >= 4 {
            let first = trim_chars(&fields[0]);
            assert(first@ == trim(split(rest[0], '\t')[0]));
            if same_chars(&first, label) {
                let cell = trim_chars(&fields[3]);
                assert(cell@ == trim(split(rest[0], '\t')[3]));
                match size_of_chars(&cell) {
                    Some(n) => {
                        if n > 0 {
                            return Some(n);
                        }
                    },
                    None => {},
                }
            }
        }
        assert(reclaimable_in_row(rest[0], label@) is None);
        i = i + 1;
    }
    None
}

/// The build-cache record of a usage report, if it reports anything reclaimable.
pub fn build_cache_records(report: &str) -> (r: Vec<ScanResult>)
    ensures
        record_views(r@) == build_cache_listing(report@),
{
    let mut out: Vec<ScanResult> = Vec::new();
    match first_reclaimable_size(report, "Build Cache") {
        Some(n) => {
            out.push(make_record("docker://cache/build".to_owned(), n, "docker_cache"));
            assert(record_views(out@) =~= seq![
                record("docker://cache/build"@, n, "docker_cache"@),
            ]);
        },
        None => {
            assert(record_views(out@) =~= seq![]);
        },
    }
    out
}

} // verus!
