//! Reclamation accounting: what a batch of deletions and removals adds up to.
//!
//! The caller performs each locator's deletion or removal, in order, and reports
//! what happened as an [`ItemReport`]; the outcome of the batch follows from the
//! locators and their reports alone. A failure is recorded as a message and never
//! stops the batch; a locator that no longer exists is skipped silently.
use vstd::prelude::*;
use crate::locator::{decode, decode_locator, removal_args, removal_command, Locator, LocatorView};
use crate::text::{concat, string_views};

verus! {

/// The bytes counted for each container-runtime resource removed: the runtime's
/// removal command does not say how much it freed.
pub const REMOVED_RESOURCE_ESTIMATE: u64 = 10485760;

/// What happened to one locator of a batch.
#[derive(Debug, PartialEq, Eq)]
pub enum ItemReport {
    /// The path no longer existed; it is skipped.
    Missing,
    /// The path was deleted; `measured` is its size beforehand, where it could be measured.
    Deleted { measured: Option<u64> },
    /// The path was measured, but deleting it failed with `cause`.
    NotDeleted { measured: Option<u64>, cause: String },
    /// The runtime removed the resource.
    Removed,
    /// The runtime's removal command ran and failed, printing `stderr`.
    Refused { stderr: String },
    /// The runtime's removal command could not be run, for `cause`.
    Unlaunched { cause: String },
    /// The locator names a runtime resource of an unknown kind.
    UnknownKind { kind: String },
    /// Nothing was attempted.
    Ignored,
}

/// The result of one reclamation batch.
#[derive(Debug, PartialEq, Eq)]
pub struct CleaningResult {
    /// How many locators were deleted or removed.
    pub files_deleted: u32,
    /// The bytes freed: measured sizes for paths, an estimate for runtime resources.
    pub space_freed: u64,
    /// How long the batch took, in milliseconds.
    pub duration: u64,
    /// One message per locator that could not be deleted or removed, in order.
    pub errors: Vec<String>,
}

/// The counts of a batch so far.
pub struct Tally {
    pub files_deleted: u32,
    pub space_freed: u64,
    pub errors: Seq<Seq<char>>,
}

impl CleaningResult {
    pub open spec fn tally(&self) -> Tally {
        Tally {
            files_deleted: self.files_deleted,
            space_freed: self.space_freed,
            errors: string_views(self.errors@),
        }
    }
}

pub open spec fn add_u32(a: u32, b: nat) -> u32 {
    if a + b > u32::MAX {
        u32::MAX
    } else {
        (a + b) as u32
    }
}

pub open spec fn add_u64(a: u64, b: nat) -> u64 {
    if a + b > u64::MAX {
        u64::MAX
    } else {
        (a + b) as u64
    }
}

pub open spec fn measured_bytes(measured: Option<u64>) -> nat {
    match measured {
        Some(n) => n as nat,
        None => 0,
    }
}

/// The failure message of one locator, if its report is a failure.
pub open spec fn failure_message(locator: Seq<char>, report: ItemReport) -> Option<Seq<char>> {
    match report {
        ItemReport::NotDeleted { cause, .. } => Some(
            "Failed to delete "@ + locator + ": "@ + cause@,
        ),
        ItemReport::Refused { stderr } => Some("Failed to remove "@ + locator + ": "@ + stderr@),
        ItemReport::Unlaunched { cause } => Some(
            "Failed to execute Docker command for "@ + locator + ": "@ + cause@,
        ),
        ItemReport::UnknownKind { kind } => Some("Unknown Docker resource type: "@ + kind@),
        _ => None,
    }
}

/// Whether the report says the locator was deleted or removed.
pub open spec fn reclaimed(report: ItemReport) -> bool {
    report is Deleted || report is Removed
}

/// The bytes that a report adds to the batch: a path's measured size, whether or
/// not its deletion then succeeded, or the estimate for a removed resource.
pub open spec fn freed_bytes(report: ItemReport) -> nat {
    match report {
        ItemReport::Deleted { measured } => measured_bytes(measured),
        ItemReport::NotDeleted { measured, .. } => measured_bytes(measured),
        ItemReport::Removed => REMOVED_RESOURCE_ESTIMATE as nat,
        _ => 0,
    }
}

/// The counts after one more locator; the counters saturate.
pub open spec fn apply(t: Tally, locator: Seq<char>, report: ItemReport) -> Tally {
    Tally {
        files_deleted: add_u32(
            t.files_deleted,
            if reclaimed(report) {
                1
            } else {
                0
            },
        ),
        space_freed: add_u64(t.space_freed, freed_bytes(report)),
        errors: match failure_message(locator, report) {
            Some(m) => t.errors.push(m),
            None => t.errors,
        },
    }
}

pub open spec fn empty_tally() -> Tally {
    Tally { files_deleted: 0, space_freed: 0, errors: seq![] }
}

/// The counts of a batch whose locator `i` had report `reports[i]`.
pub open spec fn tally_of(locators: Seq<Seq<char>>, reports: Seq<ItemReport>) -> Tally
    decreases reports.len(),
{
    if reports.len() == 0 {
        empty_tally()
    } else {
        apply(
            tally_of(locators.drop_last(), reports.drop_last()),
            locators.last(),
            reports.last(),
        )
    }
}

impl CleaningResult {
    /// The result of a batch before any locator.
    pub fn new() -> (r: CleaningResult)
        ensures
            r.tally() == empty_tally(),
            r.duration == 0,
    {
        let r = CleaningResult { files_deleted: 0, space_freed: 0, duration: 0, errors: Vec::new() };
        assert(r.tally().errors =~= Seq::<Seq<char>>::empty());
        r
    }

    /// Adds what happened to `locator` to the counts.
    pub fn record(&mut self, locator: &str, report: &ItemReport)
        ensures
            final(self).tally() == apply(old(self).tally(), locator@, *report),
            final(self).duration == old(self).duration,
    {
        let ghost before = self.tally();
        let mut freed: u64 = 0;
        let mut counted = false;
        match report {
            ItemReport::Missing => {},
            ItemReport::Deleted { measured } => {
                counted = true;
                if let Some(n) = measured {
                    freed = *n;
                }
            },
            ItemReport::NotDeleted { measured, cause } => {
                if let Some(n) = measured {
                    freed = *n;
                }
                let m = concat(concat(concat("Failed to delete ", locator).as_str(), ": ").as_str(), cause.as_str());
                self.errors.push(m);
            },
            ItemReport::Removed => {
                counted = true;
                freed = REMOVED_RESOURCE_ESTIMATE;
            },
            ItemReport::Refused { stderr } => {
                let m = concat(concat(concat("Failed to remove ", locator).as_str(), ": ").as_str(), stderr.as_str());
                self.errors.push(m);
            },
            ItemReport::Unlaunched { cause } => {
                let m = concat(
                    concat(concat("Failed to execute Docker command for ", locator).as_str(), ": ").as_str(),
                    cause.as_str(),
                );
                self.errors.push(m);
            },
            ItemReport::UnknownKind { kind } => {
                let m = concat("Unknown Docker resource type: ", kind.as_str());
                self.errors.push(m);
            },
            ItemReport::Ignored => {},
        }
        if counted {
            self.files_deleted = self.files_deleted.saturating_add(1);
        }
        self.space_freed = self.space_freed.saturating_add(freed);
        assert(self.tally().errors =~= apply(before, locator@, *report).errors);
    }
}

/// The result of a batch: locator `i` had report `reports[i]`, and the batch took
/// `duration` milliseconds.
pub fn reclaim_outcome(locators: &Vec<String>, reports: &Vec<ItemReport>, duration: u64) -> (r:
    CleaningResult)
    requires
        locators.len() == reports.len(),
    ensures
        r.tally() == tally_of(string_views(locators@), reports@),
        r.duration == duration,
{
    let mut out = CleaningResult::new();
    let ghost ls = string_views(locators@);
    let mut i: usize = 0;
    assert(ls.take(0) =~= Seq::<Seq<char>>::empty());
    assert(reports@.take(0) =~= Seq::<ItemReport>::empty());
    while i < reports.len()
        invariant
            i <= reports.len() == locators.len(),
            ls == string_views(locators@),
            out.tally() == tally_of(ls.take(i as int), reports@.take(i as int)),
            out.duration == 0,
        decreases reports.len() - i,
    {
        assert(ls.take(i + 1).drop_last() =~= ls.take(i as int));
        assert(reports@.take(i + 1).drop_last() =~= reports@.take(i as int));
        assert(ls.take(i + 1).last() == locators@[i as int]@);
        out.record(locators[i].as_str(), &reports[i]);
        i = i + 1;
    }
    assert(ls.take(i as int) =~= ls);
    assert(reports@.take(i as int) =~= reports@);
    out.duration = duration;
    out
}

/// Every locator counts at most once: as reclaimed, or as a failure, or not at all.
pub proof fn lemma_outcome_bounded(locators: Seq<Seq<char>>, reports: Seq<ItemReport>)
    ensures
        tally_of(locators, reports).files_deleted + tally_of(locators, reports).errors.len()
            <= reports.len(),
    decreases reports.len(),
{
    if reports.len() > 0 {
        lemma_outcome_bounded(locators.drop_last(), reports.drop_last());
    }
}

/// In a batch of three paths where the second no longer exists and the others are
/// deleted, two are reclaimed, nothing fails, and the bytes freed are the sizes of
/// the first and the third.
pub proof fn lemma_missing_path_skipped(
    first: Seq<char>,
    second: Seq<char>,
    third: Seq<char>,
    a: u64,
    b: u64,
)
    ensures
        ({
            let t = tally_of(
                seq![first, second, third],
                seq![
                    ItemReport::Deleted { measured: Some(a) },
                    ItemReport::Missing,
                    ItemReport::Deleted { measured: Some(b) },
                ],
            );
            &&& t.files_deleted == 2
            &&& t.errors.len() == 0
            &&& t.space_freed == add_u64(0, (a + b) as nat)
            &&& a + b <= u64::MAX ==> t.space_freed == a + b
        }),
{
    let d1 = ItemReport::Deleted { measured: Some(a) };
    let d3 = ItemReport::Deleted { measured: Some(b) };
    let ls = seq![first, second, third];
    let rs = seq![d1, ItemReport::Missing, d3];
    assert(ls.drop_last() =~= seq![first, second]);
    assert(rs.drop_last() =~= seq![d1, ItemReport::Missing]);
    assert(seq![first, second].drop_last() =~= seq![first]);
    assert(seq![d1, ItemReport::Missing].drop_last() =~= seq![d1]);
    assert(seq![first].drop_last() =~= Seq::<Seq<char>>::empty());
    assert(seq![d1].drop_last() =~= Seq::<ItemReport>::empty());
    let t0 = tally_of(Seq::<Seq<char>>::empty(), Seq::<ItemReport>::empty());
    assert(t0 == empty_tally());
    let t1 = tally_of(seq![first], seq![d1]);
    assert(t1 == apply(t0, first, d1));
    let t2 = tally_of(seq![first, second], seq![d1, ItemReport::Missing]);
    assert(t2 == apply(t1, second, ItemReport::Missing));
    assert(tally_of(ls, rs) == apply(t2, third, d3));
    assert(t1.files_deleted == 1 && t1.space_freed == a);
    assert(t2.files_deleted == 1 && t2.space_freed == a);
    assert(t2.errors =~= Seq::<Seq<char>>::empty());
}

/// A single locator whose deletion fails is not reclaimed, and the batch records
/// exactly one failure, which names it.
pub proof fn lemma_failed_deletion_named(
    locator: Seq<char>,
    measured: Option<u64>,
    cause: String,
)
    ensures
        ({
            let t = tally_of(seq![locator], seq![ItemReport::NotDeleted { measured, cause }]);
            &&& t.files_deleted == 0
            &&& t.errors == seq!["Failed to delete "@ + locator + ": "@ + cause@]
        }),
{
    let r = ItemReport::NotDeleted { measured, cause };
    let m = "Failed to delete "@ + locator + ": "@ + cause@;
    assert(seq![locator].drop_last() =~= Seq::<Seq<char>>::empty());
    assert(seq![r].drop_last() =~= Seq::<ItemReport>::empty());
    let t0 = tally_of(Seq::<Seq<char>>::empty(), Seq::<ItemReport>::empty());
    assert(t0 == empty_tally());
    assert(tally_of(seq![locator], seq![r]) == apply(t0, locator, r));
    assert(failure_message(locator, r) == Some(m));
    assert(t0.errors.push(m) =~= seq![m]);
}

/// What the caller does for one locator of a batch.
#[derive(Debug, PartialEq, Eq)]
pub enum Step {
    /// Measure the path, then delete it.
    DeletePath { path: String },
    /// Run the container runtime with these arguments.
    RunRuntime { args: Vec<String> },
    /// Nothing to run: the locator's report is already known.
    Settled { report: ItemReport },
}

/// Whether `step` is what a locator asks for. A runtime reference of a known kind
/// is removed through the runtime; one of an unknown kind is a failure; one
/// without an id is skipped. A path is deleted where `delete_paths` holds, and
/// skipped otherwise.
pub open spec fn step_for(step: Step, locator: Seq<char>, delete_paths: bool) -> bool {
    match decode(locator) {
        LocatorView::Path(p) => if delete_paths {
            match step {
                Step::DeletePath { path } => path@ == p,
                _ => false,
            }
        } else {
            step == (Step::Settled { report: ItemReport::Ignored })
        },
        LocatorView::Resource { kind, id } => match step {
            Step::RunRuntime { args } => string_views(args@) == removal_command(kind, id),
            _ => false,
        },
        LocatorView::UnknownResource { name } => match step {
            Step::Settled { report: ItemReport::UnknownKind { kind } } => kind@ == name,
            _ => false,
        },
        LocatorView::Incomplete => step == (Step::Settled { report: ItemReport::Ignored }),
    }
}

/// What to do for `locator`; paths are deleted only where `delete_paths` holds.
pub fn plan_step(locator: &str, delete_paths: bool) -> (r: Step)
    ensures
        step_for(r, locator@, delete_paths),
{
    match decode_locator(locator) {
        Locator::Path(p) => {
            if delete_paths {
                Step::DeletePath { path: p }
            } else {
                Step::Settled { report: ItemReport::Ignored }
            }
        },
        Locator::Resource { kind, id } => Step::RunRuntime { args: removal_args(kind, id.as_str()) },
        Locator::UnknownResource { name } => Step::Settled {
            report: ItemReport::UnknownKind { kind: name },
        },
        Locator::Incomplete => Step::Settled { report: ItemReport::Ignored },
    }
}

} // verus!
