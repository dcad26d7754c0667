//! Directory size accounting: the total of a recursive walk under a root.
//!
//! The walk itself reads the filesystem and is done by the caller; it reports each
//! entry it visits, the root first, as a [`WalkEntry`]. Only a failure at the root
//! makes the total fail; a failure below it leaves that entry out of the sum.
use vstd::prelude::*;
use vstd::multiset::Multiset;
use crate::size::saturate;

verus! {

/// One entry visited by a walk.
#[derive(Debug, Clone, Copy, PartialEq, Eq, Structural)]
pub enum WalkEntry {
    /// A regular file and its length in bytes.
    File { len: u64 },
    /// A directory, a link, or anything else that is not a regular file.
    Other,
    /// An entry that could not be read, `depth` levels below the root (0: the root).
    Failed { depth: usize },
}

/// Why no size could be given for a root.
#[derive(Debug, Clone, Copy, PartialEq, Eq, Structural)]
pub enum SizeError {
    /// The root itself could not be read.
    RootUnreadable,
}

/// The sum of the lengths of the regular files among `entries`.
pub open spec fn file_bytes(entries: Seq<WalkEntry>) -> nat
    decreases entries.len(),
{
    if entries.len() == 0 {
        0
    } else {
        file_bytes(entries.drop_last()) + match entries.last() {
            WalkEntry::File { len } => len as nat,
            _ => 0,
        }
    }
}

/// Whether the walk failed at its root.
pub open spec fn root_failed(entries: Seq<WalkEntry>) -> bool {
    exists|i: int| 0 <= i < entries.len() && #[trigger] entries[i] == (WalkEntry::Failed { depth: 0 })
}

/// The size of a root from its walk: the sum of its regular files' lengths
/// (saturating), or an error where the root itself could not be read.
pub open spec fn walk_total(entries: Seq<WalkEntry>) -> Result<u64, SizeError> {
    if root_failed(entries) {
        Err(SizeError::RootUnreadable)
    } else {
        Ok(saturate(file_bytes(entries)))
    }
}

/// The size of a root from the entries its walk visited.
pub fn total_size(entries: &Vec<WalkEntry>) -> (r: Result<u64, SizeError>)
    ensures
        r == walk_total(entries@),
{
    let mut total: u64 = 0;
    let mut i: usize = 0;
    assert(entries@.take(0) =~= Seq::<WalkEntry>::empty());
    while i < entries.len()
        invariant
            i <= entries.len(),
            total == saturate(file_bytes(entries@.take(i as int))),
            forall|k: int| 0 <= k < i ==> entries@[k] != (WalkEntry::Failed { depth: 0 }),
        decreases entries.len() - i,
    {
        assert(entries@.take(i + 1).drop_last() =~= entries@.take(i as int));
        match entries[i] {
            WalkEntry::File { len } => {
                total = total.saturating_add(len);
            },
            WalkEntry::Other => {},
            WalkEntry::Failed { depth } => {
                if depth == 0 {
                    assert(root_failed(entries@));
                    return Err(SizeError::RootUnreadable);
                }
            },
        }
        i = i + 1;
    }
    assert(entries@.take(i as int) =~= entries@);
    Ok(total)
}

proof fn lemma_file_bytes_concat(a: Seq<WalkEntry>, b: Seq<WalkEntry>)
    ensures
        file_bytes(a + b) == file_bytes(a) + file_bytes(b),
    decreases b.len(),
{
    if b.len() == 0 {
        assert(a + b =~= a);
    } else {
        assert((a + b).drop_last() =~= a + b.drop_last());
        lemma_file_bytes_concat(a, b.drop_last());
    }
}

/// An entry below the root that cannot be read changes nothing: the total is
/// still the sum of the other files, or still the root's failure.
pub proof fn lemma_descendant_failure_ignored(entries: Seq<WalkEntry>, i: int, depth: usize)
    requires
        0 <= i <= entries.len(),
        depth > 0,
    ensures
        walk_total(entries.insert(i, (WalkEntry::Failed { depth }))) == walk_total(entries),
        !root_failed(entries) && file_bytes(entries) <= u64::MAX ==> walk_total(
            entries.insert(i, (WalkEntry::Failed { depth })),
        ) == Ok::<u64, SizeError>(file_bytes(entries) as u64),
{
    let failed = WalkEntry::Failed { depth };
    let with = entries.insert(i, failed);
    assert(with =~= entries.take(i) + (seq![failed] + entries.skip(i)));
    assert(entries =~= entries.take(i) + entries.skip(i));
    lemma_file_bytes_concat(entries.take(i), seq![failed] + entries.skip(i));
    lemma_file_bytes_concat(seq![failed], entries.skip(i));
    lemma_file_bytes_concat(entries.take(i), entries.skip(i));
    assert(seq![failed].drop_last() =~= Seq::<WalkEntry>::empty());
    assert(file_bytes(Seq::<WalkEntry>::empty()) == 0);
    assert(seq![failed].last() == failed);
    assert(file_bytes(seq![failed]) == 0);
    if root_failed(entries) {
        let k = choose|k: int| 0 <= k < entries.len() && #[trigger] entries[k] == (WalkEntry::Failed {
            depth: 0,
        });
        if k < i {
            assert(with[k] == entries[k]);
        } else {
            assert(with[k + 1] == entries[k]);
        }
    }
    if root_failed(with) {
        let k = choose|k: int| 0 <= k < with.len() && #[trigger] with[k] == (WalkEntry::Failed {
            depth: 0,
        });
        if k < i {
            assert(with[k] == entries[k]);
        } else if k > i {
            assert(with[k] == entries[k - 1]);
        }
    }
}

/// Where the root could be read and its files' lengths sum to at most
/// `u64::MAX`, its size is exactly that sum.
pub proof fn lemma_total_is_file_sum(entries: Seq<WalkEntry>)
    requires
        !root_failed(entries),
        file_bytes(entries) <= u64::MAX,
    ensures
        walk_total(entries) == Ok::<u64, SizeError>(file_bytes(entries) as u64),
{
}

/// The lengths of the regular files among `entries`.
pub open spec fn file_lengths(entries: Seq<WalkEntry>) -> Multiset<u64>
    decreases entries.len(),
{
    if entries.len() == 0 {
        Multiset::empty()
    } else {
        let before = file_lengths(entries.drop_last());
        match entries.last() {
            WalkEntry::File { len } => before.insert(len),
            _ => before,
        }
    }
}

proof fn lemma_file_lengths_concat(a: Seq<WalkEntry>, b: Seq<WalkEntry>)
    ensures
        file_lengths(a + b) == file_lengths(a).add(file_lengths(b)),
    decreases b.len(),
{
    if b.len() == 0 {
        assert(a + b =~= a);
        assert(file_lengths(a).add(Multiset::empty()) =~= file_lengths(a));
    } else {
        assert((a + b).drop_last() =~= a + b.drop_last());
        lemma_file_lengths_concat(a, b.drop_last());
        match b.last() {
            WalkEntry::File { len } => {
                assert(file_lengths(a).add(file_lengths(b.drop_last())).insert(len) =~= file_lengths(
                    a,
                ).add(file_lengths(b.drop_last()).insert(len)));
            },
            _ => {},
        }
    }
}

/// Taking a file out of a walk takes its length out of the sum and the lengths.
proof fn lemma_remove_file(b: Seq<WalkEntry>, k: int, x: u64)
    requires
        0 <= k < b.len(),
        b[k] == (WalkEntry::File { len: x }),
    ensures
        file_bytes(b) == file_bytes(b.remove(k)) + x,
        file_lengths(b) == file_lengths(b.remove(k)).insert(x),
{
    let head = b.take(k);
    let tail = b.skip(k + 1);
    let one = seq![b[k]];
    assert(b =~= head + (one + tail));
    assert(b.remove(k) =~= head + tail);
    assert(one.drop_last() =~= Seq::<WalkEntry>::empty());
    assert(file_bytes(Seq::<WalkEntry>::empty()) == 0);
    assert(file_lengths(Seq::<WalkEntry>::empty()) == Multiset::<u64>::empty());
    assert(one.last() == b[k]);
    assert(file_bytes(one) == x);
    assert(file_lengths(one) == Multiset::<u64>::empty().insert(x));
    lemma_file_bytes_concat(head, one + tail);
    lemma_file_bytes_concat(one, tail);
    lemma_file_bytes_concat(head, tail);
    lemma_file_lengths_concat(head, one + tail);
    lemma_file_lengths_concat(one, tail);
    lemma_file_lengths_concat(head, tail);
    assert(file_lengths(head).add(Multiset::<u64>::empty().insert(x).add(file_lengths(tail)))
        =~= file_lengths(head).add(file_lengths(tail)).insert(x));
}

/// A length among the files of a walk is the length of one of its entries.
proof fn lemma_length_has_entry(b: Seq<WalkEntry>, x: u64)
    requires
        file_lengths(b).count(x) > 0,
    ensures
        exists|k: int| 0 <= k < b.len() && b[k] == (WalkEntry::File { len: x }),
    decreases b.len(),
{
    let last = (b.len() - 1) as int;
    if b.last() == (WalkEntry::File { len: x }) {
        assert(b[last] == (WalkEntry::File { len: x }));
    } else {
        assert(file_lengths(b.drop_last()).count(x) > 0);
        lemma_length_has_entry(b.drop_last(), x);
        let k = choose|k: int|
            0 <= k < b.drop_last().len() && b.drop_last()[k] == (WalkEntry::File { len: x });
        assert(b[k] == b.drop_last()[k]);
    }
}

proof fn lemma_same_lengths_same_bytes(a: Seq<WalkEntry>, b: Seq<WalkEntry>)
    requires
        file_lengths(a) == file_lengths(b),
    ensures
        file_bytes(a) == file_bytes(b),
    decreases a.len() + b.len(),
{
    if a.len() == 0 {
        if b.len() > 0 {
            match b.last() {
                WalkEntry::File { len } => {
                    assert(file_lengths(b).count(len) > 0);
                },
                _ => {
                    lemma_same_lengths_same_bytes(a, b.drop_last());
                },
            }
        }
    } else {
        match a.last() {
            WalkEntry::File { len } => {
                let a1 = a.drop_last();
                assert(file_lengths(b).count(len) > 0);
                lemma_length_has_entry(b, len);
                let k = choose|k: int| 0 <= k < b.len() && b[k] == (WalkEntry::File { len });
                lemma_remove_file(b, k, len);
                let b1 = b.remove(k);
                assert(file_lengths(a1) =~= file_lengths(b1)) by {
                    assert forall|y: u64| file_lengths(a1).count(y) == file_lengths(b1).count(y) by {
                        assert(file_lengths(a).count(y) == file_lengths(a1).insert(len).count(y));
                        assert(file_lengths(b).count(y) == file_lengths(b1).insert(len).count(y));
                    }
                }
                lemma_same_lengths_same_bytes(a1, b1);
            },
            _ => {
                lemma_same_lengths_same_bytes(a.drop_last(), b);
            },
        }
    }
}

/// A root's size depends only on the lengths of its regular files: two walks that
/// find the same lengths, however the files are nested and whatever directories
/// lie between them, give the same size.
pub proof fn lemma_total_depends_on_lengths(a: Seq<WalkEntry>, b: Seq<WalkEntry>)
    requires
        !root_failed(a),
        !root_failed(b),
        file_lengths(a) == file_lengths(b),
    ensures
        walk_total(a) == walk_total(b),
{
    lemma_same_lengths_same_bytes(a, b);
}

} // verus!
