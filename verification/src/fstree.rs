//! The size planner's input model: a file or a directory tree, each regular
//! file carried as its path and byte length. Directory traversal itself is
//! I/O and lives with the caller; the planner works on the resolved tree,
//! accumulating total size and the ordered file list in traversal order.

use vstd::prelude::*;
use crate::mode::ColorMode;
use crate::mode::CompressionLevel;
use crate::planner::TranscodePlan;
use crate::planner::dimension_exceeds_u32;
use crate::planner::make_plan;
use crate::planner::path_views;

verus! {

/// Why the planning phase failed: both are fatal, since the dimension must be
/// fixed before the sink is opened.
#[derive(Clone, Copy, PartialEq, Eq, Structural, Debug)]
pub enum SizeError {
    /// A single input file's metadata could not be read.
    MetadataUnavailable,
    /// Walking a directory, or reading a sub-entry's metadata, failed.
    TraversalFailed,
}

/// One input source: a regular file with its byte length, or a directory of
/// further entries in traversal order.
pub enum FsEntry {
    File { path: String, size: u64 },
    Dir { entries: Vec<FsEntry> },
}

/// Total byte length of every regular file in the tree.
pub open spec fn tree_size(e: FsEntry) -> int
    decreases e,
{
    match e {
        FsEntry::File { size, .. } => size as int,
        FsEntry::Dir { entries } => entries_size(entries@),
    }
}

pub open spec fn entries_size(s: Seq<FsEntry>) -> int
    decreases s,
{
    if s.len() == 0 {
        0
    } else {
        entries_size(s.drop_last()) + tree_size(s.last())
    }
}

/// The paths of every regular file in the tree, in traversal order.
pub open spec fn tree_paths(e: FsEntry) -> Seq<Seq<char>>
    decreases e,
{
    match e {
        FsEntry::File { path, .. } => seq![path@],
        FsEntry::Dir { entries } => entries_paths(entries@),
    }
}

pub open spec fn entries_paths(s: Seq<FsEntry>) -> Seq<Seq<char>>
    decreases s,
{
    if s.len() == 0 {
        Seq::empty()
    } else {
        entries_paths(s.drop_last()) + tree_paths(s.last())
    }
}

/// The byte lengths of every regular file in the tree, flattened in
/// traversal order.
pub open spec fn tree_file_sizes(e: FsEntry) -> Seq<u64>
    decreases e,
{
    match e {
        FsEntry::File { size, .. } => seq![size],
        FsEntry::Dir { entries } => entries_file_sizes(entries@),
    }
}

pub open spec fn entries_file_sizes(s: Seq<FsEntry>) -> Seq<u64>
    decreases s,
{
    if s.len() == 0 {
        Seq::empty()
    } else {
        entries_file_sizes(s.drop_last()) + tree_file_sizes(s.last())
    }
}

/// The sum of a sequence of byte counts.
pub open spec fn seq_sum(s: Seq<u64>) -> int
    decreases s,
{
    if s.len() == 0 {
        0
    } else {
        seq_sum(s.drop_last()) + s.last()
    }
}

pub proof fn lemma_tree_size_nonneg(e: FsEntry)
    ensures
        tree_size(e) >= 0,
    decreases e,
{
    match e {
        FsEntry::File { .. } => {
        },
        FsEntry::Dir { entries } => {
            lemma_entries_size_nonneg(entries@);
        },
    }
}

pub proof fn lemma_entries_size_nonneg(s: Seq<FsEntry>)
    ensures
        entries_size(s) >= 0,
    decreases s,
{
    if s.len() > 0 {
        lemma_entries_size_nonneg(s.drop_last());
        lemma_tree_size_nonneg(s.last());
    }
}

/// Extending a prefix of entries by one adds that entry's size.
proof fn lemma_entries_size_take_step(s: Seq<FsEntry>, i: int)
    requires
        0 <= i < s.len(),
    ensures
        entries_size(s.take(i + 1)) == entries_size(s.take(i)) + tree_size(s[i]),
{
    assert(s.take(i + 1).drop_last() =~= s.take(i));
    assert(s.take(i + 1).last() == s[i]);
}

proof fn lemma_entries_paths_take_step(s: Seq<FsEntry>, i: int)
    requires
        0 <= i < s.len(),
    ensures
        entries_paths(s.take(i + 1)) == entries_paths(s.take(i)) + tree_paths(s[i]),
{
    assert(s.take(i + 1).drop_last() =~= s.take(i));
    assert(s.take(i + 1).last() == s[i]);
}

/// A prefix of entries never holds more bytes than the whole sequence.
proof fn lemma_entries_size_prefix_le(s: Seq<FsEntry>, j: int)
    requires
        0 <= j <= s.len(),
    ensures
        entries_size(s.take(j)) <= entries_size(s),
    decreases s.len() - j,
{
    if j == s.len() {
        assert(s.take(j) =~= s);
    } else {
        lemma_entries_size_take_step(s, j);
        lemma_tree_size_nonneg(s[j]);
        lemma_entries_size_prefix_le(s, j + 1);
    }
}

/// Accumulates the total byte length of the tree and appends the path of
/// every regular file, in traversal order, to `filenames`.
pub fn calculate_dimensions(dir: &FsEntry, filenames: &mut Vec<String>) -> (r: u64)
    requires
        tree_size(*dir) <= u64::MAX,
    ensures
        r == tree_size(*dir),
        path_views(final(filenames)@) == path_views(old(filenames)@) + tree_paths(*dir),
    decreases *dir,
{
    match dir {
        FsEntry::File { path, size } => {
            filenames.push(path.clone());
            proof {
                assert(path_views(filenames@) =~= path_views(old(filenames)@) + tree_paths(*dir));
            }
            *size
        },
        FsEntry::Dir { entries } => {
            let ghost s = entries@;
            let mut total: u64 = 0;
            let mut i: usize = 0;
            proof {
                assert(s.take(0) =~= Seq::<FsEntry>::empty());
                assert(path_views(filenames@) =~= path_views(filenames@) + entries_paths(
                    s.take(0),
                ));
            }
            while i < entries.len()
                invariant
                    i <= entries.len(),
                    s == entries@,
                    dir == (FsEntry::Dir { entries: *entries }),
                    tree_size(*dir) <= u64::MAX,
                    total == entries_size(s.take(i as int)),
                    path_views(filenames@) == path_views(old(filenames)@) + entries_paths(
                        s.take(i as int),
                    ),
                decreases entries.len() - i,
            {
                proof {
                    lemma_entries_size_take_step(s, i as int);
                    lemma_entries_size_prefix_le(s, i + 1);
                    lemma_entries_size_nonneg(s.take(i as int));
                    lemma_tree_size_nonneg(s[i as int]);
                }
                let ghost names_before = filenames@;
                let sub = calculate_dimensions(&entries[i], filenames);
                total = total + sub;
                proof {
                    lemma_entries_paths_take_step(s, i as int);
                    assert(path_views(filenames@) =~= path_views(old(filenames)@) + entries_paths(
                        s.take(i + 1),
                    ));
                }
                i = i + 1;
            }
            proof {
                assert(s.take(s.len() as int) =~= s);
            }
            total
        },
    }
}

/// Extends a sum over one more entry's flattened sizes.
proof fn lemma_seq_sum_concat(a: Seq<u64>, b: Seq<u64>)
    ensures
        seq_sum(a + b) == seq_sum(a) + seq_sum(b),
    decreases b,
{
    if b.len() == 0 {
        assert(a + b =~= a);
    } else {
        assert((a + b).drop_last() =~= a + b.drop_last());
        assert((a + b).last() == b.last());
        lemma_seq_sum_concat(a, b.drop_last());
    }
}

proof fn lemma_entries_aggregation(s: Seq<FsEntry>)
    ensures
        entries_size(s) == seq_sum(entries_file_sizes(s)),
    decreases s,
{
    if s.len() > 0 {
        lemma_entries_aggregation(s.drop_last());
        lemma_directory_aggregation(s.last());
        lemma_seq_sum_concat(entries_file_sizes(s.drop_last()), tree_file_sizes(s.last()));
    }
}

/// Directory aggregation: the total size of a tree equals the sum of the
/// sizes of all regular files transitively contained, regardless of nesting
/// depth.
pub proof fn lemma_directory_aggregation(e: FsEntry)
    ensures
        tree_size(e) == seq_sum(tree_file_sizes(e)),
    decreases e,
{
    match e {
        FsEntry::File { size, .. } => {
            assert(seq![size].drop_last() =~= Seq::<u64>::empty());
            assert(seq_sum(Seq::<u64>::empty()) == 0);
            assert(seq![size].last() == size);
        },
        FsEntry::Dir { entries } => {
            lemma_entries_aggregation(entries@);
        },
    }
}

/// Plans one run: resolves the input tree to its total size and ordered file
/// list, and derives the square dimension from the total and the mode's
/// multiplier. Returns `None` exactly when the dimension does not fit a
/// `u32`.
pub fn plan(input: &FsEntry, mode: ColorMode, level: CompressionLevel) -> (r: Option<
    TranscodePlan,
>)
    requires
        tree_size(*input) <= u64::MAX,
    ensures
        r matches Some(p) ==> p.wf() && p.derived_from(
            tree_size(*input),
            tree_paths(*input),
            mode,
            level,
        ),
        r is None <==> dimension_exceeds_u32(tree_size(*input), mode),
{
    let mut filenames: Vec<String> = Vec::new();
    proof {
        lemma_tree_size_nonneg(*input);
    }
    let total = calculate_dimensions(input, &mut filenames);
    proof {
        assert(path_views(filenames@) =~= tree_paths(*input));
    }
    make_plan(total, filenames, mode, level)
}

} // verus!
