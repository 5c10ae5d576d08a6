use vstd::prelude::*;

verus! {

broadcast use vstd::seq::group_seq_axioms, vstd::std_specs::vec::group_vec_axioms;

/// A modification time, in nanoseconds since the Unix epoch.
pub type Timestamp = u128;

/// One entry of an allocator's source tree: a file with its modification
/// time, or a directory with its entries.
#[derive(Debug)]
pub enum SourceEntry {
    File { modified: Timestamp },
    Dir { children: Vec<SourceEntry> },
}

/// The modification times of every file below `e`, depth first.
pub open spec fn files_in_entry(e: SourceEntry) -> Seq<Timestamp>
    decreases e,
{
    match e {
        SourceEntry::File { modified } => seq![modified],
        SourceEntry::Dir { children } => files_in_list(children@),
    }
}

/// The modification times of every file below the entries of `s`.
pub open spec fn files_in_list(s: Seq<SourceEntry>) -> Seq<Timestamp>
    decreases s,
{
    if s.len() == 0 {
        Seq::empty()
    } else {
        files_in_list(s.drop_last()) + files_in_entry(s.last())
    }
}

/// The largest of `q`, or `None` when `q` is empty.
pub open spec fn latest_of(q: Seq<Timestamp>) -> Option<Timestamp>
    decreases q.len(),
{
    if q.len() == 0 {
        None
    } else {
        later(latest_of(q.drop_last()), Some(q.last()))
    }
}

/// The later of two optional times; an absent time contributes nothing.
pub open spec fn later(a: Option<Timestamp>, b: Option<Timestamp>) -> Option<Timestamp> {
    match (a, b) {
        (None, _) => b,
        (_, None) => a,
        (Some(x), Some(y)) => if y > x { Some(y) } else { Some(x) },
    }
}

/// Whether an artifact modified at `artifact` (absent: not built) must be
/// rebuilt from sources whose latest file time is `latest`.
pub open spec fn stale(artifact: Option<Timestamp>, latest: Option<Timestamp>) -> bool {
    match (artifact, latest) {
        (None, _) => true,
        (Some(_), None) => true,
        (Some(a), Some(t)) => a < t,
    }
}

proof fn lemma_latest_of_concat(a: Seq<Timestamp>, b: Seq<Timestamp>)
    ensures
        latest_of(a + b) == later(latest_of(a), latest_of(b)),
    decreases b.len(),
{
    if b.len() == 0 {
        assert(a + b == a);
    } else {
        assert((a + b).drop_last() == a + b.drop_last());
        lemma_latest_of_concat(a, b.drop_last());
    }
}

/// Bounds of the latest time: it is one of the times, and no time is later.
proof fn lemma_latest_of_bounds(q: Seq<Timestamp>)
    ensures
        latest_of(q) is None <==> q.len() == 0,
        latest_of(q) matches Some(m) ==> q.contains(m),
        latest_of(q) matches Some(m) ==> forall|i: int| 0 <= i < q.len() ==> q[i] <= m,
    decreases q.len(),
{
    if q.len() > 0 {
        lemma_latest_of_bounds(q.drop_last());
        let m = latest_of(q).unwrap();
        if latest_of(q.drop_last()) is Some {
            let p = latest_of(q.drop_last()).unwrap();
            if m == p {
                let j = choose|j: int| 0 <= j < q.drop_last().len() && q.drop_last()[j] == p;
                assert(q[j] == m);
            } else {
                assert(q[q.len() - 1] == m);
            }
        } else {
            assert(q[q.len() - 1] == m);
        }
        assert forall|i: int| 0 <= i < q.len() implies q[i] <= m by {
            if i < q.len() - 1 {
                assert(q[i] == q.drop_last()[i]);
            }
        }
    }
}

/// The latest modification time of any file below `entries`, or `None` when
/// they hold no file. A directory contributes the latest time below it.
pub fn last_modified_time(entries: &Vec<SourceEntry>) -> (r: Option<Timestamp>)
    ensures
        r == latest_of(files_in_list(entries@)),
    decreases entries@,
{
    let mut output: Option<Timestamp> = None;
    let mut i: usize = 0;
    while i < entries.len()
        invariant
            i <= entries@.len(),
            output == latest_of(files_in_list(entries@.subrange(0, i as int))),
        decreases entries@.len() - i,
    {
        let ghost prefix = entries@.subrange(0, i as int);
        let latest = match &entries[i] {
            SourceEntry::File { modified } => {
                assert(latest_of(seq![*modified]) == Some(*modified)) by {
                    assert(seq![*modified].drop_last() == Seq::<Timestamp>::empty());
                    assert(latest_of(Seq::<Timestamp>::empty()) is None);
                    assert(seq![*modified].last() == *modified);
                }
                Some(*modified)
            },
            SourceEntry::Dir { children } => {
                assert(decreases_to!(entries@ => entries@[i as int]));
                last_modified_time(children)
            },
        };
        proof {
            assert(entries@.subrange(0, i + 1).drop_last() == prefix);
            lemma_latest_of_concat(files_in_list(prefix), files_in_entry(entries@[i as int]));
        }
        output = match (output, latest) {
            (None, _) => latest,
            (_, None) => output,
            (Some(x), Some(y)) => if y > x { Some(y) } else { Some(x) },
        };
        i = i + 1;
    }
    assert(entries@.subrange(0, entries@.len() as int) == entries@);
    output
}

/// Whether an allocator's artifact must be rebuilt. `artifact_modified` is
/// the artifact's modification time, `None` when it does not exist;
/// `sources` are the entries of the allocator's source directory.
///
/// A missing artifact is always rebuilt; so is one whose sources hold no
/// file. Otherwise it is rebuilt exactly when some source file is newer.
pub fn should_build(artifact_modified: Option<Timestamp>, sources: &Vec<SourceEntry>) -> (r: bool)
    ensures
        r == stale(artifact_modified, latest_of(files_in_list(sources@))),
{
    match artifact_modified {
        None => true,
        Some(built) => match last_modified_time(sources) {
            None => true,
            Some(time) => built < time,
        },
    }
}

} // verus!

verus! {

/// A missing artifact is built whatever its source tree holds.
pub proof fn lemma_missing_artifact_is_built(sources: Seq<SourceEntry>)
    ensures
        stale(None, latest_of(files_in_list(sources))),
{
}

/// An artifact newer than every file of its source tree is kept, and
/// touching any one of those files to a time after the artifact's makes it
/// stale. `after` is the tree whose files are those of `before`, but for the
/// one at position `i`, now modified at `touched`.
pub proof fn lemma_staleness_idempotence(
    artifact: Timestamp,
    before: Seq<SourceEntry>,
    after: Seq<SourceEntry>,
    i: int,
    touched: Timestamp,
)
    requires
        forall|j: int|
            0 <= j < files_in_list(before).len() ==> #[trigger] files_in_list(before)[j] < artifact,
        0 <= i < files_in_list(before).len(),
        files_in_list(after) == files_in_list(before).update(i, touched),
        artifact < touched,
    ensures
        !stale(Some(artifact), latest_of(files_in_list(before))),
        stale(Some(artifact), latest_of(files_in_list(after))),
{
    let fb = files_in_list(before);
    let fa = files_in_list(after);
    lemma_latest_of_bounds(fb);
    lemma_latest_of_bounds(fa);
    assert(fa[i] == touched);
}

} // verus!
