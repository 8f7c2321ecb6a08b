//! The compiled template cluster and the reader/writer-guarded holder that
//! lets it be swapped while scans are in flight.
//!
//! A [`ClusterHandle`] is immutable once produced: replacement swaps the
//! whole handle, never edits one in place, so a reader always observes the
//! handle of a single clustering run in full.

use vstd::prelude::*;
use vstd::rwlock::{RwLock, RwLockPredicate};

verus! {

/// A declarative fingerprint/detection rule; templates sharing an identifier
/// are grouped into one cluster.
pub struct Template {
    /// Identifier of the rule; the clustering key.
    pub id: String,
}

/// Whether the template at `i` is the first in `ts` with its identifier.
pub open spec fn is_first(ts: Seq<Template>, i: int) -> bool {
    forall|j: int| 0 <= j < i ==> ts[j].id@ != ts[i].id@
}

/// Number of distinct template identifiers among the first `k` of `ts`:
/// each contributes exactly where it first appears.
pub open spec fn cluster_count_below(ts: Seq<Template>, k: int) -> int
    decreases k,
{
    if k <= 0 {
        0
    } else {
        cluster_count_below(ts, k - 1) + if is_first(ts, k - 1) {
            1int
        } else {
            0int
        }
    }
}

/// Number of clusters a template list compiles to: its distinct identifiers.
pub open spec fn spec_cluster_count(ts: Seq<Template>) -> int {
    cluster_count_below(ts, ts.len() as int)
}

/// The compiled representation of one clustering run over a template list.
#[derive(Clone, Copy)]
pub struct ClusterHandle {
    /// How many templates the run compiled.
    pub probes: usize,
    /// How many clusters they were grouped into.
    pub clusters: usize,
    /// The template list the run compiled; carried only in specifications,
    /// as the witness that the counts belong together.
    pub source: Ghost<Seq<Template>>,
}

impl ClusterHandle {
    /// The fields of a handle all come from one clustering run: both counts
    /// are exactly those of the handle's own template list, so a handle
    /// mixing the fields of two different runs is not well-formed.
    pub open spec fn wf(self) -> bool {
        self.probes == self.source@.len() && self.clusters == spec_cluster_count(self.source@)
    }

    /// How many optimized clusters this handle holds.
    pub fn count(&self) -> (c: usize)
        ensures
            c == self.clusters,
    {
        self.clusters
    }

    /// The handle of a run over no templates; what the holder degrades to
    /// when no cluster has been compiled.
    pub fn empty() -> (h: ClusterHandle)
        ensures
            h.wf(),
            h.probes == 0,
            h.clusters == 0,
    {
        ClusterHandle { probes: 0, clusters: 0, source: Ghost(Seq::empty()) }
    }
}

/// Compiles a template list into a cluster handle: templates with the same
/// identifier share one cluster.
pub fn cluster_templates(templates: &Vec<Template>) -> (h: ClusterHandle)
    ensures
        h.probes == templates@.len(),
        h.clusters == spec_cluster_count(templates@),
        h.source@ == templates@,
        h.wf(),
{
    let mut count: usize = 0;
    let mut i: usize = 0;
    while i < templates.len()
        invariant
            i <= templates@.len(),
            count == cluster_count_below(templates@, i as int),
            count <= i,
        decreases templates@.len() - i,
    {
        let mut fresh = true;
        let mut j: usize = 0;
        while j < i
            invariant
                j <= i < templates@.len(),
                fresh == (forall|l: int|
                    0 <= l < j ==> templates@[l].id@ != templates@[i as int].id@),
            decreases i - j,
        {
            if templates[j].id == templates[i].id {
                fresh = false;
            }
            j = j + 1;
        }
        if fresh {
            count = count + 1;
        }
        assert(cluster_count_below(templates@, i + 1) == cluster_count_below(
            templates@,
            i as int,
        ) + if is_first(templates@, i as int) {
            1int
        } else {
            0int
        });
        i = i + 1;
    }
    ClusterHandle { probes: templates.len(), clusters: count, source: Ghost(templates@) }
}

/// Lock invariant of the holder: only complete handles of a single clustering
/// run are ever stored.
pub struct ClusterInv {}

impl RwLockPredicate<ClusterHandle> for ClusterInv {
    open spec fn inv(self, v: ClusterHandle) -> bool {
        v.wf()
    }
}

/// Owns the currently active cluster behind a reader/writer lock: readers
/// share a consistent snapshot, a writer atomically swaps the whole handle.
pub struct ClusterStateHolder {
    lock: RwLock<ClusterHandle, ClusterInv>,
}

impl ClusterStateHolder {
    /// The holder's lock carries the single-run invariant.
    pub closed spec fn wf(&self) -> bool {
        self.lock.pred() == (ClusterInv {  })
    }

    /// A holder initially storing `h`.
    pub fn new(h: ClusterHandle) -> (s: Self)
        requires
            h.wf(),
        ensures
            s.wf(),
    {
        ClusterStateHolder { lock: RwLock::new(h, Ghost(ClusterInv {  })) }
    }

    /// A consistent snapshot of the current handle: always the complete
    /// handle of one clustering run, never a mix of two.
    pub fn read(&self) -> (h: ClusterHandle)
        requires
            self.wf(),
        ensures
            h.wf(),
    {
        let handle = self.lock.acquire_read();
        let v = *handle.borrow();
        handle.release_read();
        v
    }

    /// Atomically swaps the stored handle; holds the lock only for the swap,
    /// never for the duration of a scan.
    pub fn replace(&self, h: ClusterHandle)
        requires
            self.wf(),
            h.wf(),
    {
        let (_old_handle, write_handle) = self.lock.acquire_write();
        write_handle.release_write(h);
    }
}

} // verus!
