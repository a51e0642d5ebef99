//! The two-call "ask size, then ask content" discipline used for every
//! kernel-owned variable-length array.
//!
//! A probe exchange with zero-capacity buffers learns the current element
//! counts; the same exchange is then reissued with buffers of exactly those
//! sizes. If the device reports different counts the second time, the
//! partial result is discarded and the whole read restarts, because the
//! counts can change under concurrent hot-plug activity. The caller
//! performs the exchanges; this tracker makes the decisions, so a
//! consistent reply is certified to fill every requested buffer completely.

use vstd::prelude::*;

verus! {

/// Compare two count vectors element for element.
fn counts_equal(a: &Vec<u32>, b: &Vec<u32>) -> (r: bool)
    ensures
        r <==> a@ == b@,
{
    if a.len() != b.len() {
        assert(a@ !~= b@);
        return false;
    }
    let mut i: usize = 0;
    while i < a.len()
        invariant
            0 <= i <= a@.len(),
            a@.len() == b@.len(),
            forall|j: int| 0 <= j < i ==> a@[j] == b@[j],
        decreases a@.len() - i,
    {
        if a[i] != b[i] {
            assert(a@ !~= b@);
            return false;
        }
        i += 1;
    }
    proof {
        assert(a@ =~= b@);
    }
    true
}

/// Tracks one size-then-content read across its exchanges.
///
/// The tracker holds the counts most recently requested from the device,
/// whether a probe has happened yet, and whether a content reply has come
/// back consistent, after which the read is complete.
pub struct SnapshotFetch {
    requested: Vec<u32>,
    probed: bool,
    complete: bool,
}

impl SnapshotFetch {
    /// The element counts that the current buffers were allocated for.
    pub closed spec fn requested_counts(&self) -> Seq<u32> {
        self.requested@
    }

    /// Whether a probe reply has been recorded yet.
    pub closed spec fn is_probed(&self) -> bool {
        self.probed
    }

    /// Whether a content reply has come back consistent.
    pub closed spec fn is_complete(&self) -> bool {
        self.complete
    }

    /// Start a fresh read: no probe seen, nothing requested.
    pub fn new() -> (r: SnapshotFetch)
        ensures
            !r.is_probed(),
            !r.is_complete(),
            r.requested_counts() == Seq::<u32>::empty(),
    {
        SnapshotFetch { requested: Vec::new(), probed: false, complete: false }
    }

    /// Record the counts a probe exchange reported. The caller must now
    /// allocate one buffer of exactly each count and reissue the exchange.
    pub fn note_probe(&mut self, counts: &Vec<u32>)
        requires
            !old(self).is_complete(),
        ensures
            final(self).is_probed(),
            !final(self).is_complete(),
            final(self).requested_counts() == counts@,
    {
        self.requested = counts.clone();
        self.probed = true;
        proof {
            assert(self.requested@ =~= counts@);
        }
    }

    /// Record the counts a content exchange reported, and decide.
    ///
    /// The reply is consistent exactly when every count equals the count
    /// that was requested; the read is then complete and the buffers are
    /// certified as fully populated up to the requested counts. Otherwise
    /// the buffers must be discarded, and the reported counts stand as the
    /// next probe result, ready for a retry.
    pub fn note_content(&mut self, counts: &Vec<u32>) -> (consistent: bool)
        requires
            old(self).is_probed(),
            !old(self).is_complete(),
        ensures
            consistent <==> counts@ == old(self).requested_counts(),
            final(self).is_probed(),
            final(self).is_complete() == consistent,
            consistent ==> final(self).requested_counts() == old(self).requested_counts(),
            !consistent ==> final(self).requested_counts() == counts@,
    {
        if counts_equal(counts, &self.requested) {
            self.complete = true;
            true
        } else {
            self.requested = counts.clone();
            proof {
                assert(self.requested@ =~= counts@);
            }
            false
        }
    }

    /// Whether the probe found nothing to fetch: when every requested
    /// count is zero, the allocate-and-reissue dance is skipped entirely
    /// and the read's result is empty.
    pub fn nothing_to_fetch(&self) -> (r: bool)
        ensures
            r <==> (forall|i: int|
                0 <= i < self.requested_counts().len() ==> self.requested_counts()[i] == 0),
    {
        let mut i: usize = 0;
        while i < self.requested.len()
            invariant
                0 <= i <= self.requested@.len(),
                forall|j: int| 0 <= j < i ==> self.requested@[j] == 0,
            decreases self.requested@.len() - i,
        {
            if self.requested[i] != 0 {
                proof {
                    assert(self.requested_counts()[i as int] != 0);
                }
                return false;
            }
            i += 1;
        }
        true
    }

    /// The number of elements requested for the array at the given slot.
    pub fn requested_count(&self, i: usize) -> (r: u32)
        requires
            i < self.requested_counts().len(),
        ensures
            r == self.requested_counts()[i as int],
    {
        self.requested[i]
    }

    /// How many arrays this read carries.
    pub fn width(&self) -> (r: usize)
        ensures
            r == self.requested_counts().len(),
    {
        self.requested.len()
    }
}

} // verus!
