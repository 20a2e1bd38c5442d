use vstd::prelude::*;

verus! {

/// A handle for the eventual completion of asynchronous GPU work. `id` is the
/// identity the device context minted for it; `satisfied` records whether the
/// GPU has confirmed completion. Identity 0 is the already-satisfied sentinel
/// a session starts from; minted identities start at 1.
#[derive(Clone, Copy, PartialEq, Eq, Structural, Debug)]
pub struct CompletionFuture {
    pub id: u64,
    pub satisfied: bool,
}

impl CompletionFuture {
    /// The already-satisfied future: what a fresh session, or a resynchronized
    /// tracker, waits on — that is, nothing.
    pub fn already_satisfied() -> (f: CompletionFuture)
        ensures
            f.id == 0,
            f.satisfied,
    {
        CompletionFuture { id: 0, satisfied: true }
    }
}

/// The composite dependency gating one frame's submission: the previous
/// frame's completion future joined with the acquired image's readiness
/// future. New work may start only once both are satisfied.
#[derive(Clone, Copy, PartialEq, Eq, Structural, Debug)]
pub struct FrameDependency {
    pub previous_frame_id: u64,
    pub acquire_id: u64,
}

/// Tracks the single outstanding "previous-frame completion" future and, as
/// ghost history, every join it has produced, every submission issued
/// against one, and the identity stored at every retire or
/// resynchronization. At most one frame is ever in flight: each submission
/// replaces the stored future wholesale at retire time.
pub struct FrameSyncTracker {
    pub previous_frame: CompletionFuture,
    pub joins: Ghost<Seq<FrameDependency>>,
    pub submissions: Ghost<Seq<FrameDependency>>,
    pub stores: Ghost<Seq<u64>>,
}

impl FrameSyncTracker {
    /// Submissions never outrun joins, the nth submission carries exactly
    /// the dependency the nth join produced, and the stored future is the
    /// one the latest retire or resynchronization left (the satisfied
    /// sentinel before any frame retired).
    pub open spec fn wf(&self) -> bool {
        &&& self.submissions@.len() <= self.joins@.len()
        &&& forall|n: int|
            0 <= n < self.submissions@.len() ==> self.submissions@[n] == self.joins@[n]
        &&& self.previous_frame.id == (if self.stores@.len() == 0 {
            0
        } else {
            self.stores@.last()
        })
    }

    /// A fresh tracker: nothing submitted yet, so the stored future is the
    /// already-satisfied sentinel and the first frame waits on nothing stale.
    pub fn new() -> (t: FrameSyncTracker)
        ensures
            t.wf(),
            t.previous_frame.satisfied,
            t.previous_frame.id == 0,
            t.joins@ == Seq::<FrameDependency>::empty(),
            t.submissions@ == Seq::<FrameDependency>::empty(),
            t.stores@ == Seq::<u64>::empty(),
    {
        FrameSyncTracker {
            previous_frame: CompletionFuture::already_satisfied(),
            joins: Ghost(Seq::empty()),
            submissions: Ghost(Seq::empty()),
            stores: Ghost(Seq::empty()),
        }
    }

    /// Non-blocking poll at the start of an iteration: records whether the
    /// GPU has meanwhile finished the stored frame, releasing its
    /// bookkeeping. Never stalls and never unsatisfies a satisfied future.
    pub fn cleanup_finished(&mut self, previous_done: bool)
        requires
            old(self).wf(),
        ensures
            final(self).wf(),
            final(self).previous_frame.id == old(self).previous_frame.id,
            final(self).previous_frame.satisfied == (old(self).previous_frame.satisfied
                || previous_done),
            final(self).joins@ == old(self).joins@,
            final(self).submissions@ == old(self).submissions@,
            final(self).stores@ == old(self).stores@,
    {
        if previous_done {
            self.previous_frame.satisfied = true;
        }
    }

    /// Joins the previous frame's completion future with a newly acquired
    /// image's readiness future: the sole dependency gating new submission.
    pub fn join(&mut self, acquire_id: u64) -> (dep: FrameDependency)
        requires
            old(self).wf(),
        ensures
            final(self).wf(),
            dep.previous_frame_id == old(self).previous_frame.id,
            dep.acquire_id == acquire_id,
            final(self).previous_frame == old(self).previous_frame,
            final(self).joins@ == old(self).joins@.push(dep),
            final(self).submissions@ == old(self).submissions@,
            final(self).stores@ == old(self).stores@,
    {
        let dep = FrameDependency { previous_frame_id: self.previous_frame.id, acquire_id };
        proof {
            self.joins@ = self.joins@.push(dep);
        }
        dep
    }

    /// Records that a submission was issued against `dep`. A submission may
    /// only be issued against the join produced for this very frame: the
    /// latest join, and one no earlier submission has consumed.
    pub fn record_submission(&mut self, dep: FrameDependency)
        requires
            old(self).wf(),
            old(self).joins@.len() == old(self).submissions@.len() + 1,
            dep == old(self).joins@.last(),
        ensures
            final(self).wf(),
            final(self).previous_frame == old(self).previous_frame,
            final(self).joins@ == old(self).joins@,
            final(self).submissions@ == old(self).submissions@.push(dep),
            final(self).stores@ == old(self).stores@,
    {
        proof {
            self.submissions@ = self.submissions@.push(dep);
        }
    }

    /// Retires the frame: the new completion future replaces the stored one,
    /// and the discarded future is waited out — the blocking variant, which
    /// bounds outstanding work to exactly one frame in flight. The returned
    /// handle is the discarded frame, confirmed complete by the wait.
    pub fn retire_and_wait(&mut self, next: CompletionFuture) -> (discarded: CompletionFuture)
        requires
            old(self).wf(),
        ensures
            final(self).wf(),
            final(self).previous_frame == next,
            final(self).joins@ == old(self).joins@,
            final(self).submissions@ == old(self).submissions@,
            final(self).stores@ == old(self).stores@.push(next.id),
            discarded.id == old(self).previous_frame.id,
            discarded.satisfied,
    {
        let mut discarded = self.previous_frame;
        discarded.satisfied = true;
        self.previous_frame = next;
        proof {
            self.stores@ = self.stores@.push(next.id);
        }
        discarded
    }

    /// Retires the frame without waiting on the discarded future: the
    /// non-blocking variant. The discarded handle comes back as it stood.
    pub fn retire_async(&mut self, next: CompletionFuture) -> (discarded: CompletionFuture)
        requires
            old(self).wf(),
        ensures
            final(self).wf(),
            final(self).previous_frame == next,
            final(self).joins@ == old(self).joins@,
            final(self).submissions@ == old(self).submissions@,
            final(self).stores@ == old(self).stores@.push(next.id),
            discarded == old(self).previous_frame,
    {
        let discarded = self.previous_frame;
        self.previous_frame = next;
        proof {
            self.stores@ = self.stores@.push(next.id);
        }
        discarded
    }

    /// After a failed submission or present, resets the stored future to an
    /// already-satisfied one, so the next iteration never stalls behind the
    /// failed frame.
    pub fn resynchronize(&mut self)
        requires
            old(self).wf(),
        ensures
            final(self).wf(),
            final(self).previous_frame.satisfied,
            final(self).previous_frame.id == 0,
            final(self).joins@ == old(self).joins@,
            final(self).submissions@ == old(self).submissions@,
            final(self).stores@ == old(self).stores@.push(0),
    {
        self.previous_frame = CompletionFuture::already_satisfied();
        proof {
            self.stores@ = self.stores@.push(0);
        }
    }
}

/// Law: command submission is gated on joining the previous frame's
/// completion future. In every well-formed tracker there are never more
/// submissions than joins, and the nth submission waits on exactly the
/// composite dependency the nth join produced.
pub proof fn lemma_submissions_follow_joins(t: FrameSyncTracker)
    requires
        t.wf(),
    ensures
        t.submissions@.len() <= t.joins@.len(),
        forall|n: int| 0 <= n < t.submissions@.len() ==> t.submissions@[n] == t.joins@[n],
{
}

} // verus!
