//! The work queue: a forward cursor over the indices of the input list.
//!
//! Workers share one queue behind a lock and call [`WorkQueue::claim_next`]
//! in whatever order they win the lock. The laws below are stated over the
//! sequence of claims in that order, so they hold for every interleaving.

use vstd::prelude::*;

verus! {

/// What a work queue stands for: `len` indices, of which the first `claimed`
/// have been handed out.
pub struct QueueModel {
    pub claimed: nat,
    pub len: nat,
}

impl QueueModel {
    /// No more indices are handed out than there are.
    pub open spec fn wf(self) -> bool {
        self.claimed <= self.len
    }

    /// A queue over `len` indices, none of them handed out.
    pub open spec fn fresh(len: nat) -> QueueModel {
        QueueModel { claimed: 0, len }
    }

    /// What the next claim returns: the lowest index not handed out yet, if
    /// there is one.
    pub open spec fn grant(self) -> Option<nat> {
        if self.claimed < self.len {
            Some(self.claimed)
        } else {
            None
        }
    }

    /// The queue after one claim. An exhausted queue does not change.
    pub open spec fn after_claim(self) -> QueueModel {
        if self.claimed < self.len {
            QueueModel { claimed: self.claimed + 1, len: self.len }
        } else {
            self
        }
    }

    /// The queue after `k` claims.
    pub open spec fn after_claims(self, k: nat) -> QueueModel
        decreases k,
    {
        if k == 0 {
            self
        } else {
            self.after_claims((k - 1) as nat).after_claim()
        }
    }

    /// What claim number `k` returns, counting from zero.
    pub open spec fn claim_at(self, k: nat) -> Option<nat> {
        self.after_claims(k).grant()
    }

    /// The indices handed out by the first `k` claims, in the order of the
    /// claims.
    pub open spec fn granted(self, k: nat) -> Seq<nat>
        decreases k,
    {
        if k == 0 {
            Seq::empty()
        } else {
            let before = self.granted((k - 1) as nat);
            match self.claim_at((k - 1) as nat) {
                Some(i) => before.push(i),
                None => before,
            }
        }
    }

    /// Whether every index has been handed out.
    pub open spec fn exhausted(self) -> bool {
        self.claimed >= self.len
    }
}

/// The indices that `worker` is granted when the claims arrive in the order
/// `schedule`: claim number `k` is made by worker `schedule[k]` on a queue
/// that starts out fresh over `len` indices.
pub open spec fn claims_of(len: nat, schedule: Seq<nat>, worker: nat) -> Set<nat> {
    Set::new(
        |i: nat|
            exists|k: nat|
                k < schedule.len() && schedule[k as int] == worker && #[trigger] QueueModel::fresh(
                    len,
                ).claim_at(k) == Some(i),
    )
}

/// A cursor over the indices `0..len` of the input list.
pub struct WorkQueue {
    next: usize,
    len: usize,
}

impl View for WorkQueue {
    type V = QueueModel;

    closed spec fn view(&self) -> QueueModel {
        QueueModel { claimed: self.next as nat, len: self.len as nat }
    }
}

impl WorkQueue {
    #[verifier::type_invariant]
    spec fn inv(self) -> bool {
        self.next <= self.len
    }

    /// A queue over the indices of `num_files` input files.
    pub fn new(num_files: usize) -> (queue: WorkQueue)
        ensures
            queue@ == QueueModel::fresh(num_files as nat),
    {
        WorkQueue { next: 0, len: num_files }
    }

    /// Hands out the next unclaimed index, or nothing once all are claimed.
    pub fn claim_next(&mut self) -> (claim: Option<usize>)
        ensures
            final(self)@ == old(self)@.after_claim(),
            final(self)@.wf(),
            match claim {
                Some(i) => old(self)@.grant() == Some(i as nat),
                None => old(self)@.grant() is None,
            },
    {
        proof {
            use_type_invariant(&*self);
        }
        if self.next < self.len {
            let i = self.next;
            self.next = i + 1;
            Some(i)
        } else {
            None
        }
    }

    /// The number of indices the queue was made over.
    pub fn len(&self) -> (n: usize)
        ensures
            n == self@.len,
            self@.wf(),
    {
        proof {
            use_type_invariant(self);
        }
        self.len
    }

    /// The number of indices handed out so far.
    pub fn claimed(&self) -> (n: usize)
        ensures
            n == self@.claimed,
            self@.wf(),
    {
        proof {
            use_type_invariant(self);
        }
        self.next
    }

    /// The number of indices still to hand out.
    pub fn remaining(&self) -> (n: usize)
        ensures
            n == self@.len - self@.claimed,
            self@.wf(),
    {
        proof {
            use_type_invariant(self);
        }
        self.len - self.next
    }

    /// Whether the next claim will return nothing.
    pub fn is_exhausted(&self) -> (b: bool)
        ensures
            b == self@.exhausted(),
            b == (self@.grant() is None),
            self@.wf(),
    {
        proof {
            use_type_invariant(self);
        }
        self.next >= self.len
    }
}

/// The cursor only moves forward, one index at a time, and never past the
/// end of the list.
pub proof fn law_cursor_is_monotonic_and_bounded(queue: QueueModel)
    requires
        queue.wf(),
    ensures
        queue.after_claim().wf(),
        queue.after_claim().len == queue.len,
        queue.claimed <= queue.after_claim().claimed <= queue.claimed + 1,
        queue.after_claim().claimed == queue.claimed <==> queue.grant() is None,
{
}

/// After `k` claims on a fresh queue, `min(k, len)` indices are handed out.
pub proof fn lemma_after_claims(len: nat, k: nat)
    ensures
        QueueModel::fresh(len).after_claims(k) == (QueueModel {
            claimed: if k < len { k } else { len },
            len,
        }),
    decreases k,
{
    if k > 0 {
        lemma_after_claims(len, (k - 1) as nat);
    }
}

/// Claims on a fresh queue return the indices in order, then nothing: claim
/// number `k` returns `k` while `k < len`, and nothing from then on.
pub proof fn law_claims_in_order(len: nat, k: nat)
    ensures
        QueueModel::fresh(len).claim_at(k) == (if k < len { Some(k) } else { None }),
{
    lemma_after_claims(len, k);
}

/// Every index below `len` is returned by exactly one claim: no index is
/// handed out twice and none is skipped.
pub proof fn law_each_index_claimed_once(len: nat, i: nat, k: nat)
    requires
        i < len,
    ensures
        QueueModel::fresh(len).claim_at(k) == Some(i) <==> k == i,
{
    law_claims_in_order(len, k);
}

/// Once `len` or more claims have been made, the indices handed out are
/// exactly `0, 1, .., len - 1`, each once.
pub proof fn law_granted_is_every_index(len: nat, k: nat)
    ensures
        QueueModel::fresh(len).granted(k) == Seq::new(
            if k < len { k } else { len },
            |i: int| i as nat,
        ),
        k >= len ==> QueueModel::fresh(len).granted(k).len() == len,
    decreases k,
{
    let q = QueueModel::fresh(len);
    if k > 0 {
        law_granted_is_every_index(len, (k - 1) as nat);
        law_claims_in_order(len, (k - 1) as nat);
        assert(q.granted(k) =~= Seq::new(if k < len { k } else { len }, |i: int| i as nat));
    } else {
        assert(q.granted(k) =~= Seq::new(0, |i: int| i as nat));
    }
}

/// A claim on an exhausted queue returns nothing and leaves the queue as it
/// was, however many such claims are made.
pub proof fn law_surplus_claims_change_nothing(len: nat, k: nat)
    requires
        k >= len,
    ensures
        QueueModel::fresh(len).claim_at(k) is None,
        QueueModel::fresh(len).after_claims(k + 1) == QueueModel::fresh(len).after_claims(k),
        QueueModel::fresh(len).after_claims(k) == QueueModel::fresh(len).after_claims(len),
        QueueModel::fresh(len).granted(k) == QueueModel::fresh(len).granted(len),
{
    lemma_after_claims(len, k);
    lemma_after_claims(len, k + 1);
    lemma_after_claims(len, len);
    law_granted_is_every_index(len, k);
    law_granted_is_every_index(len, len);
}

/// Under every interleaving each index has exactly one owner: when at
/// least `len` claims are made, index `i` goes to the worker that made claim
/// number `i`, and to no other worker.
pub proof fn law_every_index_has_one_owner(len: nat, schedule: Seq<nat>, i: nat)
    requires
        i < len <= schedule.len(),
    ensures
        claims_of(len, schedule, schedule[i as int]).contains(i),
        forall|w: nat| claims_of(len, schedule, w).contains(i) ==> w == schedule[i as int],
{
    let q = QueueModel::fresh(len);
    law_claims_in_order(len, i);
    assert(q.claim_at(i) == Some(i));
    assert forall|w: nat| claims_of(len, schedule, w).contains(i) implies w == schedule[i as int] by {
        let k = choose|k: nat|
            k < schedule.len() && schedule[k as int] == w && #[trigger] q.claim_at(k) == Some(i);
        law_each_index_claimed_once(len, i, k);
    }
}

/// A worker is granted only indices of the input list, whatever the
/// interleaving and however many workers there are.
pub proof fn law_claims_are_indices(len: nat, schedule: Seq<nat>, worker: nat, i: nat)
    requires
        claims_of(len, schedule, worker).contains(i),
    ensures
        i < len,
{
    let q = QueueModel::fresh(len);
    let k = choose|k: nat|
        k < schedule.len() && schedule[k as int] == worker && #[trigger] q.claim_at(k) == Some(i);
    law_claims_in_order(len, k);
}

/// A worker whose claims all come after the first `len` is granted nothing:
/// with more workers than files, those that find the queue exhausted do no
/// work.
pub proof fn law_late_worker_is_granted_nothing(len: nat, schedule: Seq<nat>, worker: nat)
    requires
        forall|k: int| 0 <= k < schedule.len() && k < len ==> schedule[k] != worker,
    ensures
        claims_of(len, schedule, worker) == Set::<nat>::empty(),
{
    let q = QueueModel::fresh(len);
    assert forall|i: nat| !claims_of(len, schedule, worker).contains(i) by {
        if claims_of(len, schedule, worker).contains(i) {
            let k = choose|k: nat|
                k < schedule.len() && schedule[k as int] == worker && #[trigger] q.claim_at(k)
                    == Some(i);
            law_claims_in_order(len, k);
        }
    }
    assert(claims_of(len, schedule, worker) =~= Set::<nat>::empty());
}

} // verus!
