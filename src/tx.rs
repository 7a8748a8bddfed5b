//! The life of a transaction, and the insertion of a batch of records under
//! one transaction, as state machines: the caller performs each action that
//! they return and reports how it went.
use vstd::prelude::*;

verus! {

#[derive(Debug, Clone, Copy, PartialEq, Eq, Structural)]
pub enum TxState {
    /// Begun; neither committed nor rolled back.
    Active,
    /// A statement failed; the transaction must be rolled back.
    Failed,
    Committed,
    RolledBack,
}

/// What the caller does next.
#[derive(Debug, Clone, Copy, PartialEq, Eq, Structural)]
pub enum TxAction {
    /// Insert the record at this position.
    Insert(usize),
    Commit,
    Rollback,
    /// Nothing is left to do.
    Done,
}

/// What a transaction that is left without a commit must do: an active or
/// failed one is rolled back, a finished one needs nothing.
pub fn exit_action(state: TxState) -> (r: TxAction)
    ensures
        (state is Active || state is Failed) ==> r == TxAction::Rollback,
        (state is Committed || state is RolledBack) ==> r == TxAction::Done,
{
    match state {
        TxState::Active | TxState::Failed => TxAction::Rollback,
        _ => TxAction::Done,
    }
}

/// Inserting `total` records in one transaction.
#[derive(Debug, Clone, Copy, PartialEq, Eq, Structural)]
pub struct InsertBatch {
    pub total: usize,
    pub inserted: usize,
    pub state: TxState,
}

impl InsertBatch {
    pub open spec fn wf(&self) -> bool {
        &&& self.inserted <= self.total
        &&& self.state is Committed ==> self.inserted == self.total
    }

    pub open spec fn spec_next(&self) -> TxAction {
        match self.state {
            TxState::Active => if self.inserted < self.total {
                TxAction::Insert(self.inserted)
            } else {
                TxAction::Commit
            },
            TxState::Failed => TxAction::Rollback,
            _ => TxAction::Done,
        }
    }

    /// The batch after the insert that `spec_next` asked for went well or not.
    pub open spec fn after_insert(&self, ok: bool) -> InsertBatch {
        if ok {
            InsertBatch { inserted: (self.inserted + 1) as usize, ..*self }
        } else {
            InsertBatch { state: TxState::Failed, ..*self }
        }
    }

    /// The records that others see: those of a committed batch, else none.
    pub open spec fn spec_visible(&self) -> nat {
        if self.state is Committed {
            self.inserted as nat
        } else {
            0
        }
    }

    pub fn new(total: usize) -> (r: InsertBatch)
        ensures
            r == (InsertBatch { total, inserted: 0, state: TxState::Active }),
            r.wf(),
    {
        InsertBatch { total, inserted: 0, state: TxState::Active }
    }

    pub fn next_action(&self) -> (r: TxAction)
        ensures
            r == self.spec_next(),
    {
        match self.state {
            TxState::Active => if self.inserted < self.total {
                TxAction::Insert(self.inserted)
            } else {
                TxAction::Commit
            },
            TxState::Failed => TxAction::Rollback,
            _ => TxAction::Done,
        }
    }

    /// Records how an insert went: a failure fails the whole batch.
    pub fn record_insert(&mut self, ok: bool)
        requires
            old(self).wf(),
            old(self).spec_next() is Insert,
        ensures
            *final(self) == old(self).after_insert(ok),
            final(self).wf(),
    {
        if ok {
            self.inserted = self.inserted + 1;
        } else {
            self.state = TxState::Failed;
        }
    }

    /// Records how the commit went: a failed commit leaves nothing written.
    pub fn record_commit(&mut self, ok: bool)
        requires
            old(self).wf(),
            old(self).spec_next() is Commit,
        ensures
            *final(self) == (InsertBatch {
                state: if ok {
                    TxState::Committed
                } else {
                    TxState::RolledBack
                },
                ..*old(self)
            }),
            final(self).wf(),
    {
        if ok {
            self.state = TxState::Committed;
        } else {
            self.state = TxState::RolledBack;
        }
    }

    /// Records the rollback of a failed batch.
    pub fn record_rollback(&mut self)
        requires
            old(self).wf(),
            old(self).spec_next() is Rollback,
        ensures
            *final(self) == (InsertBatch { state: TxState::RolledBack, ..*old(self) }),
            final(self).wf(),
    {
        self.state = TxState::RolledBack;
    }

    pub fn visible(&self) -> (r: usize)
        ensures
            r == self.spec_visible(),
    {
        if let TxState::Committed = self.state {
            self.inserted
        } else {
            0
        }
    }
}

/// The batch after the caller has performed the inserts it asked for, with
/// the outcomes `oks` in order, for as long as it asked for inserts.
pub open spec fn after_inserts(b: InsertBatch, oks: Seq<bool>) -> InsertBatch
    decreases oks.len(),
{
    if oks.len() > 0 && b.spec_next() is Insert {
        after_inserts(b.after_insert(oks[0]), oks.skip(1))
    } else {
        b
    }
}

/// The batch once the caller is done: the commit, if one was asked for, went
/// as `commit_ok` says; a failed batch was rolled back.
pub open spec fn finished(b: InsertBatch, commit_ok: bool) -> InsertBatch {
    match b.spec_next() {
        TxAction::Commit => InsertBatch {
            state: if commit_ok {
                TxState::Committed
            } else {
                TxState::RolledBack
            },
            ..b
        },
        TxAction::Rollback => InsertBatch { state: TxState::RolledBack, ..b },
        _ => b,
    }
}

proof fn lemma_failure_fails(b: InsertBatch, oks: Seq<bool>, i: int)
    requires
        b.wf(),
        b.state is Active,
        0 <= i < oks.len(),
        b.inserted + i < b.total,
        !oks[i],
    ensures
        after_inserts(b, oks).state is Failed,
    decreases oks.len(),
{
    if oks[0] {
        lemma_failure_fails(b.after_insert(true), oks.skip(1), i - 1);
    } else {
        let f = b.after_insert(false);
        assert(after_inserts(f, oks.skip(1)) == f);
    }
}

proof fn lemma_all_ok(b: InsertBatch, oks: Seq<bool>)
    requires
        b.wf(),
        b.state is Active,
        oks.len() >= b.total - b.inserted,
        forall|j: int| 0 <= j < oks.len() ==> oks[j],
    ensures
        after_inserts(b, oks).state is Active,
        after_inserts(b, oks).inserted == b.total,
        after_inserts(b, oks).total == b.total,
    decreases oks.len(),
{
    if b.inserted < b.total {
        assert(oks.skip(1).len() == oks.len() - 1);
        lemma_all_ok(b.after_insert(oks[0]), oks.skip(1));
    }
}

/// A batch in which an insert fails leaves no record visible, whatever
/// happens to the commit; a batch whose inserts and commit all succeed leaves
/// all of its records visible.
pub proof fn lemma_batch_atomic(total: usize, oks: Seq<bool>, commit_ok: bool)
    ensures
        (exists|i: int| 0 <= i < oks.len() && i < total && !oks[i]) ==> finished(
            after_inserts(InsertBatch { total, inserted: 0, state: TxState::Active }, oks),
            commit_ok,
        ).spec_visible() == 0,
        (oks.len() >= total && forall|j: int| 0 <= j < oks.len() ==> oks[j]) ==> commit_ok
            ==> finished(
            after_inserts(InsertBatch { total, inserted: 0, state: TxState::Active }, oks),
            commit_ok,
        ).spec_visible() == total,
{
    let b = InsertBatch { total, inserted: 0, state: TxState::Active };
    if exists|i: int| 0 <= i < oks.len() && i < total && !oks[i] {
        let i = choose|i: int| 0 <= i < oks.len() && i < total && !oks[i];
        lemma_failure_fails(b, oks, i);
    }
    if oks.len() >= total && forall|j: int| 0 <= j < oks.len() ==> oks[j] {
        lemma_all_ok(b, oks);
        let a = after_inserts(b, oks);
        assert(a.spec_next() == TxAction::Commit);
        if commit_ok {
            assert(finished(a, commit_ok).state is Committed);
            assert(finished(a, commit_ok).inserted == total);
        }
    }
}

} // verus!
