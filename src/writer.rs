use vstd::prelude::*;

use crate::plan::{OpView, WriteOp, WritePlan};

verus! {

/// One statement against the open transaction of an entry's write.
pub enum StoreAction {
    /// Insert the word unless it is stored already.
    EnsureWord(String),
    /// Read back the identity of a word that was just ensured.
    LookupWordId(String),
    /// Insert-or-ignore a definition row.
    InsertDefinition { word_id: i64, pos: String, gloss: String },
    /// Insert-or-ignore a related-word edge.
    InsertRelated { word_id: i64, other_id: i64 },
    /// Insert-or-ignore a synonym edge.
    InsertSynonym { word_id: i64, other_id: i64 },
    /// Commit the transaction.
    Commit,
    /// Roll the transaction back: nothing of this entry stays.
    Rollback,
    /// Nothing more to run.
    Done,
}

/// The store's answer to the last action.
#[derive(PartialEq, Eq, Structural, Clone, Copy, Debug)]
pub enum Reply {
    /// The statement ran (for a commit: the transaction is committed).
    Applied,
    /// The identity that a lookup found.
    WordId(i64),
    /// The statement failed, or the lookup found no row.
    Failed,
}

/// What the session is waiting for.
#[derive(PartialEq, Eq, Structural, Clone, Copy, Debug)]
pub enum Stage {
    EnsurePrimary,
    LookupPrimary,
    InsertOp,
    EnsureOther,
    LookupOther,
    Committing,
    /// Terminated: `true` when the transaction committed.
    Finished(bool),
}

/// Drives one entry's write plan through a single transaction: resolve the
/// entry's word, run each planned write against its identity (resolving the
/// other word of each edge first), then commit; roll back at the first
/// failure.
pub struct WriteSession {
    pub plan: WritePlan,
    pub stage: Stage,
    /// Index of the planned write in progress.
    pub next: usize,
    /// Identity of the entry's own word, once looked up.
    pub word_id: i64,
}

/// The target word of an edge write.
pub open spec fn edge_target(op: OpView) -> Seq<char> {
    match op {
        OpView::Related(w) => w,
        OpView::Synonym(w) => w,
        OpView::Definition { .. } => Seq::empty(),
    }
}

/// `a` reads back the identity of `w`.
pub open spec fn looks_up(a: StoreAction, w: Seq<char>) -> bool {
    a matches StoreAction::LookupWordId(x) && x@ == w
}

/// `a` inserts the edge that `op` asks for, from `word_id` to `other_id`.
pub open spec fn inserts_edge(op: OpView, a: StoreAction, word_id: i64, other_id: i64) -> bool {
    match op {
        OpView::Related(_) => a == StoreAction::InsertRelated { word_id, other_id },
        _ => a == StoreAction::InsertSynonym { word_id, other_id },
    }
}

/// The reply that `stage` waits for has the right shape.
pub open spec fn expected(stage: Stage, reply: Reply) -> bool {
    match stage {
        Stage::LookupPrimary | Stage::LookupOther => reply is WordId,
        Stage::Finished(_) => false,
        _ => reply is Applied,
    }
}

/// `a` starts planned write `s.next`, or commits when all are done.
pub open spec fn issues_next(s: WriteSession, a: StoreAction) -> bool {
    if s.next < s.plan.ops@.len() {
        match s.plan.ops@[s.next as int]@ {
            OpView::Definition { pos, gloss } => {
                &&& s.stage == Stage::InsertOp
                &&& a matches StoreAction::InsertDefinition { word_id, pos: p, gloss: g }
                &&& word_id == s.word_id
                &&& p@ == pos
                &&& g@ == gloss
            },
            op => {
                &&& s.stage == Stage::EnsureOther
                &&& a matches StoreAction::EnsureWord(w)
                &&& w@ == edge_target(op)
            },
        }
    } else {
        s.stage == Stage::Committing && a is Commit
    }
}

impl WriteSession {
    /// The stage agrees with the position in the plan.
    pub open spec fn wf(&self) -> bool {
        &&& self.next <= self.plan.ops@.len()
        &&& match self.stage {
            Stage::InsertOp => self.next < self.plan.ops@.len(),
            Stage::EnsureOther | Stage::LookupOther => {
                &&& self.next < self.plan.ops@.len()
                &&& !(self.plan.ops@[self.next as int] is Definition)
            },
            Stage::Committing => self.next == self.plan.ops@.len(),
            _ => true,
        }
    }

    /// Opens the session; its first action ensures the entry's own word.
    pub fn start(plan: WritePlan) -> (r: (WriteSession, StoreAction))
        ensures
            r.0.wf(),
            r.0.plan == plan,
            r.0.stage == Stage::EnsurePrimary,
            r.0.next == 0,
            r.1 matches StoreAction::EnsureWord(w) && w@ == plan.word@,
    {
        let w = plan.word.clone();
        (WriteSession { plan, stage: Stage::EnsurePrimary, next: 0, word_id: 0 }, StoreAction::EnsureWord(w))
    }

    fn issue(&mut self) -> (a: StoreAction)
        requires
            old(self).next <= old(self).plan.ops@.len(),
        ensures
            final(self).plan == old(self).plan,
            final(self).next == old(self).next,
            final(self).word_id == old(self).word_id,
            final(self).wf(),
            issues_next(*final(self), a),
    {
        if self.next < self.plan.ops.len() {
            match &self.plan.ops[self.next] {
                WriteOp::Definition { pos, gloss } => {
                    self.stage = Stage::InsertOp;
                    StoreAction::InsertDefinition {
                        word_id: self.word_id,
                        pos: pos.clone(),
                        gloss: gloss.clone(),
                    }
                },
                WriteOp::Related(w) => {
                    self.stage = Stage::EnsureOther;
                    StoreAction::EnsureWord(w.clone())
                },
                WriteOp::Synonym(w) => {
                    self.stage = Stage::EnsureOther;
                    StoreAction::EnsureWord(w.clone())
                },
            }
        } else {
            self.stage = Stage::Committing;
            StoreAction::Commit
        }
    }

    /// Takes the store's reply to the last action and gives the next one.
    pub fn on_reply(&mut self, reply: Reply) -> (a: StoreAction)
        requires
            old(self).wf(),
        ensures
            final(self).wf(),
            final(self).plan == old(self).plan,
            old(self).stage is Finished ==> a is Done && *final(self) == *old(self),
            !(old(self).stage is Finished) && !expected(old(self).stage, reply) ==> a is Rollback
                && final(self).stage == Stage::Finished(false),
            old(self).stage == Stage::EnsurePrimary && reply is Applied ==> final(self).stage
                == Stage::LookupPrimary && looks_up(a, old(self).plan.word@),
            old(self).stage == Stage::LookupPrimary && reply is WordId ==> final(self).word_id
                == reply->WordId_0 && final(self).next == 0 && issues_next(*final(self), a),
            old(self).stage == Stage::InsertOp && reply is Applied ==> final(self).next == old(
                self,
            ).next + 1 && final(self).word_id == old(self).word_id && issues_next(*final(self), a),
            old(self).stage == Stage::EnsureOther && reply is Applied ==> final(self).stage
                == Stage::LookupOther && final(self).next == old(self).next && final(self).word_id
                == old(self).word_id && looks_up(
                a,
                edge_target(old(self).plan.ops@[old(self).next as int]@),
            ),
            old(self).stage == Stage::LookupOther && reply is WordId ==> final(self).stage
                == Stage::InsertOp && final(self).next == old(self).next && final(self).word_id
                == old(self).word_id && inserts_edge(
                old(self).plan.ops@[old(self).next as int]@,
                a,
                old(self).word_id,
                reply->WordId_0,
            ),
            old(self).stage == Stage::Committing && reply is Applied ==> a is Done
                && final(self).stage == Stage::Finished(true),
            a is Commit ==> final(self).next == final(self).plan.ops@.len(),
            final(self).stage == Stage::Finished(true) ==> old(self).stage == Stage::Committing
                || old(self).stage == Stage::Finished(true),
    {
        match (self.stage, reply) {
            (Stage::Finished(_), _) => StoreAction::Done,
            (Stage::EnsurePrimary, Reply::Applied) => {
                self.stage = Stage::LookupPrimary;
                StoreAction::LookupWordId(self.plan.word.clone())
            },
            (Stage::LookupPrimary, Reply::WordId(id)) => {
                self.word_id = id;
                self.next = 0;
                self.issue()
            },
            (Stage::InsertOp, Reply::Applied) => {
                let n = self.plan.ops.len();
                assert(self.next < n);
                self.next = self.next + 1;
                self.issue()
            },
            (Stage::EnsureOther, Reply::Applied) => {
                self.stage = Stage::LookupOther;
                match &self.plan.ops[self.next] {
                    WriteOp::Related(w) => StoreAction::LookupWordId(w.clone()),
                    WriteOp::Synonym(w) => StoreAction::LookupWordId(w.clone()),
                    // not reached: `wf` keeps definition writes out of this stage
                    WriteOp::Definition { .. } => StoreAction::Rollback,
                }
            },
            (Stage::LookupOther, Reply::WordId(id)) => {
                self.stage = Stage::InsertOp;
                match &self.plan.ops[self.next] {
                    WriteOp::Related(_) => StoreAction::InsertRelated {
                        word_id: self.word_id,
                        other_id: id,
                    },
                    _ => StoreAction::InsertSynonym { word_id: self.word_id, other_id: id },
                }
            },
            (Stage::Committing, Reply::Applied) => {
                self.stage = Stage::Finished(true);
                StoreAction::Done
            },
            _ => {
                self.stage = Stage::Finished(false);
                StoreAction::Rollback
            },
        }
    }

    /// Whether the session has terminated.
    pub fn is_finished(&self) -> (r: bool)
        ensures
            r == (self.stage is Finished),
    {
        match self.stage {
            Stage::Finished(_) => true,
            _ => false,
        }
    }

    /// Whether the entry's transaction committed.
    pub fn committed(&self) -> (r: bool)
        ensures
            r == (self.stage == Stage::Finished(true)),
    {
        self.stage == Stage::Finished(true)
    }
}

} // verus!
