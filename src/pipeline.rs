use vstd::prelude::*;

use crate::record::{has_definitions, Record, RecordView};
use crate::store::{lemma_write_wf, wf, write_record, Tables};

verus! {

/// Where a run stands: reading the next line, waiting for an entry's write
/// to commit, or terminated.
#[derive(PartialEq, Eq, Structural, Clone, Copy, Debug)]
pub enum RunState {
    Reading,
    Writing,
    Succeeded,
    Failed,
}

/// What the caller does next.
#[derive(PartialEq, Eq, Structural, Clone, Copy, Debug)]
pub enum Action {
    /// Store the entry just handed over, as one unit of work.
    Write,
    /// Drop the entry just handed over (it has no definitions) and read on.
    Skip,
    /// Read the next line.
    ReadNext,
    /// Process no further lines; the run is over.
    Stop,
}

/// Decisions of one batch run over the input lines: decode, filter, write,
/// stop at the first failure.
pub struct Pipeline {
    pub state: RunState,
    /// The entries whose writes have committed, in order.
    pub committed: Ghost<Seq<RecordView>>,
    /// The entry handed out for writing and not yet answered.
    pub pending: Ghost<RecordView>,
}

/// The store after the given entries are committed, in order, on top of `t`.
pub open spec fn committed_store(t: Tables, history: Seq<RecordView>) -> Tables
    decreases history.len(),
{
    if history.len() == 0 {
        t
    } else {
        write_record(committed_store(t, history.drop_last()), history.last())
    }
}

/// Whatever entries a run commits, the store invariant holds afterward when
/// it held before.
pub proof fn lemma_committed_wf(t: Tables, history: Seq<RecordView>)
    requires
        wf(t),
    ensures
        wf(committed_store(t, history)),
    decreases history.len(),
{
    if history.len() > 0 {
        lemma_committed_wf(t, history.drop_last());
        lemma_write_wf(committed_store(t, history.drop_last()), history.last());
    }
}

impl Pipeline {
    /// A run that has read nothing yet.
    pub fn new() -> (p: Pipeline)
        ensures
            p.state == RunState::Reading,
            p.committed@ == Seq::<RecordView>::empty(),
    {
        Pipeline {
            state: RunState::Reading,
            committed: Ghost(Seq::empty()),
            pending: Ghost(arbitrary()),
        }
    }

    /// A line decoded into `record`: an entry with definitions is written,
    /// one without is skipped and the run goes on.
    pub fn on_record(&mut self, record: &Record) -> (a: Action)
        ensures
            old(self).state == RunState::Reading && has_definitions(record@) ==> a == Action::Write
                && final(self).state == RunState::Writing && final(self).pending@ == record@,
            old(self).state == RunState::Reading && !has_definitions(record@) ==> a == Action::Skip
                && final(self).state == RunState::Reading,
            final(self).committed@ == old(self).committed@,
            old(self).state != RunState::Reading ==> a == Action::Stop && final(self).state == old(
                self,
            ).state,
    {
        match self.state {
            RunState::Reading => {
                if record.has_any_definitions() {
                    self.state = RunState::Writing;
                    self.pending = Ghost(record@);
                    Action::Write
                } else {
                    Action::Skip
                }
            },
            _ => Action::Stop,
        }
    }

    /// A line that does not decode ends the run as failed.
    pub fn on_decode_error(&mut self) -> (a: Action)
        ensures
            a == Action::Stop,
            final(self).committed@ == old(self).committed@,
            old(self).state == RunState::Reading ==> final(self).state == RunState::Failed,
            old(self).state != RunState::Reading ==> final(self).state == old(self).state,
    {
        if self.state == RunState::Reading {
            self.state = RunState::Failed;
        }
        Action::Stop
    }

    /// The outcome of the pending write: after a commit the run reads on,
    /// after a failure it ends as failed, with no retry.
    pub fn on_write_result(&mut self, committed: bool) -> (a: Action)
        ensures
            old(self).state == RunState::Writing && committed ==> a == Action::ReadNext
                && final(self).state == RunState::Reading && final(self).committed@ == old(
                self,
            ).committed@.push(old(self).pending@),
            old(self).state == RunState::Writing && !committed ==> a == Action::Stop
                && final(self).state == RunState::Failed,
            !(old(self).state == RunState::Writing && committed) ==> final(self).committed@ == old(
                self,
            ).committed@,
            old(self).state != RunState::Writing ==> a == Action::Stop && final(self).state == old(
                self,
            ).state,
    {
        if self.state == RunState::Writing {
            if committed {
                self.state = RunState::Reading;
                self.committed = Ghost(self.committed@.push(self.pending@));
                Action::ReadNext
            } else {
                self.state = RunState::Failed;
                Action::Stop
            }
        } else {
            Action::Stop
        }
    }

    /// The input is exhausted: a run still reading has succeeded.
    pub fn on_end_of_input(&mut self) -> (a: Action)
        ensures
            a == Action::Stop,
            final(self).committed@ == old(self).committed@,
            old(self).state == RunState::Reading ==> final(self).state == RunState::Succeeded,
            old(self).state != RunState::Reading ==> final(self).state == old(self).state,
    {
        if self.state == RunState::Reading {
            self.state = RunState::Succeeded;
        }
        Action::Stop
    }

    /// Whether the run has terminated, either way.
    pub fn is_finished(&self) -> (r: bool)
        ensures
            r == (self.state == RunState::Succeeded || self.state == RunState::Failed),
    {
        self.state == RunState::Succeeded || self.state == RunState::Failed
    }

    /// Whether the run has terminated successfully.
    pub fn succeeded(&self) -> (r: bool)
        ensures
            r == (self.state == RunState::Succeeded),
    {
        self.state == RunState::Succeeded
    }
}

} // verus!
