//! The protocol of a write that is all or nothing.
//!
//! The commands of one unit are run in order inside one transaction of the engine. After
//! each, the caller reports whether the engine took it. The unit is committed once every
//! command was taken, and rolled back as soon as one was not: no command is run after a
//! failure, and no unit with a failure is ever committed.

use vstd::prelude::*;

verus! {

/// What the caller is to do next.
#[derive(Debug, Clone, Copy, PartialEq, Eq, Structural)]
pub enum WriteAction {
    /// Run the command at this position and report how it went.
    Execute(usize),
    /// Every command was taken: make the unit visible.
    Commit,
    /// A command was refused: undo whatever the unit has written.
    Rollback,
}

/// How far a unit of `total` commands has come.
#[derive(Debug, Clone, Copy, PartialEq, Eq, Structural)]
pub struct AtomicWrite {
    pub total: usize,
    pub done: usize,
    pub failed: bool,
}

impl AtomicWrite {
    /// No more commands were taken than the unit has.
    pub open spec fn well_formed(self) -> bool {
        self.done <= self.total
    }

    /// The unit of `total` commands before any was run.
    pub open spec fn start(total: usize) -> AtomicWrite {
        AtomicWrite { total, done: 0, failed: false }
    }

    /// What is to be done next.
    pub open spec fn next(self) -> WriteAction {
        if self.failed {
            WriteAction::Rollback
        } else if self.done < self.total {
            WriteAction::Execute(self.done)
        } else {
            WriteAction::Commit
        }
    }

    /// The unit after the report on the command that was to be run. A report that comes when
    /// no command was to be run changes nothing.
    pub open spec fn after(self, succeeded: bool) -> AtomicWrite {
        if self.failed || self.done >= self.total {
            self
        } else if succeeded {
            AtomicWrite { done: (self.done + 1) as usize, ..self }
        } else {
            AtomicWrite { failed: true, ..self }
        }
    }

    /// The unit after a series of reports.
    pub open spec fn run(total: usize, reports: Seq<bool>) -> AtomicWrite
        decreases reports.len(),
    {
        if reports.len() == 0 {
            AtomicWrite::start(total)
        } else {
            AtomicWrite::run(total, reports.drop_last()).after(reports.last())
        }
    }

    /// Begins a unit of `total` commands.
    pub fn begin(total: usize) -> (w: AtomicWrite)
        ensures
            w == AtomicWrite::start(total),
            w.well_formed(),
    {
        AtomicWrite { total, done: 0, failed: false }
    }

    /// What the caller is to do next.
    pub fn next_action(&self) -> (a: WriteAction)
        ensures
            a == self.next(),
            self.well_formed() ==> (a == WriteAction::Commit <==> !self.failed && self.done
                == self.total),
    {
        if self.failed {
            WriteAction::Rollback
        } else if self.done < self.total {
            WriteAction::Execute(self.done)
        } else {
            WriteAction::Commit
        }
    }

    /// Takes the report on the command that was to be run.
    pub fn record(&mut self, succeeded: bool)
        ensures
            *final(self) == old(self).after(succeeded),
            old(self).well_formed() ==> final(self).well_formed(),
    {
        if !self.failed && self.done < self.total {
            if succeeded {
                self.done = self.done + 1;
            } else {
                self.failed = true;
            }
        }
    }
}

/// Whether one of the reports on the commands of the unit is a failure.
pub open spec fn has_failure(total: usize, reports: Seq<bool>) -> bool {
    exists|i: int| 0 <= i < reports.len() && i < total && !#[trigger] reports[i]
}

/// Where a unit stands after a series of reports: failed if one of its commands was refused,
/// else as far as the reports reach.
pub proof fn lemma_run(total: usize, reports: Seq<bool>)
    ensures
        AtomicWrite::run(total, reports).total == total,
        AtomicWrite::run(total, reports).well_formed(),
        has_failure(total, reports) ==> AtomicWrite::run(total, reports).failed,
        !has_failure(total, reports) ==> !AtomicWrite::run(total, reports).failed
            && AtomicWrite::run(total, reports).done == (if reports.len() < total {
            reports.len()
        } else {
            total as nat
        }),
    decreases reports.len(),
{
    if reports.len() > 0 {
        let before = reports.drop_last();
        lemma_run(total, before);
        let n = reports.len() - 1;
        if has_failure(total, before) {
            let i = choose|i: int| 0 <= i < before.len() && i < total && !#[trigger] before[i];
            assert(!reports[i]);
        } else if n < total && !reports[n] {
            assert(has_failure(total, reports));
        } else {
            assert forall|i: int| 0 <= i < reports.len() && i < total implies #[trigger] reports[i] by {
                if i < n {
                    assert(before[i] == reports[i]);
                }
            }
        }
    }
}

/// A unit one of whose commands was refused is rolled back, whatever was reported after.
pub proof fn lemma_failure_rolls_back(total: usize, reports: Seq<bool>)
    requires
        has_failure(total, reports),
    ensures
        AtomicWrite::run(total, reports).next() == WriteAction::Rollback,
{
    lemma_run(total, reports);
}

/// A unit is committed exactly when all of its commands were run and none was refused.
pub proof fn lemma_commit_needs_all(total: usize, reports: Seq<bool>)
    ensures
        AtomicWrite::run(total, reports).next() == WriteAction::Commit <==> reports.len() >= total
            && !has_failure(total, reports),
{
    lemma_run(total, reports);
}

/// While nothing was refused, the commands are run one by one in order.
pub proof fn lemma_runs_in_order(total: usize, reports: Seq<bool>)
    requires
        reports.len() < total,
        !has_failure(total, reports),
    ensures
        AtomicWrite::run(total, reports).next() == WriteAction::Execute(reports.len() as usize),
{
    lemma_run(total, reports);
}

} // verus!
