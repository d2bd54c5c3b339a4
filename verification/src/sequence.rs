//! Running tasks in order: each one is started only after every earlier one
//! has ended well, and the first failure ends the run.

use vstd::prelude::*;
use crate::command::{Outcome, Report, Task, TaskLine};
use crate::error::{AppError, Failure};

verus! {

/// What is to happen next in a run of tasks.
#[derive(Debug, PartialEq, Eq)]
pub enum Step {
    /// Run the command of the task at this index, then report.
    Run(usize),
    /// The run is over.
    Done(Result<(), AppError>),
}

/// A `Step` as contracts see it.
pub enum Position {
    Run(nat),
    Done(Result<(), Failure>),
}

impl View for Step {
    type V = Position;

    open spec fn view(&self) -> Position {
        match self {
            Step::Run(i) => Position::Run(*i as nat),
            Step::Done(r) => Position::Done(crate::error::outcome_of(*r)),
        }
    }
}

/// Each task of a sequence as contracts see it.
pub open spec fn task_lines(v: Seq<Task>) -> Seq<TaskLine> {
    v.map_values(|t: Task| t@)
}

/// Where a run begins: at the first task, or at its end where there is none.
pub open spec fn begin(tasks: Seq<TaskLine>) -> Position {
    if tasks.len() == 0 {
        Position::Done(Ok(()))
    } else {
        Position::Run(0)
    }
}

/// Where a run stands once the task at `current` has reported: at its end
/// with that task's error, at the next task, or at its end in success.
pub open spec fn after_report(tasks: Seq<TaskLine>, current: nat, outcome: Outcome) -> Position {
    match tasks[current as int].verdict(outcome) {
        Err(failure) => Position::Done(Err(failure)),
        Ok(_) => if current + 1 < tasks.len() {
            Position::Run(current + 1)
        } else {
            Position::Done(Ok(()))
        },
    }
}

/// Where a run stands after these reports, each for the task that was
/// running when it came. Reports that come after the end change nothing.
pub open spec fn after_reports(tasks: Seq<TaskLine>, outcomes: Seq<Outcome>) -> Position
    decreases outcomes.len(),
{
    if outcomes.len() == 0 {
        begin(tasks)
    } else {
        match after_reports(tasks, outcomes.drop_last()) {
            Position::Run(i) => after_report(tasks, i, outcomes.last()),
            Position::Done(r) => Position::Done(r),
        }
    }
}

/// The first step of a run.
pub fn first_step(tasks: &Vec<Task>) -> (step: Step)
    ensures
        step@ == begin(task_lines(tasks@)),
{
    if tasks.len() == 0 {
        Step::Done(Ok(()))
    } else {
        Step::Run(0)
    }
}

/// The step that follows the report of the task at `current`.
pub fn next_step(tasks: &Vec<Task>, current: usize, report: &Report) -> (step: Step)
    requires
        current < tasks.len(),
    ensures
        step@ == after_report(task_lines(tasks@), current as nat, report@),
        step matches Step::Run(i) ==> i == current + 1 && i < tasks.len(),
{
    match tasks[current].judge(report) {
        Err(e) => Step::Done(Err(e)),
        Ok(_) => if current + 1 < tasks.len() {
            Step::Run(current + 1)
        } else {
            Step::Done(Ok(()))
        },
    }
}

/// While every report is a success, the tasks are run one after the other
/// from the first.
pub proof fn lemma_runs_in_order(tasks: Seq<TaskLine>, outcomes: Seq<Outcome>, n: int)
    requires
        0 <= n <= outcomes.len(),
        n < tasks.len(),
        forall|j: int| 0 <= j < n ==> (#[trigger] outcomes[j]).succeeded(),
    ensures
        after_reports(tasks, outcomes.take(n)) == Position::Run(n as nat),
    decreases n,
{
    if n > 0 {
        lemma_runs_in_order(tasks, outcomes, n - 1);
        assert(outcomes.take(n).drop_last() =~= outcomes.take(n - 1));
        assert(outcomes.take(n).last() == outcomes[n - 1]);
        assert(outcomes[n - 1].succeeded());
    }
}

/// The first failure ends the run with the error of the task that failed:
/// the tasks before it were run in order, and after it none is.
pub proof fn lemma_first_failure_ends_run(
    tasks: Seq<TaskLine>,
    outcomes: Seq<Outcome>,
    k: int,
    n: int,
)
    requires
        0 <= k < tasks.len(),
        k < n <= outcomes.len(),
        forall|j: int| 0 <= j < k ==> (#[trigger] outcomes[j]).succeeded(),
        !outcomes[k].succeeded(),
    ensures
        tasks[k].verdict(outcomes[k]) is Err,
        after_reports(tasks, outcomes.take(n)) == Position::Done(tasks[k].verdict(outcomes[k])),
    decreases n,
{
    assert(outcomes.take(n).drop_last() =~= outcomes.take(n - 1));
    assert(outcomes.take(n).last() == outcomes[n - 1]);
    if n == k + 1 {
        lemma_runs_in_order(tasks, outcomes, k);
    } else {
        lemma_first_failure_ends_run(tasks, outcomes, k, n - 1);
    }
}

/// Where every task ends well, the run ends in success after the last one.
pub proof fn lemma_all_succeed(tasks: Seq<TaskLine>, outcomes: Seq<Outcome>)
    requires
        outcomes.len() == tasks.len(),
        forall|j: int| 0 <= j < outcomes.len() ==> (#[trigger] outcomes[j]).succeeded(),
    ensures
        after_reports(tasks, outcomes) == Position::Done(Ok(())),
{
    if outcomes.len() > 0 {
        let n = outcomes.len() - 1;
        lemma_runs_in_order(tasks, outcomes, n);
        assert(outcomes.drop_last() =~= outcomes.take(n));
        assert(outcomes.last().succeeded());
    }
}

} // verus!
