//! The backtest queue.
use vstd::prelude::*;

use crate::server::message::instruction::BacktestRequestInstruction;
use crate::text::{decimal, decimal_string};

verus! {

/// The state of a backtest task.
#[derive(Debug, Clone, Copy, PartialEq, Eq, Structural)]
pub enum BacktestTaskStatus {
    Queueing,
    Running,
    Completed,
    Failed,
    Canceled,
    NotFound,
}

/// What a client is told of a backtest task (`{"ref": ..., "status": ...}`
/// on the wire).
#[derive(Debug, Clone, PartialEq, Eq)]
pub struct BacktestTaskInfo {
    pub reference: String,
    pub status: BacktestTaskStatus,
}

/// A backtest task.
pub struct BacktestTask {
    reference: String,
    status: BacktestTaskStatus,
}

impl BacktestTask {
    /// A task with the given reference and status.
    pub fn new(ref_str: String, status: BacktestTaskStatus) -> (res: BacktestTask)
        ensures
            res.reference() == ref_str@,
            res.status() == status,
    {
        BacktestTask { reference: ref_str, status }
    }

    /// The reference of the task.
    pub closed spec fn reference(&self) -> Seq<char> {
        self.reference@
    }

    /// The status of the task.
    pub closed spec fn status(&self) -> BacktestTaskStatus {
        self.status
    }

    /// What a client is told of the task.
    pub fn get_info(&self) -> (res: BacktestTaskInfo)
        ensures
            res.reference@ == self.reference(),
            res.status == self.status(),
    {
        BacktestTaskInfo { reference: self.reference.clone(), status: self.status }
    }
}

/// The queue of backtest tasks, with a limit on its length.
pub struct BacktestManager {
    queue_limit: usize,
    task_queue: Vec<BacktestTask>,
}

/// The error a full queue refuses a new task with.
pub open spec fn queue_full_message(limit: nat) -> Seq<char> {
    "Backtest queue is full (limit: "@ + decimal(limit) + ")"@
}

impl BacktestManager {
    /// An empty queue with the given limit.
    pub fn new(queue_limit: usize) -> (res: BacktestManager)
        ensures
            res.queue_limit() == queue_limit,
            res.queue_len() == 0,
    {
        BacktestManager { queue_limit, task_queue: Vec::new() }
    }

    /// The limit on the queue's length.
    pub closed spec fn queue_limit(&self) -> nat {
        self.queue_limit as nat
    }

    /// The number of queued tasks.
    pub closed spec fn queue_len(&self) -> nat {
        self.task_queue@.len()
    }

    /// Asks for a task. A full queue refuses; otherwise the answer is a task
    /// with an empty reference in state `Canceled`, and the queue is left as
    /// it was (tasks are not run yet).
    pub fn new_task(&self, instr: &BacktestRequestInstruction) -> (res: Result<BacktestTaskInfo, String>)
        ensures
            res is Err <==> self.queue_len() >= self.queue_limit(),
            res matches Err(m) ==> m@ == queue_full_message(self.queue_limit()),
            res matches Ok(info) ==> info.reference@ == Seq::<char>::empty() && info.status
                == BacktestTaskStatus::Canceled,
    {
        if self.task_queue.len() >= self.queue_limit {
            let mut m = String::from_str("Backtest queue is full (limit: ");
            let digits = decimal_string(self.queue_limit as u64);
            m.append(digits.as_str());
            m.append(")");
            return Err(m);
        }
        let task = BacktestTask::new(String::new(), BacktestTaskStatus::Canceled);
        Ok(task.get_info())
    }

    /// Cancels a task: no task is ever found, so the answer is the reference
    /// with `NotFound`.
    pub fn cancel_task(&self, reference: &String) -> (res: Result<BacktestTaskInfo, String>)
        ensures
            res matches Ok(info) && info.reference@ == reference@ && info.status == BacktestTaskStatus::NotFound,
    {
        Ok(BacktestTaskInfo { reference: reference.clone(), status: BacktestTaskStatus::NotFound })
    }

    /// Queries a task: no task is ever found, so the answer is the reference
    /// with `NotFound`.
    pub fn query_task(&self, reference: &String) -> (res: Result<BacktestTaskInfo, String>)
        ensures
            res matches Ok(info) && info.reference@ == reference@ && info.status == BacktestTaskStatus::NotFound,
    {
        Ok(BacktestTaskInfo { reference: reference.clone(), status: BacktestTaskStatus::NotFound })
    }
}

} // verus!
