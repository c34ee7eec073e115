//! The background worker that runs the sleep job: when it runs a job on
//! the event loop's thread and when in the background, which notifications
//! it posts to the loop, and the steps of the job itself.

use vstd::prelude::*;
use crate::text::{decimal, u64_to_string};

verus! {

/// The worker's state: whether a background job is running.
#[derive(Debug, Clone, PartialEq)]
pub struct Worker {
    pub running: bool,
}

/// How a job is run.
#[derive(Debug, Clone, PartialEq)]
pub struct RunPlan {
    /// Run the job on the worker's runtime in the background (`true`), or
    /// block the event loop until it ends and hand back its result (`false`).
    pub background: bool,
    /// Post a `Notification` to the event loop as the job starts.
    pub notify_at_start: bool,
    /// Post a `Notification` to the event loop when the job ends.
    pub notify_at_end: bool,
}

/// The plan for a job: a background job notifies the loop when it starts
/// and when it ends; a blocking one notifies nobody.
pub open spec fn plan_for(background: bool) -> RunPlan {
    RunPlan { background, notify_at_start: background, notify_at_end: background }
}

/// The worker after starting a job: a background job keeps it busy; a
/// blocking one has ended by the time the call returns.
pub open spec fn started(w: Worker, background: bool) -> Worker {
    Worker { running: w.running || background }
}

/// The worker after its background job has ended.
pub open spec fn ended(w: Worker) -> Worker {
    Worker { running: false }
}

impl Worker {
    /// A worker that has run nothing yet.
    pub fn new() -> (w: Worker)
        ensures
            !w.running,
    {
        Worker { running: false }
    }

    /// Whether a background job is still running.
    pub fn is_busy(&self) -> (r: bool)
        ensures
            r == self.running,
    {
        self.running
    }

    /// Starts a job, in the background when `background`.
    pub fn start(&mut self, background: bool) -> (plan: RunPlan)
        ensures
            plan == plan_for(background),
            *final(self) == started(*old(self), background),
    {
        if background {
            self.running = true;
        }
        RunPlan { background, notify_at_start: background, notify_at_end: background }
    }

    /// The background job has ended.  Returns whether to post the
    /// `Notification` that the plan promised.
    pub fn job_ended(&mut self) -> (notify: bool)
        ensures
            *final(self) == ended(*old(self)),
            notify,
    {
        self.running = false;
        true
    }
}

/// A background job keeps the worker busy from its start until its end,
/// and the loop hears of both; a blocking job leaves the worker as it was
/// and posts nothing.
pub proof fn law_background_job_busy_until_end(w: Worker, background: bool)
    ensures
        background ==> started(w, background).running,
        background ==> !ended(started(w, background)).running,
        background ==> plan_for(background).notify_at_start && plan_for(background).notify_at_end,
        !background ==> started(w, background) == w,
        !background ==> !plan_for(background).notify_at_start && !plan_for(background).notify_at_end,
{
}

/// The sleep job: `time` one-second steps, each printing its number.
#[derive(Debug, Clone, PartialEq)]
pub struct SleepJob {
    pub time: u64,
    pub elapsed: u64,
}

/// The job after `n` more steps.
pub open spec fn stepped(job: SleepJob, n: nat) -> SleepJob {
    SleepJob { time: job.time, elapsed: (job.elapsed + n) as u64 }
}

impl SleepJob {
    /// A job of `time` seconds, none of them slept yet.
    pub fn new(time: u64) -> (job: SleepJob)
        ensures
            job.time == time,
            job.elapsed == 0,
    {
        SleepJob { time, elapsed: 0 }
    }

    /// Whether a step is left.
    pub fn pending(&self) -> (r: bool)
        ensures
            r == (self.elapsed < self.time),
    {
        self.elapsed < self.time
    }

    /// One step, taken after a second's sleep: returns the line to print,
    /// the step's number counted from one.
    pub fn tick(&mut self) -> (line: String)
        requires
            old(self).elapsed < old(self).time,
        ensures
            *final(self) == stepped(*old(self), 1),
            line@ == decimal(final(self).elapsed as nat),
    {
        self.elapsed = self.elapsed + 1;
        u64_to_string(self.elapsed)
    }

    /// The job's result once no step is left.
    pub fn result(&self) -> (r: String)
        ensures
            r@ == "finished"@,
    {
        String::from_str("finished")
    }
}

/// A fresh job of `time` seconds takes exactly `time` steps: before the
/// `k`-th of them (counted from one) it is pending and that step prints
/// `k`; after the last it is no longer pending.
pub proof fn law_sleep_job_steps(time: u64, k: nat)
    ensures
        1 <= k <= time ==> stepped(SleepJob { time, elapsed: 0 }, (k - 1) as nat).elapsed < time
            && stepped(stepped(SleepJob { time, elapsed: 0 }, (k - 1) as nat), 1).elapsed == k,
        !(stepped(SleepJob { time, elapsed: 0 }, time as nat).elapsed < time),
{
}

} // verus!
