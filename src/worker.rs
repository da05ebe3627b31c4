//! The worker's poll loop, as decisions: how long to pause after each poll.
use vstd::prelude::*;

verus! {

/// What one poll of the work queue came to.
#[derive(Debug, Clone, Copy, PartialEq, Eq, Structural)]
pub enum PollResult {
    /// A job ran to its terminal record.
    Completed,
    /// The bounded wait elapsed with no envelope.
    Empty,
    /// The poll or the job failed.
    Failed,
}

/// The worker's pauses between polls, in seconds, and its bounded wait.
#[derive(Debug, Clone, Copy, PartialEq, Eq, Structural)]
pub struct Backoff {
    pub dequeue_wait_seconds: u64,
    pub idle_seconds: u64,
    pub error_seconds: u64,
}

impl Backoff {
    /// A wait of 5 seconds on the queue, a pause of 1 second when it was
    /// empty and of 5 seconds after a failure.
    pub fn new() -> (r: Backoff)
        ensures
            r.dequeue_wait_seconds == 5,
            r.idle_seconds == 1,
            r.error_seconds == 5,
    {
        Backoff { dequeue_wait_seconds: 5, idle_seconds: 1, error_seconds: 5 }
    }

    /// The pause before the next poll: none after a completed job, the idle
    /// pause after an empty queue, the error pause after a failure. The loop
    /// goes on in every case.
    pub fn pause_after(&self, result: PollResult) -> (r: u64)
        ensures
            r == match result {
                PollResult::Completed => 0,
                PollResult::Empty => self.idle_seconds,
                PollResult::Failed => self.error_seconds,
            },
    {
        match result {
            PollResult::Completed => 0,
            PollResult::Empty => self.idle_seconds,
            PollResult::Failed => self.error_seconds,
        }
    }
}

} // verus!
