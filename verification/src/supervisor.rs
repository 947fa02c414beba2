//! The process supervisor: the outer loop that launches the worker as a
//! child process, waits for it to exit, and relaunches it after a fixed
//! backoff, forever. The console SDK used by the worker can abort the whole
//! process when the console is unreachable, so recovery must come from
//! outside the worker.
//!
//! Spawning, waiting and sleeping happen in the binary around this library;
//! here stand the decisions: which role an invocation runs in, and what to
//! do when the worker exits.

use vstd::prelude::*;

verus! {

/// How long the supervisor waits before relaunching an exited worker.
pub const RELAUNCH_DELAY_SECS: u64 = 5;

/// Which role a process invocation runs in. The worker is marked by an
/// internal flag on its command line; everything else is a supervisor.
#[derive(Clone, Copy, Debug, PartialEq, Eq, Structural)]
pub enum Role {
    Supervisor,
    Worker,
}

/// Decide the role from the first command-line argument: the worker is
/// launched with the marker argument, any other invocation supervises.
pub fn decide_role(first_arg: Option<&String>) -> (r: Role)
    ensures
        (r == Role::Worker) <==> (first_arg matches Some(a) && a@ == "managed"@),
{
    match first_arg {
        Some(a) => {
            let marker: String = "managed".to_owned();
            if *a == marker {
                Role::Worker
            } else {
                Role::Supervisor
            }
        },
        None => Role::Supervisor,
    }
}

/// The supervisor's state: how many workers it has launched so far.
pub struct Supervisor {
    pub launches: u64,
}

impl Supervisor {
    /// A supervisor that has not launched a worker yet.
    pub fn new() -> (s: Supervisor)
        ensures
            s.launches == 0,
    {
        Supervisor { launches: 0 }
    }

    /// Record the first launch or a relaunch of the worker.
    pub fn record_launch(&mut self)
        requires
            old(self).launches < u64::MAX,
        ensures
            final(self).launches == old(self).launches + 1,
    {
        self.launches = self.launches + 1;
    }

    /// Decide what to do when the worker exits, for any exit reason: wait
    /// the fixed backoff, then relaunch exactly one new worker.
    pub fn on_worker_exit(&mut self) -> (delay_secs: u64)
        requires
            old(self).launches < u64::MAX,
        ensures
            delay_secs == RELAUNCH_DELAY_SECS,
            final(self).launches == old(self).launches + 1,
    {
        self.record_launch();
        RELAUNCH_DELAY_SECS
    }
}

} // verus!
