use vstd::prelude::*;

use crate::record::{record_spec, Color, ContainerLog, LogView};

verus! {

/// What one poll of a source's log feed gave.
#[derive(Clone, Debug)]
pub enum PollOutcome {
    /// No line came within the per-read timeout.
    TimedOut,
    /// A raw line was read.
    Line(String),
    /// The feed ended.
    Ended,
    /// Reading failed.
    Failed,
}

/// What a stream worker does next.
#[derive(Clone, Debug)]
pub enum WorkerAction {
    /// Poll the feed again.
    Poll,
    /// Send this record to the aggregator, then poll again.
    Emit(ContainerLog),
    /// Leave: the session was cancelled, or the feed is done.
    Stop,
}

/// The action that follows `outcome` for the worker of the source with key `key`.
pub open spec fn worker_step_spec(key: Seq<char>, color: Color, cancelled: bool, outcome: PollOutcome) -> Option<Option<LogView>> {
    match outcome {
        PollOutcome::TimedOut => if cancelled {
            None
        } else {
            Some(None)
        },
        PollOutcome::Line(l) => Some(Some(record_spec(key, color, l@))),
        PollOutcome::Ended => None,
        PollOutcome::Failed => None,
    }
}

/// The plain view of an action: `None` to stop, `Some(None)` to poll again,
/// `Some(Some(r))` to send `r`.
pub open spec fn action_view(a: WorkerAction) -> Option<Option<LogView>> {
    match a {
        WorkerAction::Poll => Some(None),
        WorkerAction::Emit(r) => Some(Some(r@)),
        WorkerAction::Stop => None,
    }
}

/// A worker polls only while its session is not cancelled.
pub fn should_poll(cancelled: bool) -> (r: bool)
    ensures
        r == !cancelled,
{
    !cancelled
}

/// Decides a stream worker's next action. A timeout is retried unless the
/// session was cancelled; a line becomes a sanitized record; the end of the
/// feed or a read error ends this worker alone.
pub fn worker_step(key: &String, color: Color, cancelled: bool, outcome: PollOutcome) -> (r: WorkerAction)
    ensures
        action_view(r) == worker_step_spec(key@, color, cancelled, outcome),
{
    match outcome {
        PollOutcome::TimedOut => if cancelled {
            WorkerAction::Stop
        } else {
            WorkerAction::Poll
        },
        PollOutcome::Line(l) => WorkerAction::Emit(ContainerLog::from_line(key, color, l.as_str())),
        PollOutcome::Ended => WorkerAction::Stop,
        PollOutcome::Failed => WorkerAction::Stop,
    }
}

/// The bookkeeping of one tailing session: how many workers it has to start,
/// how many it started and how many have finished, and whether it was cancelled.
#[derive(Clone, Copy, Debug)]
pub struct Supervisor {
    pub total: usize,
    pub spawned: usize,
    pub exited: usize,
    pub cancelled: bool,
}

impl Supervisor {
    /// No worker started more than the planned number, nor finished more than started.
    pub open spec fn wf(&self) -> bool {
        self.exited <= self.spawned <= self.total
    }

    /// The state after one attempt to start a worker.
    pub open spec fn spawn_spec(self) -> Supervisor {
        if !self.cancelled && self.spawned < self.total {
            Supervisor { spawned: (self.spawned + 1) as usize, ..self }
        } else {
            self
        }
    }

    /// The state after `k` attempts to start a worker.
    pub open spec fn spawn_n(self, k: nat) -> Supervisor
        decreases k,
    {
        if k == 0 {
            self
        } else {
            self.spawn_n((k - 1) as nat).spawn_spec()
        }
    }

    /// The state after `k` started workers have finished.
    pub open spec fn exit_n(self, k: nat) -> Supervisor {
        Supervisor { exited: (self.exited + k) as usize, ..self }
    }

    /// Workers that were started and have not finished.
    pub open spec fn running_spec(self) -> int {
        self.spawned - self.exited
    }

    /// A fresh session that has `total` workers to start.
    pub fn new(total: usize) -> (r: Supervisor)
        ensures
            r == (Supervisor { total, spawned: 0, exited: 0, cancelled: false }),
            r.wf(),
    {
        Supervisor { total, spawned: 0, exited: 0, cancelled: false }
    }

    /// Asks to start the next worker; no worker starts once the session is
    /// cancelled or when all have started.
    pub fn try_spawn(&mut self) -> (r: bool)
        requires
            old(self).wf(),
        ensures
            *final(self) == old(self).spawn_spec(),
            r == (final(self).spawned == old(self).spawned + 1),
            final(self).wf(),
    {
        if !self.cancelled && self.spawned < self.total {
            self.spawned = self.spawned + 1;
            true
        } else {
            false
        }
    }

    /// Sets the cancellation signal; setting it again changes nothing.
    pub fn cancel(&mut self)
        ensures
            *final(self) == (Supervisor { cancelled: true, ..*old(self) }),
    {
        self.cancelled = true;
    }

    /// Notes that a started worker has finished, however it ended.
    pub fn worker_exited(&mut self)
        requires
            old(self).wf(),
            old(self).exited < old(self).spawned,
        ensures
            *final(self) == old(self).exit_n(1),
            final(self).wf(),
    {
        self.exited = self.exited + 1;
    }

    /// Workers still running.
    pub fn running(&self) -> (r: usize)
        requires
            self.wf(),
        ensures
            r == self.running_spec(),
    {
        self.spawned - self.exited
    }

    /// The session is cancelled and every started worker has finished.
    pub fn is_torn_down(&self) -> (r: bool)
        ensures
            r == (self.cancelled && self.exited == self.spawned),
    {
        self.cancelled && self.exited == self.spawned
    }
}

proof fn lemma_spawn_n_uncancelled(s: Supervisor, k: nat)
    requires
        s.wf(),
        !s.cancelled,
    ensures
        s.spawn_n(k).spawned == if s.spawned + k <= s.total { s.spawned + k } else { s.total as int },
        s.spawn_n(k).wf(),
        !s.spawn_n(k).cancelled,
        s.spawn_n(k).exited == s.exited,
        s.spawn_n(k).total == s.total,
    decreases k,
{
    if k > 0 {
        lemma_spawn_n_uncancelled(s, (k - 1) as nat);
    }
}

proof fn lemma_spawn_n_cancelled(s: Supervisor, k: nat)
    requires
        s.cancelled,
    ensures
        s.spawn_n(k) == s,
    decreases k,
{
    if k > 0 {
        lemma_spawn_n_cancelled(s, (k - 1) as nat);
    }
}

/// A session that is never cancelled starts exactly one worker per selected
/// source, however many more attempts are made.
pub proof fn lemma_one_worker_per_source(total: usize, attempts: nat)
    requires
        attempts >= total,
    ensures
        (Supervisor { total, spawned: 0, exited: 0, cancelled: false }).spawn_n(attempts).spawned == total,
{
    lemma_spawn_n_uncancelled(Supervisor { total, spawned: 0, exited: 0, cancelled: false }, attempts);
}

/// A session cancelled before any worker started starts none, and once the
/// started workers have all finished, none is left running and teardown is
/// complete.
pub proof fn lemma_cancelled_session_leaves_none(s: Supervisor, attempts: nat)
    requires
        s.wf(),
    ensures
        (Supervisor { cancelled: true, ..s }).spawn_n(attempts) == (Supervisor { cancelled: true, ..s }),
        ({
            let c = Supervisor { cancelled: true, ..s };
            let done = c.exit_n((c.spawned - c.exited) as nat);
            done.running_spec() == 0 && done.cancelled && done.exited == done.spawned
        }),
{
    lemma_spawn_n_cancelled(Supervisor { cancelled: true, ..s }, attempts);
}

} // verus!
