use vstd::prelude::*;

verus! {

/// Exit status by which a peer says that it does not implement the requested scenario.
pub const UNIMPLEMENTED_RETURN_VAL: i32 = 127;

/// How one scenario ended.
#[derive(Clone, Copy, Debug, PartialEq, Eq, Structural, Hash, PartialOrd, Ord)]
pub enum TestResult {
    Success,
    Failure,
    /// One of the peers does not support the test case.
    Unimplemented,
}

/// Reduces the exit statuses of the two peers to the result of the scenario:
/// unimplemented where either reports the sentinel, success where both exit
/// with 0, failure otherwise.
pub fn classify(client_code: i32, server_code: i32) -> (r: TestResult)
    ensures
        r == TestResult::Unimplemented <==> (client_code == UNIMPLEMENTED_RETURN_VAL
            || server_code == UNIMPLEMENTED_RETURN_VAL),
        r == TestResult::Success <==> (client_code == 0 && server_code == 0),
{
    if client_code == UNIMPLEMENTED_RETURN_VAL || server_code == UNIMPLEMENTED_RETURN_VAL {
        TestResult::Unimplemented
    } else if client_code == 0 && server_code == 0 {
        TestResult::Success
    } else {
        TestResult::Failure
    }
}

/// The marker that the result table shows for a result.
pub fn marker(r: TestResult) -> (m: &'static str)
    ensures
        m@ == marker_of(r),
{
    match r {
        TestResult::Success => "\u{1F973}",
        TestResult::Failure => "\u{1F494}",
        TestResult::Unimplemented => "\u{1F6A7}",
    }
}

pub open spec fn marker_of(r: TestResult) -> Seq<char> {
    match r {
        TestResult::Success => "\u{1F973}"@,
        TestResult::Failure => "\u{1F494}"@,
        TestResult::Unimplemented => "\u{1F6A7}"@,
    }
}

/// Where the run of one scenario stands.
#[derive(Clone, Copy, Debug, PartialEq, Eq, Structural)]
pub enum JobPhase {
    /// The server process is being spawned.
    SpawningServer,
    /// The server runs; the client starts once the grace period is over.
    Grace,
    /// The client process is being spawned.
    SpawningClient,
    /// Both processes run; their exits and their output are awaited under one timeout.
    Running,
    /// The processes that still run are being killed.
    Killing,
    /// The result has been reported.
    Done,
}

/// What the driver of a job observed.
#[derive(Clone, Copy, Debug, PartialEq, Eq, Structural)]
pub enum JobEvent {
    Spawned,
    SpawnFailed,
    GraceElapsed,
    /// Both processes exited and both outputs were copied to their logs;
    /// an exit status is `None` where the process gave none (a signal).
    Finished { client_code: Option<i32>, server_code: Option<i32> },
    /// Waiting for a process or copying its output failed.
    WaitFailed,
    TimedOut,
    Killed,
}

/// What the driver of a job is to do next.
#[derive(Clone, Copy, Debug, PartialEq, Eq, Structural)]
pub enum JobAction {
    SpawnServer,
    WaitGrace,
    SpawnClient,
    /// Await both exits and both output copies under the timeout.
    AwaitAll,
    /// Force-terminate the processes named.
    Kill { server: bool, client: bool },
    Report(TestResult),
    /// The event does not apply to the current phase; nothing changes.
    Ignore,
}

/// The state of one scenario's run: its phase, which processes may still be
/// alive, and the result to report once they are gone.
#[derive(Clone, Copy, Debug, PartialEq, Eq, Structural)]
pub struct Job {
    pub phase: JobPhase,
    pub server_live: bool,
    pub client_live: bool,
}

/// The result of a run whose processes both exited and whose output was copied.
pub open spec fn finished_result(client_code: Option<i32>, server_code: Option<i32>) -> TestResult {
    match (client_code, server_code) {
        (Some(c), Some(s)) => if c == UNIMPLEMENTED_RETURN_VAL || s == UNIMPLEMENTED_RETURN_VAL {
            TestResult::Unimplemented
        } else if c == 0 && s == 0 {
            TestResult::Success
        } else {
            TestResult::Failure
        },
        _ => TestResult::Failure,
    }
}

/// One step of a job: the next state and the action, for a state and an event.
pub open spec fn job_step(j: Job, e: JobEvent) -> (Job, JobAction) {
    let none = Job { phase: JobPhase::Done, server_live: false, client_live: false };
    match (j.phase, e) {
        (JobPhase::SpawningServer, JobEvent::Spawned) => (
            Job { phase: JobPhase::Grace, server_live: true, client_live: false },
            JobAction::WaitGrace,
        ),
        (JobPhase::SpawningServer, JobEvent::SpawnFailed) => (none, JobAction::Report(TestResult::Failure)),
        (JobPhase::Grace, JobEvent::GraceElapsed) => (
            Job { phase: JobPhase::SpawningClient, ..j },
            JobAction::SpawnClient,
        ),
        (JobPhase::SpawningClient, JobEvent::Spawned) => (
            Job { phase: JobPhase::Running, server_live: true, client_live: true },
            JobAction::AwaitAll,
        ),
        (JobPhase::SpawningClient, JobEvent::SpawnFailed) => (
            Job { phase: JobPhase::Killing, ..j },
            JobAction::Kill { server: j.server_live, client: j.client_live },
        ),
        (JobPhase::Running, JobEvent::Finished { client_code, server_code }) => (
            none,
            JobAction::Report(finished_result(client_code, server_code)),
        ),
        (JobPhase::Running, JobEvent::WaitFailed) | (JobPhase::Running, JobEvent::TimedOut) => (
            Job { phase: JobPhase::Killing, ..j },
            JobAction::Kill { server: j.server_live, client: j.client_live },
        ),
        (JobPhase::Killing, JobEvent::Killed) => (none, JobAction::Report(TestResult::Failure)),
        _ => (j, JobAction::Ignore),
    }
}

impl Job {
    /// Which processes may be alive follows from the phase.
    pub open spec fn wf(&self) -> bool {
        match self.phase {
            JobPhase::SpawningServer => !self.server_live && !self.client_live,
            JobPhase::Grace | JobPhase::SpawningClient => self.server_live && !self.client_live,
            JobPhase::Running => self.server_live && self.client_live,
            JobPhase::Killing => self.server_live,
            JobPhase::Done => !self.server_live && !self.client_live,
        }
    }

    /// A job that has not started, and the first thing to do: spawn the server.
    pub fn new() -> (r: (Job, JobAction))
        ensures
            r.0.wf(),
            r.0.phase == JobPhase::SpawningServer,
            r.1 == JobAction::SpawnServer,
    {
        (Job { phase: JobPhase::SpawningServer, server_live: false, client_live: false }, JobAction::SpawnServer)
    }

    /// Moves the job on by one event and returns what to do next. A result is
    /// reported only once no process of the job can be alive.
    pub fn step(&mut self, e: JobEvent) -> (a: JobAction)
        requires
            old(self).wf(),
        ensures
            (*final(self), a) == job_step(*old(self), e),
            final(self).wf(),
            a is Report ==> !final(self).server_live && !final(self).client_live
                && final(self).phase == JobPhase::Done,
    {
        let j = *self;
        match (j.phase, e) {
            (JobPhase::SpawningServer, JobEvent::Spawned) => {
                *self = Job { phase: JobPhase::Grace, server_live: true, client_live: false };
                JobAction::WaitGrace
            },
            (JobPhase::SpawningServer, JobEvent::SpawnFailed) => {
                *self = Job { phase: JobPhase::Done, server_live: false, client_live: false };
                JobAction::Report(TestResult::Failure)
            },
            (JobPhase::Grace, JobEvent::GraceElapsed) => {
                self.phase = JobPhase::SpawningClient;
                JobAction::SpawnClient
            },
            (JobPhase::SpawningClient, JobEvent::Spawned) => {
                *self = Job { phase: JobPhase::Running, server_live: true, client_live: true };
                JobAction::AwaitAll
            },
            (JobPhase::SpawningClient, JobEvent::SpawnFailed)
            | (JobPhase::Running, JobEvent::WaitFailed)
            | (JobPhase::Running, JobEvent::TimedOut) => {
                self.phase = JobPhase::Killing;
                JobAction::Kill { server: j.server_live, client: j.client_live }
            },
            (JobPhase::Running, JobEvent::Finished { client_code, server_code }) => {
                *self = Job { phase: JobPhase::Done, server_live: false, client_live: false };
                let r = match (client_code, server_code) {
                    (Some(c), Some(s)) => classify(c, s),
                    _ => TestResult::Failure,
                };
                JobAction::Report(r)
            },
            (JobPhase::Killing, JobEvent::Killed) => {
                *self = Job { phase: JobPhase::Done, server_live: false, client_live: false };
                JobAction::Report(TestResult::Failure)
            },
            _ => JobAction::Ignore,
        }
    }
}

/// A scenario whose processes outlive the timeout is reported as a failure,
/// and only after both of its processes have been killed.
pub proof fn lemma_timeout_fails(j: Job)
    requires
        j.wf(),
        j.phase == JobPhase::Running,
    ensures
        job_step(j, JobEvent::TimedOut).1 == (JobAction::Kill { server: true, client: true }),
        job_step(job_step(j, JobEvent::TimedOut).0, JobEvent::Killed).1 == JobAction::Report(
            TestResult::Failure,
        ),
        !job_step(job_step(j, JobEvent::TimedOut).0, JobEvent::Killed).0.server_live,
        !job_step(job_step(j, JobEvent::TimedOut).0, JobEvent::Killed).0.client_live,
{
}

/// While a timed-out job waits for its processes to be killed, nothing but
/// their death moves it on: no other event brings a report.
pub proof fn lemma_killing_waits(j: Job, e: JobEvent)
    requires
        j.wf(),
        j.phase == JobPhase::Killing,
        e != JobEvent::Killed,
    ensures
        job_step(j, e) == (j, JobAction::Ignore),
{
}

/// With both exit statuses at hand, the result is success when both are 0,
/// unimplemented when either is the sentinel, and failure for any other status.
pub proof fn lemma_exit_codes(c: i32, s: i32)
    ensures
        finished_result(Some(0), Some(0)) == TestResult::Success,
        finished_result(Some(UNIMPLEMENTED_RETURN_VAL), Some(0)) == TestResult::Unimplemented,
        finished_result(Some(0), Some(UNIMPLEMENTED_RETURN_VAL)) == TestResult::Unimplemented,
        c != 0 && c != UNIMPLEMENTED_RETURN_VAL ==> finished_result(Some(c), Some(0))
            == TestResult::Failure,
        s != 0 && s != UNIMPLEMENTED_RETURN_VAL ==> finished_result(Some(0), Some(s))
            == TestResult::Failure,
        c == UNIMPLEMENTED_RETURN_VAL || s == UNIMPLEMENTED_RETURN_VAL ==> finished_result(
            Some(c),
            Some(s),
        ) == TestResult::Unimplemented,
{
}

} // verus!
