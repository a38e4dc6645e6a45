//! The operating system, seen from the supervisor.
//!
//! The supervisor never spawns, probes or signals a process itself. Whenever
//! its logic reaches such an operation it looks in the journal: the list of
//! outcomes that its driver has observed so far during the current call. If
//! the outcome is there, the logic goes on with it. If the journal ends, the
//! call stops and names the operation as a [`Request`]; the driver performs
//! it, appends the outcome as a [`Reply`] and runs the call again.
//!
//! A call is therefore a function of the state, the clock reading and the
//! journal alone, and that function is what the contracts in this crate state.

use vstd::prelude::*;

verus! {

/// Nanoseconds in one second. Clock readings and durations are nanoseconds.
pub const NANOS_PER_SEC: u64 = 1_000_000_000;

/// One of the up to four processes that make up a supervised program.
#[derive(Clone, Copy, Debug, PartialEq, Eq, Structural)]
pub enum ChildId {
    /// The long-running process itself.
    Program,
    /// The helper that must succeed before the program is spawned.
    PreCommand,
    /// The side-car whose stdin receives what the program writes.
    Logger,
    /// The helper that must succeed before the logger is spawned.
    LoggerPreCommand,
}

/// The signals of the termination protocol.
#[allow(non_camel_case_types)]
#[derive(Clone, Copy, Debug, PartialEq, Eq, Structural)]
pub enum Signal {
    SIGTERM,
    SIGKILL,
}

/// An operation that the driver performs on behalf of the supervisor.
#[derive(Clone, Copy, Debug, PartialEq, Eq, Structural)]
pub enum Request {
    /// Launch the child's command. With `pipe_stdin` the driver keeps a pipe to
    /// the child's stdin. With `output_to` the child's stdout and stderr are
    /// wired to the retained stdin of that other child.
    Spawn { child: ChildId, pipe_stdin: bool, output_to: Option<ChildId> },
    /// Ask, without blocking, whether the child has exited.
    Probe { child: ChildId },
    /// Deliver the signal to the child.
    Kill { child: ChildId, signal: Signal },
    /// Collect the exit status of the child, which must have terminated.
    Reap { child: ChildId },
}

/// What the driver observed when it performed a request.
#[derive(Clone, Copy, Debug, PartialEq, Eq, Structural)]
pub enum Reply {
    /// The process was launched.
    Spawned,
    /// The process could not be launched; `os_error` is the raw OS error, if any.
    SpawnFailed { os_error: Option<i32> },
    /// The probed process has not exited yet.
    Running,
    /// The probed process has exited; `code` is absent when a signal ended it.
    Exited { code: Option<i32> },
    /// The probe itself failed.
    ProbeFailed,
    /// The signal was delivered.
    Signalled,
    /// The OS refused the signal; `errno` is its error number.
    SignalFailed { errno: i32 },
    /// The exit status was collected.
    Reaped,
}

/// The terminal status of a process.
#[derive(Clone, Copy, Debug, PartialEq, Eq, Structural)]
pub struct ExitStatus {
    /// The exit code, absent when the process was terminated by a signal.
    pub code: Option<i32>,
}

/// A probe that could not tell whether the process has exited.
#[derive(Clone, Copy, Debug, PartialEq, Eq, Structural)]
pub struct ProbeError {}

/// A launch that failed, with the raw OS error where there is one.
#[derive(Clone, Copy, Debug, PartialEq, Eq, Structural)]
pub struct SpawnError {
    pub os_error: Option<i32>,
}

/// A signal that was not delivered.
#[derive(Clone, Copy, Debug, PartialEq, Eq, Structural)]
pub enum SignalError {
    /// There is no process to signal.
    NoChild,
    /// The OS refused, with this error number.
    Os { errno: i32 },
}

/// The result of logic that may stop at the end of the journal: `Err` holds
/// the operation whose outcome is needed to go on.
pub type Step<T> = Result<T, Request>;

impl ExitStatus {
    pub open spec fn spec_success(&self) -> bool {
        self.code == Some(0i32)
    }

    /// Whether the process ended with exit code 0.
    #[verifier::when_used_as_spec(spec_success)]
    pub fn success(&self) -> (r: bool)
        ensures
            r == self.spec_success(),
    {
        match self.code {
            Some(code) => code == 0,
            None => false,
        }
    }

    pub open spec fn spec_code(&self) -> Option<i32> {
        self.code
    }

    /// The exit code, if the process ended by exiting.
    #[verifier::when_used_as_spec(spec_code)]
    pub fn code(&self) -> (r: Option<i32>)
        ensures
            r == self.code,
    {
        self.code
    }
}

impl Reply {
    /// How a reply answers a probe. Anything that is neither `Running` nor
    /// `Exited` counts as a failed probe.
    pub open spec fn spec_probe_outcome(&self) -> Result<Option<ExitStatus>, ProbeError> {
        match *self {
            Reply::Running => Ok(None),
            Reply::Exited { code } => Ok(Some(ExitStatus { code })),
            _ => Err(ProbeError {  }),
        }
    }

    #[verifier::when_used_as_spec(spec_probe_outcome)]
    pub fn probe_outcome(&self) -> (r: Result<Option<ExitStatus>, ProbeError>)
        ensures
            r == self.spec_probe_outcome(),
    {
        match self {
            Reply::Running => Ok(None),
            Reply::Exited { code } => Ok(Some(ExitStatus { code: *code })),
            _ => Err(ProbeError {  }),
        }
    }

    /// How a reply answers a spawn. Only `Spawned` is a success.
    pub open spec fn spec_spawn_outcome(&self) -> Result<(), SpawnError> {
        match *self {
            Reply::Spawned => Ok(()),
            Reply::SpawnFailed { os_error } => Err(SpawnError { os_error }),
            _ => Err(SpawnError { os_error: None }),
        }
    }

    #[verifier::when_used_as_spec(spec_spawn_outcome)]
    pub fn spawn_outcome(&self) -> (r: Result<(), SpawnError>)
        ensures
            r == self.spec_spawn_outcome(),
    {
        match self {
            Reply::Spawned => Ok(()),
            Reply::SpawnFailed { os_error } => Err(SpawnError { os_error: *os_error }),
            _ => Err(SpawnError { os_error: None }),
        }
    }

    /// How a reply answers a signal. Only `SignalFailed` is a failure.
    pub open spec fn spec_signal_outcome(&self) -> Result<(), SignalError> {
        match *self {
            Reply::SignalFailed { errno } => Err(SignalError::Os { errno }),
            _ => Ok(()),
        }
    }

    #[verifier::when_used_as_spec(spec_signal_outcome)]
    pub fn signal_outcome(&self) -> (r: Result<(), SignalError>)
        ensures
            r == self.spec_signal_outcome(),
    {
        match self {
            Reply::SignalFailed { errno } => Err(SignalError::Os { errno: *errno }),
            _ => Ok(()),
        }
    }
}

/// The time that has passed at `now` since `since`; zero if the clock reads
/// less than `since`.
pub open spec fn spec_elapsed(now: u64, since: u64) -> u64 {
    if now >= since {
        (now - since) as u64
    } else {
        0
    }
}

#[verifier::when_used_as_spec(spec_elapsed)]
pub fn elapsed(now: u64, since: u64) -> (r: u64)
    ensures
        r == spec_elapsed(now, since),
{
    if now >= since {
        now - since
    } else {
        0
    }
}

/// A whole number of seconds as nanoseconds.
pub open spec fn spec_secs_to_nanos(secs: u32) -> u64 {
    (secs * NANOS_PER_SEC) as u64
}

#[verifier::when_used_as_spec(spec_secs_to_nanos)]
pub fn secs_to_nanos(secs: u32) -> (r: u64)
    ensures
        r == spec_secs_to_nanos(secs),
        r == secs * NANOS_PER_SEC,
{
    let wide: u64 = secs as u64;
    assert(wide * NANOS_PER_SEC <= 0xffff_ffff * 1_000_000_000) by (nonlinear_arith)
        requires
            wide <= 0xffff_ffff,
            NANOS_PER_SEC == 1_000_000_000,
    ;
    wide * NANOS_PER_SEC
}

/// The outcome of `request` at position `at` of the journal: the reply found
/// there and the next position, or the request if the journal ends before.
pub open spec fn spec_perform(request: Request, journal: Seq<Reply>, at: nat) -> Step<(Reply, nat)> {
    if at < journal.len() {
        Ok((journal[at as int], at + 1))
    } else {
        Err(request)
    }
}

/// Takes the outcome of `request` from the journal and moves `at` past it, or
/// stops with the request where the journal has no more entries.
pub fn perform(request: Request, journal: &Vec<Reply>, at: &mut usize) -> (r: Step<Reply>)
    ensures
        query_agrees(spec_perform(request, journal@, *old(at) as nat), r, *final(at)),
{
    if *at < journal.len() {
        let reply = journal[*at];
        *at = *at + 1;
        Ok(reply)
    } else {
        Err(request)
    }
}

/// An executable step `got`, which left the journal position at `at`, is the
/// step `expected`: the same value and position, or the same request.
pub open spec fn query_agrees<T>(expected: Step<(T, nat)>, got: Step<T>, at: usize) -> bool {
    match expected {
        Ok((value, next)) => got == Ok::<T, Request>(value) && at == next,
        Err(request) => got == Err::<T, Request>(request),
    }
}

/// As [`query_agrees`], for a step that changes `state` and returns nothing.
pub open spec fn action_agrees<S>(expected: Step<(S, nat)>, got: Step<()>, state: S, at: usize) -> bool {
    match expected {
        Ok((after, next)) => got is Ok && state == after && at == next,
        Err(request) => got == Err::<(), Request>(request),
    }
}

/// As [`query_agrees`], for a step that changes `state` and returns a value.
pub open spec fn call_agrees<T, S>(expected: Step<(T, S, nat)>, got: Step<T>, state: S, at: usize) -> bool {
    match expected {
        Ok((value, after, next)) => got == Ok::<T, Request>(value) && state == after && at == next,
        Err(request) => got == Err::<T, Request>(request),
    }
}

} // verus!
