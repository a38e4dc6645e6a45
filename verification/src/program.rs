//! One child process of a supervised program.

use crate::os::{
    action_agrees, call_agrees, perform, query_agrees, spec_perform, ChildId, ExitStatus,
    ProbeError, Reply, Request, Signal, SignalError, SpawnError, Step,
};
use vstd::prelude::*;

verus! {

/// A command and, once it has been launched, the process that runs it.
///
/// The process itself is held by the driver. `has_child` records whether
/// there is one: it is set by a successful [`Program::start`] and cleared by
/// [`Program::reset_child_proc`].
#[derive(Debug)]
pub struct Program {
    /// Which child of the supervised program this is.
    pub id: ChildId,
    /// The name under which the child is reported.
    pub name: String,
    pub command: String,
    pub args: Option<Vec<String>>,
    /// Whether a process has been launched and not yet been given up.
    pub has_child: bool,
}

impl Program {
    pub fn new(id: ChildId, name: String, command: String, args: Option<Vec<String>>) -> (r:
        Program)
        ensures
            r == (Program { id, name, command, args, has_child: false }),
    {
        Program { id, name, command, args, has_child: false }
    }

    /// What never changes: the child without its process.
    pub open spec fn fixed(self) -> Program {
        Program { has_child: false, ..self }
    }

    pub open spec fn spec_is_running(self, journal: Seq<Reply>, at: nat) -> Step<(bool, nat)> {
        if !self.has_child {
            Ok((false, at))
        } else {
            match spec_perform(Request::Probe { child: self.id }, journal, at) {
                Err(request) => Err(request),
                Ok((reply, next)) => Ok((reply == Reply::Running, next)),
            }
        }
    }

    /// Whether the process exists and has not exited. Without a process no
    /// probe is made. A probe that fails counts as "not running".
    pub fn is_running(&self, journal: &Vec<Reply>, at: &mut usize) -> (r: Step<bool>)
        ensures
            query_agrees(self.spec_is_running(journal@, *old(at) as nat), r, *final(at)),
    {
        if !self.has_child {
            return Ok(false);
        }
        let reply = perform(Request::Probe { child: self.id }, journal, at)?;
        match reply.probe_outcome() {
            Ok(None) => Ok(true),
            Ok(Some(_)) => Ok(false),
            Err(_) => Ok(false),
        }
    }

    pub open spec fn spec_exit_status_unchecked(self, journal: Seq<Reply>, at: nat) -> Step<
        (Result<Option<ExitStatus>, ProbeError>, nat),
    > {
        if !self.has_child {
            Ok((Err(ProbeError {  }), at))
        } else {
            match spec_perform(Request::Probe { child: self.id }, journal, at) {
                Err(request) => Err(request),
                Ok((reply, next)) => Ok((reply.spec_probe_outcome(), next)),
            }
        }
    }

    /// Probes the process: `Ok(None)` while it runs, `Ok(Some(status))` once
    /// it has exited, `Err` if the probe failed or there is no process.
    pub fn exit_status_unchecked(&self, journal: &Vec<Reply>, at: &mut usize) -> (r: Step<
        Result<Option<ExitStatus>, ProbeError>,
    >)
        ensures
            query_agrees(
                self.spec_exit_status_unchecked(journal@, *old(at) as nat),
                r,
                *final(at),
            ),
    {
        if !self.has_child {
            return Ok(Err(ProbeError {  }));
        }
        let reply = perform(Request::Probe { child: self.id }, journal, at)?;
        Ok(reply.probe_outcome())
    }

    pub open spec fn spec_reap(self, journal: Seq<Reply>, at: nat) -> Step<((), nat)> {
        if !self.has_child {
            Ok(((), at))
        } else {
            match spec_perform(Request::Reap { child: self.id }, journal, at) {
                Err(request) => Err(request),
                Ok((_, next)) => Ok(((), next)),
            }
        }
    }

    /// Has the exit status of the process collected, if there is a process.
    /// The driver refuses to reap a process that still runs.
    pub fn reap(&self, journal: &Vec<Reply>, at: &mut usize) -> (r: Step<()>)
        ensures
            query_agrees(self.spec_reap(journal@, *old(at) as nat), r, *final(at)),
    {
        if self.has_child {
            let _ = perform(Request::Reap { child: self.id }, journal, at)?;
        }
        Ok(())
    }

    pub open spec fn spec_reset_child_proc(self, journal: Seq<Reply>, at: nat) -> Step<
        (Program, nat),
    > {
        match self.spec_reap(journal, at) {
            Err(request) => Err(request),
            Ok((_, next)) => Ok((self.fixed(), next)),
        }
    }

    /// Reaps the process and gives it up.
    pub fn reset_child_proc(&mut self, journal: &Vec<Reply>, at: &mut usize) -> (r: Step<()>)
        ensures
            action_agrees(
                old(self).spec_reset_child_proc(journal@, *old(at) as nat),
                r,
                *final(self),
                *final(at),
            ),
            final(self).fixed() == old(self).fixed(),
    {
        self.reap(journal, at)?;
        self.has_child = false;
        Ok(())
    }

    pub open spec fn spec_start(
        self,
        pipe_stdin: bool,
        output_to: Option<ChildId>,
        journal: Seq<Reply>,
        at: nat,
    ) -> Step<(Result<(), SpawnError>, Program, nat)> {
        match self.spec_reset_child_proc(journal, at) {
            Err(request) => Err(request),
            Ok((cleared, next)) => match spec_perform(
                Request::Spawn { child: self.id, pipe_stdin, output_to },
                journal,
                next,
            ) {
                Err(request) => Err(request),
                Ok((reply, last)) => match reply.spec_spawn_outcome() {
                    Ok(_) => Ok((Ok(()), Program { has_child: true, ..cleared }, last)),
                    Err(error) => Ok((Err(error), cleared, last)),
                },
            },
        }
    }

    /// Launches the command, after any earlier process has been reaped and
    /// given up. On success the child has a process; on failure it has none.
    pub fn start(
        &mut self,
        pipe_stdin: bool,
        output_to: Option<ChildId>,
        journal: &Vec<Reply>,
        at: &mut usize,
    ) -> (r: Step<Result<(), SpawnError>>)
        ensures
            call_agrees(
                old(self).spec_start(pipe_stdin, output_to, journal@, *old(at) as nat),
                r,
                *final(self),
                *final(at),
            ),
            final(self).fixed() == old(self).fixed(),
    {
        self.reset_child_proc(journal, at)?;
        let reply = perform(
            Request::Spawn { child: self.id, pipe_stdin, output_to },
            journal,
            at,
        )?;
        match reply.spawn_outcome() {
            Ok(_) => {
                self.has_child = true;
                Ok(Ok(()))
            },
            Err(error) => Ok(Err(error)),
        }
    }

    pub open spec fn spec_send_signal(self, signal: Signal, journal: Seq<Reply>, at: nat) -> Step<
        (Result<(), SignalError>, nat),
    > {
        if !self.has_child {
            Ok((Err(SignalError::NoChild), at))
        } else {
            match spec_perform(Request::Kill { child: self.id, signal }, journal, at) {
                Err(request) => Err(request),
                Ok((reply, next)) => Ok((reply.spec_signal_outcome(), next)),
            }
        }
    }

    /// Delivers the signal to the process. Fails without asking the driver
    /// if there is no process, and with the OS error if the OS refuses.
    pub fn send_signal(&self, signal: Signal, journal: &Vec<Reply>, at: &mut usize) -> (r: Step<
        Result<(), SignalError>,
    >)
        ensures
            query_agrees(self.spec_send_signal(signal, journal@, *old(at) as nat), r, *final(at)),
    {
        if !self.has_child {
            return Ok(Err(SignalError::NoChild));
        }
        let reply = perform(Request::Kill { child: self.id, signal }, journal, at)?;
        Ok(reply.signal_outcome())
    }
}

} // verus!
