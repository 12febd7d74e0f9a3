use vstd::prelude::*;
use vstd::std_specs::convert::IntoSpec;
use vstd::string::StringExecFns;
use crate::exit_status::ExitStatus;
use crate::io_error::{IoError, ECHILD, ESRCH};
use crate::launch::LaunchConfig;
use crate::lifecycle::{KillAction, KillEvent, StartAction, StateView, Termination};
use crate::process_id::pid_from_raw;

verus! {

/// A named sink for the lines of one output stream.
#[derive(Debug)]
pub struct LogChannel {
    pub name: String,
}

impl LogChannel {
    /// A channel called `name`.
    pub fn new(name: String) -> (channel: LogChannel)
        ensures
            channel.name == name,
    {
        LogChannel { name }
    }
}

/// What a caller hands over to have a process supervised.
#[derive(Debug)]
pub struct ExecutableSpec {
    pub name: String,
    pub description: String,
    pub launch_config: LaunchConfig,
}

/// The lifecycle of a supervised process. It only ever moves from `Init` to
/// `Started` and from `Started` to `Stopped`. `H` is what the caller holds a
/// live process by: the handle of the child and of its two log-capture
/// tasks. Only `Started` has room for it, so it cannot outlive the process.
#[derive(Debug)]
pub enum ExecutableState<H> {
    /// Not yet spawned; holds what is to be launched, and whether a spawn
    /// was asked for and has not been answered.
    Init { launch_config: LaunchConfig, spawning: bool },
    /// Spawned and not yet reaped; holds what was launched, the handles of
    /// the live process, of which it is the only owner, and how far its
    /// termination has come.
    Started { program: String, args: Vec<String>, handles: H, termination: Termination },
    /// Reaped; holds the status that the process left.
    Stopped(ExitStatus),
}

impl<H> ExecutableState<H> {
    /// The handles of the live process, which exist exactly in `Started`.
    pub open spec fn spec_handles(&self) -> Option<H> {
        match self {
            ExecutableState::Started { handles, .. } => Some(*handles),
            _ => None,
        }
    }
}

impl<H> View for ExecutableState<H> {
    type V = StateView;

    open spec fn view(&self) -> StateView {
        match self {
            ExecutableState::Init { launch_config, spawning } => StateView::Init {
                launch: launch_config@,
                spawning: *spawning,
            },
            ExecutableState::Started { program, args, termination, .. } => StateView::Started {
                program: program@,
                args: args.deep_view(),
                termination: *termination,
            },
            ExecutableState::Stopped(status) => StateView::Stopped(*status),
        }
    }
}

/// One supervised process: its name, the channels that its two output
/// streams are logged to, and where it is in its lifecycle.
#[derive(Debug)]
pub struct Executable<H> {
    pub name: String,
    pub description: String,
    pub stdout: LogChannel,
    pub stderr: LogChannel,
    state: ExecutableState<H>,
}

/// The mathematical value of an [`Executable`].
pub struct ExecutableView {
    pub name: Seq<char>,
    pub description: Seq<char>,
    pub stdout: Seq<char>,
    pub stderr: Seq<char>,
    pub state: StateView,
}

/// The name of the channel that logs the standard output of `name`.
pub open spec fn stdout_channel(name: Seq<char>) -> Seq<char> {
    name + "::stdout"@
}

/// The name of the channel that logs the standard error of `name`.
pub open spec fn stderr_channel(name: Seq<char>) -> Seq<char> {
    name + "::stderr"@
}

impl<H> View for Executable<H> {
    type V = ExecutableView;

    closed spec fn view(&self) -> ExecutableView {
        ExecutableView {
            name: self.name@,
            description: self.description@,
            stdout: self.stdout.name@,
            stderr: self.stderr.name@,
            state: self.state@,
        }
    }
}

impl<H> Executable<H> {
    /// The handles of the live process, which this value owns exactly
    /// while it is started.
    pub closed spec fn spec_handles(&self) -> Option<H> {
        self.state.spec_handles()
    }

    /// The handles of a live process are held exactly while the process is
    /// started: none before the start, none once it is stopped.
    pub proof fn lemma_handles_while_started(&self)
        ensures
            self.spec_handles() is Some <==> self@.state is Started,
    {
    }

    /// The value of a process made from the specification `spec` and not
    /// yet spawned: its channels are named after it, and no spawn is asked
    /// for.
    pub open spec fn fresh(spec: ExecutableSpec) -> ExecutableView {
        ExecutableView {
            name: spec.name@,
            description: spec.description@,
            stdout: stdout_channel(spec.name@),
            stderr: stderr_channel(spec.name@),
            state: StateView::Init { launch: spec.launch_config@, spawning: false },
        }
    }

    /// A supervised process that has not been spawned yet, made from
    /// whatever converts into a specification. Whatever the conversion
    /// gives, the process is in `Init` with no spawn asked for, and its
    /// channels are named after it; where the conversion keeps to its own
    /// specification, the process is the one of the converted value.
    pub fn new<T: Into<ExecutableSpec>>(spec: T) -> (executable: Executable<H>)
        ensures
            executable.spec_handles() is None,
            executable@.state is Init,
            !executable@.state->spawning,
            executable@.stdout == stdout_channel(executable@.name),
            executable@.stderr == stderr_channel(executable@.name),
            T::obeys_into_spec() ==> executable@ == Self::fresh(spec.into_spec()),
    {
        Self::from_spec(spec.into())
    }

    /// A supervised process that has not been spawned yet, with a channel
    /// for each of its two output streams, named after it.
    pub fn from_spec(spec: ExecutableSpec) -> (executable: Executable<H>)
        ensures
            executable.spec_handles() is None,
            executable@ == Self::fresh(spec),
    {
        let ExecutableSpec { name, description, launch_config } = spec;
        let state = ExecutableState::Init { launch_config, spawning: false };
        let stdout = LogChannel::new(name.clone().concat("::stdout"));
        let stderr = LogChannel::new(name.clone().concat("::stderr"));
        Executable { name, description, stdout, stderr, state }
    }

    /// The name of this process.
    pub fn name(&self) -> (name: &String)
        ensures
            name@ == self@.name,
    {
        &self.name
    }

    /// What this process is said to be for.
    pub fn description(&self) -> (description: &String)
        ensures
            description@ == self@.description,
    {
        &self.description
    }

    /// The channel that logs the standard output of this process.
    pub fn stdout(&self) -> (channel: &LogChannel)
        ensures
            channel.name@ == self@.stdout,
    {
        &self.stdout
    }

    /// The channel that logs the standard error of this process.
    pub fn stderr(&self) -> (channel: &LogChannel)
        ensures
            channel.name@ == self@.stderr,
    {
        &self.stderr
    }

    /// The lifecycle state of this process.
    pub fn state(&self) -> (state: &ExecutableState<H>)
        ensures
            state@ == self@.state,
            state.spec_handles() == self.spec_handles(),
    {
        &self.state
    }

    /// The handles of the live process, to act on it: there are some
    /// exactly while the process is started. Whatever the caller does to
    /// them, the lifecycle stays where it is.
    pub fn handles_mut(&mut self) -> (handles: Option<&mut H>)
        ensures
            final(self)@ == old(self)@,
            match handles {
                Some(h) => old(self).spec_handles() == Some(*h) && final(self).spec_handles()
                    == Some(*final(h)),
                None => old(self).spec_handles() is None && final(self).spec_handles() is None,
            },
    {
        match &mut self.state {
            ExecutableState::Started { handles, .. } => Some(handles),
            _ => None,
        }
    }

    /// Begins the start of the process under the given identity. Before the
    /// first successful spawn this makes the launch configuration ready and
    /// asks for the spawn, whose outcome `spawned` takes; afterwards it does
    /// nothing and asks for nothing.
    pub fn start(&mut self, uid: Option<u32>, gid: Option<u32>) -> (action: StartAction)
        ensures
            action == old(self)@.state.start_action(),
            final(self)@ == (ExecutableView {
                state: old(self)@.state.after_start(uid, gid),
                ..old(self)@
            }),
            final(self).spec_handles() == old(self).spec_handles(),
    {
        match &mut self.state {
            ExecutableState::Init { launch_config, spawning } => {
                launch_config.supervise(uid, gid);
                *spawning = true;
                StartAction::Spawn
            },
            _ => StartAction::Nothing,
        }
    }

    /// Takes the outcome of the spawn that `start` asked for: the handles of
    /// the new process, or the failure. A successful spawn starts the
    /// process, which from then on owns the handles; a failed one is handed
    /// on and leaves the process as it was, ready for another `start`.
    /// Handles that nobody asked for, because no spawn was asked for or the
    /// process was started before, are let go at once.
    pub fn spawned(&mut self, outcome: Result<H, IoError>) -> (result: Result<(), IoError>)
        ensures
            match outcome {
                Ok(_) => result is Ok,
                Err(e) => result == Err::<(), IoError>(e),
            },
            final(self)@ == (ExecutableView {
                state: old(self)@.state.after_spawned(outcome is Ok),
                ..old(self)@
            }),
            final(self).spec_handles() == match outcome {
                Ok(handles) if old(self)@.state.takes_handles() => Some(handles),
                _ => old(self).spec_handles(),
            },
    {
        let asked = match &mut self.state {
            ExecutableState::Init { spawning, .. } => {
                let asked = *spawning;
                *spawning = false;
                asked
            },
            _ => false,
        };
        match outcome {
            Ok(handles) => {
                if asked {
                    let mut taken = ExecutableState::Stopped(ExitStatus::from_raw(0));
                    core::mem::swap(&mut self.state, &mut taken);
                    self.state = match taken {
                        ExecutableState::Init { launch_config, .. } => ExecutableState::Started {
                            program: launch_config.program,
                            args: launch_config.args,
                            handles,
                            termination: Termination::Idle,
                        },
                        other => other,
                    };
                }
                Ok(())
            },
            Err(e) => Err(e),
        }
    }

    /// Takes one step of stopping the process: given what has happened
    /// since the last step, says what is to be done next, and moves to
    /// `Stopped` once the process is reaped and its log-capture tasks have
    /// ended. A process that was never started yields no status; a stopped
    /// one yields the status it left. A termination request that finds no
    /// such process counts as made, and a wait that finds no child yields the
    /// status of a clean exit; any other failure is handed on and leaves the
    /// process started. An event that does not answer what was asked for last
    /// begins the termination anew.
    pub fn kill(&mut self, event: KillEvent) -> (action: KillAction)
        ensures
            action == old(self)@.state.kill_action(event),
            final(self)@ == (ExecutableView {
                state: old(self)@.state.after_kill(event),
                ..old(self)@
            }),
            final(self).spec_handles() == if final(self)@.state is Started {
                old(self).spec_handles()
            } else {
                None
            },
    {
        let progress = match &self.state {
            ExecutableState::Init { .. } => {
                return KillAction::Done(None);
            },
            ExecutableState::Stopped(status) => {
                return KillAction::Done(Some(*status));
            },
            ExecutableState::Started { termination, .. } => *termination,
        };
        let (action, next) = match (progress, event) {
            (Termination::Signalling, KillEvent::Signalled(Ok(_))) => (
                KillAction::Wait,
                Termination::Waiting,
            ),
            (Termination::Signalling, KillEvent::Signalled(Err(e))) => {
                if e.is_os_error(ESRCH) {
                    (KillAction::Wait, Termination::Waiting)
                } else {
                    (KillAction::Fail(e), Termination::Idle)
                }
            },
            (Termination::Waiting, KillEvent::Waited(Ok(status))) => (
                KillAction::Join,
                Termination::Joining(status),
            ),
            (Termination::Waiting, KillEvent::Waited(Err(e))) => {
                if e.is_os_error(ECHILD) {
                    (KillAction::Join, Termination::Joining(ExitStatus::from_raw(0)))
                } else {
                    (KillAction::Fail(e), Termination::Idle)
                }
            },
            (Termination::Joining(status), KillEvent::Joined) => {
                self.state = ExecutableState::Stopped(status);
                return KillAction::Done(Some(status));
            },
            _ => (KillAction::Signal, Termination::Signalling),
        };
        match &mut self.state {
            ExecutableState::Started { termination, .. } => {
                *termination = next;
            },
            _ => {},
        }
        action
    }

    /// The identifier of the process while it is started, given the
    /// identifier that the operating system reports for its handle; none
    /// before the start, after the stop, or when the system reports none.
    pub fn pid(&self, os_id: Option<u32>) -> (result: Result<Option<nix::unistd::Pid>, IoError>)
        ensures
            result == Ok::<Option<nix::unistd::Pid>, IoError>(self@.state.pid(os_id)),
    {
        match (&self.state, os_id) {
            (ExecutableState::Started { .. }, Some(id)) => {
                Ok(Some(pid_from_raw(#[verifier::truncate] (id as i32))))
            },
            _ => Ok(None),
        }
    }
}

} // verus!
