use vstd::prelude::*;
use crate::exit_status::ExitStatus;
use crate::io_error::{IoError, ECHILD, ESRCH};
use crate::launch::LaunchConfigView;
use crate::process_id::{pid_of, raw_id};

verus! {

/// What `start` asks of its caller.
#[derive(Clone, Copy, Debug, PartialEq, Eq, Structural)]
pub enum StartAction {
    /// Spawn the process that the launch configuration describes, then
    /// report the outcome.
    Spawn,
    /// Nothing: the process was started before.
    Nothing,
}

/// How far the termination of a started process has come.
#[derive(Clone, Copy, Debug, PartialEq, Eq, Structural)]
pub enum Termination {
    /// Nothing is under way.
    Idle,
    /// The termination request was asked for and has not been answered.
    Signalling,
    /// The wait for the exit status was asked for and has not been answered.
    Waiting,
    /// The process is reaped with this status, and the end of its
    /// log-capture tasks is awaited.
    Joining(ExitStatus),
}

/// What has happened since the last step of a termination.
#[derive(Debug)]
pub enum KillEvent {
    /// The caller asks for the process to be stopped.
    Begin,
    /// Termination was requested of the operating system, with this outcome.
    Signalled(Result<(), IoError>),
    /// The exit status was awaited, with this outcome.
    Waited(Result<ExitStatus, IoError>),
    /// Both log-capture tasks have come to their end, whatever became of
    /// them.
    Joined,
}

/// What `kill` asks of its caller next.
#[derive(Debug)]
pub enum KillAction {
    /// Request termination of the process, then report `Signalled`.
    Signal,
    /// Await the exit status of the process, then report `Waited`.
    Wait,
    /// Await both log-capture tasks, then report `Joined`.
    Join,
    /// The termination is over: hand this to the caller as success.
    Done(Option<ExitStatus>),
    /// The termination failed: hand this error to the caller.
    Fail(IoError),
}

/// The mathematical value of a lifecycle state.
pub enum StateView {
    /// Not yet spawned; `spawning` says whether a spawn was asked for and
    /// has not been answered.
    Init { launch: LaunchConfigView, spawning: bool },
    /// Spawned and not yet reaped.
    Started { program: Seq<char>, args: Seq<Seq<char>>, termination: Termination },
    /// Reaped, with the status it left.
    Stopped(ExitStatus),
}

/// One operation on a supervised process, with what the operating system
/// answered where it was asked.
pub enum Call {
    Start { uid: Option<u32>, gid: Option<u32> },
    Spawned { ok: bool },
    Kill(KillEvent),
    Pid { os_id: Option<u32> },
}

impl StateView {
    /// The place of this state in the order `Init`, `Started`, `Stopped`.
    pub open spec fn rank(self) -> nat {
        match self {
            StateView::Init { .. } => 0,
            StateView::Started { .. } => 1,
            StateView::Stopped(_) => 2,
        }
    }

    /// What `start` asks for in this state.
    pub open spec fn start_action(self) -> StartAction {
        if self is Init {
            StartAction::Spawn
        } else {
            StartAction::Nothing
        }
    }

    /// The state that `start` leaves: before the spawn the launch
    /// configuration is made ready and the spawn is asked for, afterwards
    /// nothing changes.
    pub open spec fn after_start(self, uid: Option<u32>, gid: Option<u32>) -> StateView {
        match self {
            StateView::Init { launch, .. } => StateView::Init {
                launch: launch.supervised(uid, gid),
                spawning: true,
            },
            _ => self,
        }
    }

    /// The state after a spawn was reported. A successful spawn that was
    /// asked for starts the process, with the program and arguments of its
    /// launch configuration; a failed one leaves it not started, with no
    /// spawn asked for. A spawn that nobody asked for changes nothing.
    pub open spec fn after_spawned(self, ok: bool) -> StateView {
        match self {
            StateView::Init { launch, spawning } => if spawning && ok {
                StateView::Started {
                    program: launch.program,
                    args: launch.args,
                    termination: Termination::Idle,
                }
            } else {
                StateView::Init { launch, spawning: false }
            },
            _ => self,
        }
    }

    /// Whether the handles of a spawn reported in this state are taken: a
    /// successful spawn that was asked for.
    pub open spec fn takes_handles(self) -> bool {
        self is Init && self->spawning
    }

    /// What `kill` asks for in this state on `event`. A process that was
    /// never started has no status, and a stopped one has the status it
    /// left. For a started process an event that answers what was asked for
    /// last moves the termination on: a request that was made, or that found
    /// no such process, is followed by the wait; a wait that gave a status,
    /// or that found no child, by the join; the join by the status. Any
    /// other failure is handed on. Every other event begins the termination
    /// anew, with the request.
    pub open spec fn kill_action(self, event: KillEvent) -> KillAction {
        match self {
            StateView::Init { .. } => KillAction::Done(None),
            StateView::Stopped(status) => KillAction::Done(Some(status)),
            StateView::Started { termination, .. } => match (termination, event) {
                (Termination::Signalling, KillEvent::Signalled(Ok(_))) => KillAction::Wait,
                (Termination::Signalling, KillEvent::Signalled(Err(e))) => if e.has_code(ESRCH) {
                    KillAction::Wait
                } else {
                    KillAction::Fail(e)
                },
                (Termination::Waiting, KillEvent::Waited(Ok(_))) => KillAction::Join,
                (Termination::Waiting, KillEvent::Waited(Err(e))) => if e.has_code(ECHILD) {
                    KillAction::Join
                } else {
                    KillAction::Fail(e)
                },
                (Termination::Joining(status), KillEvent::Joined) => KillAction::Done(Some(status)),
                _ => KillAction::Signal,
            },
        }
    }

    /// How far the termination of a started process has come after `event`,
    /// or `None` once it is over and the process is stopped. A wait that
    /// found no child leaves the status of a clean exit; a failure that is
    /// handed on leaves nothing under way.
    pub open spec fn termination_after(termination: Termination, event: KillEvent) -> Option<
        Termination,
    > {
        match (termination, event) {
            (Termination::Signalling, KillEvent::Signalled(Ok(_))) => Some(Termination::Waiting),
            (Termination::Signalling, KillEvent::Signalled(Err(e))) => if e.has_code(ESRCH) {
                Some(Termination::Waiting)
            } else {
                Some(Termination::Idle)
            },
            (Termination::Waiting, KillEvent::Waited(Ok(status))) => Some(
                Termination::Joining(status),
            ),
            (Termination::Waiting, KillEvent::Waited(Err(e))) => if e.has_code(ECHILD) {
                Some(Termination::Joining(ExitStatus::clean()))
            } else {
                Some(Termination::Idle)
            },
            (Termination::Joining(_), KillEvent::Joined) => None,
            _ => Some(Termination::Signalling),
        }
    }

    /// The state that `kill` leaves on `event`: a started process moves on
    /// in its termination, and is stopped, with the status it was reaped
    /// with, once its log-capture tasks have ended; anything else stays as it
    /// is.
    pub open spec fn after_kill(self, event: KillEvent) -> StateView {
        match self {
            StateView::Started { program, args, termination } => match Self::termination_after(
                termination,
                event,
            ) {
                Some(next) => StateView::Started { program, args, termination: next },
                None => StateView::Stopped(termination->Joining_0),
            },
            _ => self,
        }
    }

    /// What `pid` answers in this state when the operating system reports
    /// `os_id` for the process handle.
    pub open spec fn pid(self, os_id: Option<u32>) -> Option<nix::unistd::Pid> {
        match (self, os_id) {
            (StateView::Started { .. }, Some(id)) => Some(pid_of(raw_id(id))),
            _ => None,
        }
    }

    /// The state after one operation.
    pub open spec fn after(self, call: Call) -> StateView {
        match call {
            Call::Start { uid, gid } => self.after_start(uid, gid),
            Call::Spawned { ok } => self.after_spawned(ok),
            Call::Kill(event) => self.after_kill(event),
            Call::Pid { .. } => self,
        }
    }

    /// The state after a sequence of operations, first to last.
    pub open spec fn after_all(self, calls: Seq<Call>) -> StateView
        decreases calls.len(),
    {
        if calls.len() == 0 {
            self
        } else {
            self.after(calls.first()).after_all(calls.drop_first())
        }
    }

    /// What a whole termination hands to the caller of a started process,
    /// given what the operating system answers to the termination request
    /// and to the wait.
    pub open spec fn kill_outcome(
        signalled: Result<(), IoError>,
        waited: Result<ExitStatus, IoError>,
    ) -> Result<ExitStatus, IoError> {
        match signalled {
            Err(e) if !e.has_code(ESRCH) => Err(e),
            _ => match waited {
                Ok(status) => Ok(status),
                Err(e) => if e.has_code(ECHILD) {
                    Ok(ExitStatus::clean())
                } else {
                    Err(e)
                },
            },
        }
    }
}

/// No operation moves the state backward, and none skips a state: one
/// operation leaves the state where it is or moves it to the next one.
pub proof fn lemma_step_forward(state: StateView, call: Call)
    ensures
        state.rank() <= state.after(call).rank() <= state.rank() + 1,
{
}

/// After any sequence of operations the state is where it was or further
/// along `Init`, `Started`, `Stopped`.
pub proof fn lemma_never_backward(state: StateView, calls: Seq<Call>)
    ensures
        state.rank() <= state.after_all(calls).rank(),
    decreases calls.len(),
{
    if calls.len() > 0 {
        lemma_step_forward(state, calls.first());
        lemma_never_backward(state.after(calls.first()), calls.drop_first());
    }
}

/// Running two sequences of operations one after the other is running
/// their concatenation.
pub proof fn lemma_after_all_concat(state: StateView, first: Seq<Call>, second: Seq<Call>)
    ensures
        state.after_all(first + second) == state.after_all(first).after_all(second),
    decreases first.len(),
{
    if first.len() == 0 {
        assert(first + second =~= second);
    } else {
        assert((first + second).first() == first.first());
        assert((first + second).drop_first() =~= first.drop_first() + second);
        lemma_after_all_concat(state.after(first.first()), first.drop_first(), second);
    }
}

/// Along any sequence of operations, the state seen after more of them is
/// never behind the state seen after fewer: what is observed is a walk along
/// `Init`, `Started`, `Stopped` that never turns back.
pub proof fn lemma_observed_in_order(state: StateView, calls: Seq<Call>, fewer: int, more: int)
    requires
        0 <= fewer <= more <= calls.len(),
    ensures
        state.after_all(calls.take(fewer)).rank() <= state.after_all(calls.take(more)).rank(),
{
    assert(calls.take(more) =~= calls.take(fewer) + calls.subrange(fewer, more));
    lemma_after_all_concat(state, calls.take(fewer), calls.subrange(fewer, more));
    lemma_never_backward(state.after_all(calls.take(fewer)), calls.subrange(fewer, more));
}

/// A stopped process stays stopped, with the status it has, whatever
/// operations follow.
pub proof fn lemma_stopped_is_final(status: ExitStatus, calls: Seq<Call>)
    ensures
        StateView::Stopped(status).after_all(calls) == StateView::Stopped(status),
    decreases calls.len(),
{
    if calls.len() > 0 {
        lemma_stopped_is_final(status, calls.drop_first());
    }
}

/// Once a process has been started, `start` asks for no spawn and changes
/// nothing, with whatever arguments it is called; a spawn reported then
/// changes nothing either.
pub proof fn lemma_start_idempotent(
    state: StateView,
    uid: Option<u32>,
    gid: Option<u32>,
    uid2: Option<u32>,
    gid2: Option<u32>,
    ok: bool,
)
    requires
        state is Init,
    ensures
        state.after_start(uid, gid).after_spawned(true) is Started,
        state.after_start(uid, gid).after_spawned(true).start_action() == StartAction::Nothing,
        state.after_start(uid, gid).after_spawned(true).after_start(uid2, gid2)
            == state.after_start(uid, gid).after_spawned(true),
        state.after_start(uid, gid).after_spawned(true).after_spawned(ok)
            == state.after_start(uid, gid).after_spawned(true),
{
}

/// A process is started only by a successful spawn that `start` asked for,
/// and only `start` asks for one.
pub proof fn lemma_started_only_after_start(state: StateView, call: Call)
    requires
        state is Init,
    ensures
        state.after(call) is Started ==> state->spawning && call == (Call::Spawned { ok: true }),
        !(state.after(call) is Stopped),
        state.after(call) is Init && state.after(call)->spawning && !state->spawning
            ==> call is Start,
{
}

/// A spawn that failed leaves the process ready to be started again.
pub proof fn lemma_failed_spawn_keeps_init(state: StateView, uid: Option<u32>, gid: Option<u32>)
    requires
        state is Init,
    ensures
        state.after_start(uid, gid).after_spawned(false) is Init,
        state.after_start(uid, gid).after_spawned(false).start_action() == StartAction::Spawn,
{
}

/// Once `kill` has handed out a status, every later `kill` hands out the
/// same status and changes nothing.
pub proof fn lemma_kill_idempotent(
    state: StateView,
    event: KillEvent,
    status: ExitStatus,
    later: KillEvent,
)
    requires
        state.kill_action(event) == KillAction::Done(Some(status)),
    ensures
        state.after_kill(event) == StateView::Stopped(status),
        state.after_kill(event).kill_action(later) == KillAction::Done(Some(status)),
        state.after_kill(event).after_kill(later) == state.after_kill(event),
{
}

/// `kill` on a process that was never started hands out no status and
/// changes nothing, and asks for nothing to be done.
pub proof fn lemma_kill_before_start(state: StateView, event: KillEvent)
    requires
        state is Init,
    ensures
        state.kill_action(event) == KillAction::Done(None),
        state.after_kill(event) == state,
{
}

/// Driving the termination of a started process step by step, with the
/// operating system's answers as they come, ends as `kill_outcome` says: a
/// failure is handed on and leaves the process started, with nothing under
/// way; a status is handed out after the join and leaves the process stopped
/// with that status.
pub proof fn lemma_kill_run(
    state: StateView,
    signalled: Result<(), IoError>,
    waited: Result<ExitStatus, IoError>,
)
    requires
        state is Started,
    ensures
        ({
            let begun = state.after_kill(KillEvent::Begin);
            let asked = begun.after_kill(KillEvent::Signalled(signalled));
            let reaped = asked.after_kill(KillEvent::Waited(waited));
            let joined = reaped.after_kill(KillEvent::Joined);
            let outcome = StateView::kill_outcome(signalled, waited);
            &&& state.kill_action(KillEvent::Begin) == KillAction::Signal
            &&& match begun.kill_action(KillEvent::Signalled(signalled)) {
                KillAction::Fail(e) => {
                    &&& outcome == Err::<ExitStatus, IoError>(e)
                    &&& asked is Started
                    &&& asked->termination == Termination::Idle
                },
                KillAction::Wait => match asked.kill_action(KillEvent::Waited(waited)) {
                    KillAction::Fail(e) => {
                        &&& outcome == Err::<ExitStatus, IoError>(e)
                        &&& reaped is Started
                        &&& reaped->termination == Termination::Idle
                    },
                    KillAction::Join => {
                        &&& outcome is Ok
                        &&& reaped is Started
                        &&& reaped.kill_action(KillEvent::Joined) == KillAction::Done(
                            Some(outcome->Ok_0),
                        )
                        &&& joined == StateView::Stopped(outcome->Ok_0)
                    },
                    _ => false,
                },
                _ => false,
            }
        }),
{
}

/// A started process hands out a status, and stops, only on the end of
/// its log-capture tasks, and only after it was reaped: the status is the one
/// it was reaped with.
pub proof fn lemma_status_only_after_join(state: StateView, event: KillEvent)
    requires
        state is Started,
    ensures
        state.kill_action(event) is Done <==> state.after_kill(event) is Stopped,
        state.after_kill(event) is Stopped <==> (event is Joined && state->termination is Joining),
        state.after_kill(event) is Stopped ==> {
            &&& state.after_kill(event) == StateView::Stopped(state->termination->Joining_0)
            &&& state.kill_action(event) == KillAction::Done(Some(state->termination->Joining_0))
        },
{
}

/// A started process counts as reaped only on the answer to a wait that
/// was asked for: with the status that the wait gave, or with the status of a
/// clean exit where the wait found no child.
pub proof fn lemma_reaped_only_after_wait(state: StateView, event: KillEvent, status: ExitStatus)
    requires
        state is Started,
        state.after_kill(event) is Started,
        state.after_kill(event)->termination == Termination::Joining(status),
    ensures
        state->termination == Termination::Waiting,
        event is Waited,
        match event->Waited_0 {
            Ok(given) => status == given,
            Err(e) => e.has_code(ECHILD) && status == ExitStatus::clean(),
        },
{
}

/// What a started process was launched with, and that it is started, no
/// step of a termination changes before the last.
pub proof fn lemma_kill_keeps_launch(state: StateView, event: KillEvent)
    requires
        state is Started,
        state.after_kill(event) is Started,
    ensures
        state.after_kill(event)->program == state->program,
        state.after_kill(event)->args == state->args,
{
}

/// A process has an identifier exactly while it is started and the
/// operating system still reports one for its handle.
pub proof fn lemma_pid_availability(state: StateView, os_id: Option<u32>)
    ensures
        state.pid(os_id) is Some <==> (state is Started && os_id is Some),
        state is Init ==> state.pid(os_id) is None,
        state is Stopped ==> state.pid(os_id) is None,
{
}

} // verus!
