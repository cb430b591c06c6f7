//! The life of the daemon, from its start to its exit.
//!
//! The daemon starts only if no other instance holds the lock. It then
//! runs until it is told to shut down, by a signal to the process or by a
//! request from within, whichever comes first. On either it cancels the
//! task that owns the connection, waits until that task and the control
//! server have both ended, and gives the lock back. A lock that cannot be
//! given back is an error of the daemon: a record that outlives its
//! process could keep a later instance from starting.

use vstd::prelude::*;

use crate::utils::crypto::{ApiSecret, API_KEY_LEN};
use crate::utils::lock_file::{
    contents_view,
    lock_is_healthy,
    unlock_result,
    LockError,
    LockFile,
    LockFileView,
    Removal,
};
use crate::utils::pid_text::decimal_digits;

verus! {

/// Why the daemon exited.
#[derive(Clone, Copy, Debug, PartialEq, Eq, Structural)]
pub enum ExitReason {
    /// It was shut down and gave the lock back.
    Stopped,
    /// Another instance holds the lock.
    AlreadyRunning,
    /// It was shut down and could not give the lock back.
    UnlockFailed,
}

impl ExitReason {
    /// The exit code of the process: 0 after an orderly shutdown, 1 after
    /// an error.
    pub open spec fn spec_code(&self) -> i32 {
        match *self {
            ExitReason::Stopped => 0,
            _ => 1,
        }
    }

    /// The exit code of the process.
    #[verifier::when_used_as_spec(spec_code)]
    pub fn code(&self) -> (code: i32)
        ensures
            code == self.spec_code(),
    {
        match self {
            ExitReason::Stopped => 0,
            ExitReason::AlreadyRunning => 1,
            ExitReason::UnlockFailed => 1,
        }
    }

    /// The error behind the exit, if it was one.
    pub fn error(&self) -> (error: Option<LockError>)
        ensures
            error == match *self {
                ExitReason::Stopped => None,
                ExitReason::AlreadyRunning => Some(LockError::AlreadyRunning),
                ExitReason::UnlockFailed => Some(LockError::RemoveFailed),
            },
    {
        match self {
            ExitReason::Stopped => None,
            ExitReason::AlreadyRunning => Some(LockError::AlreadyRunning),
            ExitReason::UnlockFailed => Some(LockError::RemoveFailed),
        }
    }
}

/// Where the daemon is in its life.
#[derive(Clone, Copy, Debug, PartialEq, Eq, Structural)]
pub enum Phase {
    /// The lock has not been looked at yet.
    Starting,
    /// The task and the server run.
    Running,
    /// A shutdown is under way: the task and the server are ending.
    Draining,
    /// Both have ended; the lock is being given back.
    Unlocking,
    /// The daemon is done.
    Exited(ExitReason),
}

/// What the host reports to the daemon's lifecycle.
#[derive(Clone, Copy, Debug, PartialEq, Eq, Structural)]
pub enum LifecycleEvent {
    /// The process was signalled to terminate.
    ShutdownSignal,
    /// A shutdown was requested from within, on behalf of a client.
    ShutdownRequest,
    /// The task that owns the connection has ended.
    VpnTaskFinished,
    /// The control server has ended.
    ServerFinished,
    /// The host tried to remove the lock file.
    Unlocked(Removal),
}

/// What the host does for the lifecycle.
#[derive(Debug, PartialEq, Eq)]
pub enum LifecycleAction {
    /// Write this record to the lock file, in place of what is there.
    WriteLock(Vec<u8>),
    /// Make the secret, the queue and the state channel, and start the
    /// task, the server and the signal bridge.
    Launch,
    /// Cancel the task that owns the connection.
    CancelVpnTask,
    /// Remove the lock file and report how that went.
    Unlock,
    /// End the process for this reason.
    Exit(ExitReason),
}

/// [`LifecycleAction`] as plain values.
pub enum LifecycleActionView {
    WriteLock(Seq<u8>),
    Launch,
    CancelVpnTask,
    Unlock,
    Exit(ExitReason),
}

impl View for LifecycleAction {
    type V = LifecycleActionView;

    open spec fn view(&self) -> LifecycleActionView {
        match self {
            LifecycleAction::WriteLock(record) => LifecycleActionView::WriteLock(record@),
            LifecycleAction::Launch => LifecycleActionView::Launch,
            LifecycleAction::CancelVpnTask => LifecycleActionView::CancelVpnTask,
            LifecycleAction::Unlock => LifecycleActionView::Unlock,
            LifecycleAction::Exit(reason) => LifecycleActionView::Exit(*reason),
        }
    }
}

impl DeepView for LifecycleAction {
    type V = LifecycleActionView;

    open spec fn deep_view(&self) -> LifecycleActionView {
        self@
    }
}

/// The lifecycle as plain values.
pub struct LifecycleView {
    pub lock: LockFileView,
    pub phase: Phase,
    pub vpn_task_done: bool,
    pub server_done: bool,
}

/// A lifecycle after something happened, with what it asks of the host.
pub struct Turn {
    pub next: LifecycleView,
    pub actions: Seq<LifecycleActionView>,
}

impl LifecycleView {
    /// The lifecycle as it is, asking for nothing.
    pub open spec fn stay(self) -> Turn {
        Turn { next: self, actions: Seq::empty() }
    }

    /// The lifecycle in another phase, asking for `actions`.
    pub open spec fn go(self, phase: Phase, actions: Seq<LifecycleActionView>) -> Turn {
        Turn { next: LifecycleView { phase, ..self }, actions }
    }

    /// The start, given the contents of the lock file and the instances
    /// that run. With the lock held the daemon exits at once and writes
    /// nothing. Else it writes its record and launches.
    pub open spec fn started(self, contents: Option<Seq<u8>>, running: Set<u32>) -> Turn {
        if self.phase != Phase::Starting {
            self.stay()
        } else if lock_is_healthy(contents, running) {
            self.go(
                Phase::Exited(ExitReason::AlreadyRunning),
                seq![LifecycleActionView::Exit(ExitReason::AlreadyRunning)],
            )
        } else {
            self.go(
                Phase::Running,
                seq![
                    LifecycleActionView::WriteLock(decimal_digits(self.lock.pid as nat)),
                    LifecycleActionView::Launch,
                ],
            )
        }
    }

    /// The lifecycle with the end of one of the two noted, on its way to
    /// giving the lock back once both have ended.
    pub open spec fn one_finished(self, vpn_task_done: bool, server_done: bool) -> Turn {
        let noted = LifecycleView { vpn_task_done, server_done, ..self };
        if self.phase == Phase::Draining && vpn_task_done && server_done {
            noted.go(Phase::Unlocking, seq![LifecycleActionView::Unlock])
        } else {
            noted.stay()
        }
    }

    /// The lifecycle after `event`. An event that does not belong to the
    /// phase changes nothing.
    pub open spec fn stepped(self, event: LifecycleEvent) -> Turn {
        match (self.phase, event) {
            (Phase::Running, LifecycleEvent::ShutdownSignal)
            | (Phase::Running, LifecycleEvent::ShutdownRequest) => if self.vpn_task_done
                && self.server_done {
                self.go(
                    Phase::Unlocking,
                    seq![LifecycleActionView::CancelVpnTask, LifecycleActionView::Unlock],
                )
            } else {
                self.go(Phase::Draining, seq![LifecycleActionView::CancelVpnTask])
            },
            (Phase::Running, LifecycleEvent::VpnTaskFinished)
            | (Phase::Draining, LifecycleEvent::VpnTaskFinished) => self.one_finished(
                true,
                self.server_done,
            ),
            (Phase::Running, LifecycleEvent::ServerFinished)
            | (Phase::Draining, LifecycleEvent::ServerFinished) => self.one_finished(
                self.vpn_task_done,
                true,
            ),
            (Phase::Unlocking, LifecycleEvent::Unlocked(removal)) => {
                let reason = match unlock_result(removal) {
                    Ok(_) => ExitReason::Stopped,
                    Err(_) => ExitReason::UnlockFailed,
                };
                self.go(Phase::Exited(reason), seq![LifecycleActionView::Exit(reason)])
            },
            _ => self.stay(),
        }
    }
}

/// The lifecycle of one daemon.
#[derive(Debug, PartialEq, Eq)]
pub struct Lifecycle {
    lock: LockFile,
    phase: Phase,
    vpn_task_done: bool,
    server_done: bool,
}

impl View for Lifecycle {
    type V = LifecycleView;

    closed spec fn view(&self) -> LifecycleView {
        LifecycleView {
            lock: self.lock@,
            phase: self.phase,
            vpn_task_done: self.vpn_task_done,
            server_done: self.server_done,
        }
    }
}

/// Turns the random bytes that the host drew into the secret of this run.
pub fn prepare_api_key(random: Vec<u8>) -> (secret: Option<ApiSecret>)
    ensures
        random@.len() == API_KEY_LEN ==> secret is Some && secret.unwrap()@ == random@,
        random@.len() != API_KEY_LEN ==> secret is None,
{
    ApiSecret::new(random)
}

impl Lifecycle {
    /// The lifecycle of a daemon that is about to start, with its handle
    /// on the lock file.
    pub fn new(lock: LockFile) -> (lifecycle: Self)
        ensures
            lifecycle@ == (LifecycleView {
                lock: lock@,
                phase: Phase::Starting,
                vpn_task_done: false,
                server_done: false,
            }),
    {
        Lifecycle { lock, phase: Phase::Starting, vpn_task_done: false, server_done: false }
    }

    /// The phase the daemon is in.
    pub fn phase(&self) -> (phase: Phase)
        ensures
            phase == self@.phase,
    {
        self.phase
    }

    /// The daemon's handle on the lock file.
    pub fn lock_file(&self) -> (lock: &LockFile)
        ensures
            lock@ == self@.lock,
    {
        &self.lock
    }

    /// Starts the daemon. `contents` is what the host read from the lock
    /// file, `None` where there is no file or it cannot be read; `running`
    /// holds the process ids of the instances of the daemon that run.
    pub fn start(&mut self, contents: Option<&[u8]>, running: &[u32]) -> (actions: Vec<
        LifecycleAction,
    >)
        ensures
            final(self)@ == old(self)@.started(contents_view(contents), running@.to_set()).next,
            actions.deep_view() == old(self)@.started(
                contents_view(contents),
                running@.to_set(),
            ).actions,
    {
        let mut actions: Vec<LifecycleAction> = Vec::new();
        if let Phase::Starting = self.phase {
            match self.lock.lock(contents, running) {
                Ok(record) => {
                    self.phase = Phase::Running;
                    actions.push(LifecycleAction::WriteLock(record));
                    actions.push(LifecycleAction::Launch);
                },
                Err(_) => {
                    self.phase = Phase::Exited(ExitReason::AlreadyRunning);
                    actions.push(LifecycleAction::Exit(ExitReason::AlreadyRunning));
                },
            }
        }
        assert(actions.deep_view() =~= old(self)@.started(
            contents_view(contents),
            running@.to_set(),
        ).actions);
        actions
    }

    /// Notes that the task or the server has ended.
    fn note_finished(&mut self, vpn_task_done: bool, server_done: bool) -> (actions: Vec<
        LifecycleAction,
    >)
        ensures
            final(self)@ == old(self)@.one_finished(vpn_task_done, server_done).next,
            actions.deep_view() == old(self)@.one_finished(vpn_task_done, server_done).actions,
    {
        let mut actions: Vec<LifecycleAction> = Vec::new();
        self.vpn_task_done = vpn_task_done;
        self.server_done = server_done;
        if self.phase == Phase::Draining && vpn_task_done && server_done {
            self.phase = Phase::Unlocking;
            actions.push(LifecycleAction::Unlock);
        }
        assert(actions.deep_view() =~= old(self)@.one_finished(
            vpn_task_done,
            server_done,
        ).actions);
        actions
    }

    /// Takes the lifecycle one event further.
    pub fn step(&mut self, event: LifecycleEvent) -> (actions: Vec<LifecycleAction>)
        ensures
            final(self)@ == old(self)@.stepped(event).next,
            actions.deep_view() == old(self)@.stepped(event).actions,
    {
        let mut actions: Vec<LifecycleAction> = Vec::new();
        match (self.phase, event) {
            (Phase::Running, LifecycleEvent::ShutdownSignal)
            | (Phase::Running, LifecycleEvent::ShutdownRequest) => {
                actions.push(LifecycleAction::CancelVpnTask);
                if self.vpn_task_done && self.server_done {
                    self.phase = Phase::Unlocking;
                    actions.push(LifecycleAction::Unlock);
                } else {
                    self.phase = Phase::Draining;
                }
            },
            (Phase::Running, LifecycleEvent::VpnTaskFinished)
            | (Phase::Draining, LifecycleEvent::VpnTaskFinished) => {
                return self.note_finished(true, self.server_done);
            },
            (Phase::Running, LifecycleEvent::ServerFinished)
            | (Phase::Draining, LifecycleEvent::ServerFinished) => {
                return self.note_finished(self.vpn_task_done, true);
            },
            (Phase::Unlocking, LifecycleEvent::Unlocked(removal)) => {
                let reason = match self.lock.unlock(removal) {
                    Ok(_) => ExitReason::Stopped,
                    Err(_) => ExitReason::UnlockFailed,
                };
                self.phase = Phase::Exited(reason);
                actions.push(LifecycleAction::Exit(reason));
            },
            _ => {},
        }
        assert(actions.deep_view() =~= old(self)@.stepped(event).actions);
        actions
    }
}

/// The order of a shutdown. Whatever phase the daemon is in and whatever
/// is reported to it: it asks for the lock to be given back only when the
/// task and the server have both ended, and only on its way from running
/// or draining to unlocking; it cancels the task only on leaving the
/// running phase; and it exits in good order only from unlocking, after a
/// removal that did not fail.
pub proof fn lemma_shutdown_is_ordered(lifecycle: LifecycleView, event: LifecycleEvent)
    ensures
        ({
            let turn = lifecycle.stepped(event);
            &&& turn.actions.contains(LifecycleActionView::Unlock) ==> {
                &&& turn.next.vpn_task_done
                &&& turn.next.server_done
                &&& turn.next.phase == Phase::Unlocking
                &&& lifecycle.phase == Phase::Running || lifecycle.phase == Phase::Draining
            }
            &&& turn.actions.contains(LifecycleActionView::CancelVpnTask) ==> {
                &&& lifecycle.phase == Phase::Running
                &&& turn.actions[0] == LifecycleActionView::CancelVpnTask
            }
            &&& turn.actions.contains(LifecycleActionView::Exit(ExitReason::Stopped)) ==> {
                &&& lifecycle.phase == Phase::Unlocking
                &&& event matches LifecycleEvent::Unlocked(removal)
                &&& removal != Removal::Failed
            }
            &&& turn.next.lock == lifecycle.lock
        }),
{
}

} // verus!
