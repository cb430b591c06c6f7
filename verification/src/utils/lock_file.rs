//! The lock file: the record by which at most one instance of the daemon
//! runs at a time.
//!
//! The record is a file at a fixed path that holds the process id of the
//! instance that wrote it. A record is healthy when the process it names
//! is a running instance of the daemon; a record left behind by a crash is
//! not, and the next instance to start takes it over. Looking at the record
//! and writing one's own are two steps, so two instances that start at the
//! same moment can both find the lock free: the lock is as good as a file
//! can make it, and no better.
//!
//! Reading, writing and removing the file, and finding out which processes
//! run, are the host's part.

use vstd::prelude::*;

use crate::utils::pid_text::{
    decimal_digits,
    lemma_pid_text_round_trip,
    parse_pid,
    parsed_pid,
    pid_text,
};

verus! {

/// Why the lock could not be taken or given back.
#[derive(Clone, Copy, Debug, PartialEq, Eq, Structural)]
pub enum LockError {
    /// The record names a running instance of the daemon.
    AlreadyRunning,
    /// The record is still there and could not be removed.
    RemoveFailed,
}

impl LockError {
    /// The text of the error, for display.
    pub open spec fn message_text(self) -> Seq<char> {
        match self {
            LockError::AlreadyRunning => "Another instance of the service is already running"@,
            LockError::RemoveFailed => "Failed to remove the lock file"@,
        }
    }

    /// The text of the error, for display.
    pub fn message(&self) -> (text: &'static str)
        ensures
            text@ == self.message_text(),
    {
        match self {
            LockError::AlreadyRunning => "Another instance of the service is already running",
            LockError::RemoveFailed => "Failed to remove the lock file",
        }
    }
}

/// How the host's attempt to remove the record ended.
#[derive(Clone, Copy, Debug, PartialEq, Eq, Structural)]
pub enum Removal {
    /// The record was there and is gone.
    Removed,
    /// There was no record to remove.
    Absent,
    /// The record is still there.
    Failed,
}

/// Whether a lock file with these contents (`None`: no file, or one that
/// cannot be read) is held by one of the running instances of the daemon.
pub open spec fn lock_is_healthy(contents: Option<Seq<u8>>, running: Set<u32>) -> bool {
    match contents {
        Some(text) => match parsed_pid(text) {
            Some(pid) => running.contains(pid),
            None => false,
        },
        None => false,
    }
}

/// The contents of a file as the host read them, as plain bytes.
pub open spec fn contents_view(contents: Option<&[u8]>) -> Option<Seq<u8>> {
    match contents {
        Some(bytes) => Some(bytes@),
        None => None,
    }
}

/// The handle of one instance of the daemon on the lock file.
#[derive(Debug, PartialEq, Eq)]
pub struct LockFile {
    path: String,
    pid: u32,
}

/// [`LockFile`] as plain values.
pub struct LockFileView {
    pub path: Seq<char>,
    pub pid: u32,
}

impl View for LockFile {
    type V = LockFileView;

    closed spec fn view(&self) -> LockFileView {
        LockFileView { path: self.path@, pid: self.pid }
    }
}

/// Whether `pid` is among `pids`.
fn contains_pid(pids: &[u32], pid: u32) -> (found: bool)
    ensures
        found == pids@.contains(pid),
{
    let mut i: usize = 0;
    while i < pids.len()
        invariant
            0 <= i <= pids@.len(),
            forall|k: int| 0 <= k < i ==> pids@[k] != pid,
        decreases pids@.len() - i,
    {
        if pids[i] == pid {
            return true;
        }
        i = i + 1;
    }
    false
}

impl LockFile {
    /// A handle for the instance with process id `pid` on the lock file at
    /// `path`. Nothing is written yet.
    pub fn new(path: &str, pid: u32) -> (lock: Self)
        ensures
            lock@ == (LockFileView { path: path@, pid }),
    {
        LockFile { path: path.to_owned(), pid }
    }

    /// Where the record is kept.
    pub fn path(&self) -> (path: &str)
        ensures
            path@ == self@.path,
    {
        self.path.as_str()
    }

    /// The process id of the instance that this handle belongs to.
    pub fn pid(&self) -> (pid: u32)
        ensures
            pid == self@.pid,
    {
        self.pid
    }

    /// The record of this instance: its process id as decimal text.
    pub fn record(&self) -> (text: Vec<u8>)
        ensures
            text@ == decimal_digits(self@.pid as nat),
    {
        pid_text(self.pid)
    }

    /// Whether the lock is held. `contents` is what the host read at the
    /// path, `None` where there is no file or it cannot be read; `running`
    /// holds the process ids of the instances of the daemon that the host
    /// found running. The lock is held exactly if the contents record a
    /// process id and that process is among them.
    pub fn check_health(&self, contents: Option<&[u8]>, running: &[u32]) -> (healthy: bool)
        ensures
            healthy == lock_is_healthy(contents_view(contents), running@.to_set()),
    {
        match contents {
            Some(text) => match parse_pid(text) {
                Some(pid) => contains_pid(running, pid),
                None => false,
            },
            None => false,
        }
    }

    /// Decides the start of this instance. Where the lock is held the start
    /// is refused and the record stays as it is. Where it is not, the
    /// result is the record for the host to write at the path, in place of
    /// whatever is there.
    pub fn lock(&self, contents: Option<&[u8]>, running: &[u32]) -> (record: Result<
        Vec<u8>,
        LockError,
    >)
        ensures
            lock_is_healthy(contents_view(contents), running@.to_set()) ==> record == Err::<
                Vec<u8>,
                LockError,
            >(LockError::AlreadyRunning),
            !lock_is_healthy(contents_view(contents), running@.to_set()) ==> record is Ok
                && record.unwrap()@ == decimal_digits(self@.pid as nat),
    {
        if self.check_health(contents, running) {
            Err(LockError::AlreadyRunning)
        } else {
            Ok(self.record())
        }
    }

    /// Judges the removal of the record at shutdown. A record that was
    /// already gone is no failure; one that is still there is.
    pub fn unlock(&self, removal: Removal) -> (result: Result<(), LockError>)
        ensures
            result == unlock_result(removal),
    {
        match removal {
            Removal::Removed => Ok(()),
            Removal::Absent => Ok(()),
            Removal::Failed => Err(LockError::RemoveFailed),
        }
    }
}

/// What [`LockFile::unlock`] makes of a removal.
pub open spec fn unlock_result(removal: Removal) -> Result<(), LockError> {
    match removal {
        Removal::Removed | Removal::Absent => Ok(()),
        Removal::Failed => Err(LockError::RemoveFailed),
    }
}

/// The lock file and the instances of the daemon on one machine.
pub struct LockWorld {
    /// The contents of the lock file, `None` where there is none.
    pub contents: Option<Seq<u8>>,
    /// The process ids of the instances that started and have not ended.
    pub running: Set<u32>,
}

/// What can happen to the instances of the daemon.
pub enum LockEvent {
    /// A new process with this id goes through the start of the daemon.
    Start(u32),
    /// The process with this id ends without cleaning up.
    Crash(u32),
    /// The instance with this id shuts down and removes the record.
    Shutdown(u32),
}

impl LockWorld {
    /// A machine on which the daemon has never run.
    pub open spec fn fresh() -> LockWorld {
        LockWorld { contents: None, running: Set::empty() }
    }

    /// Whether a process that starts now is let through.
    pub open spec fn admits(self) -> bool {
        !lock_is_healthy(self.contents, self.running)
    }

    /// The world after one event. A start goes as [`LockFile::lock`]
    /// decides: with the lock held nothing changes, else the record of the
    /// new instance takes the place of what was there. A start is taken as
    /// one step: the look at the record and the write of the new one are
    /// not interleaved with other starts.
    pub open spec fn after(self, event: LockEvent) -> LockWorld {
        match event {
            LockEvent::Start(pid) => if self.admits() {
                LockWorld {
                    contents: Some(decimal_digits(pid as nat)),
                    running: self.running.insert(pid),
                }
            } else {
                self
            },
            LockEvent::Crash(pid) => LockWorld { running: self.running.remove(pid), ..self },
            LockEvent::Shutdown(pid) => if self.running.contains(pid) {
                LockWorld { contents: None, running: self.running.remove(pid) }
            } else {
                self
            },
        }
    }

    /// The world after a sequence of events.
    pub open spec fn after_all(self, events: Seq<LockEvent>) -> LockWorld
        decreases events.len(),
    {
        if events.len() == 0 {
            self
        } else {
            self.after_all(events.drop_last()).after(events.last())
        }
    }

    /// Every running instance is the one that the record names.
    pub open spec fn holder_is_recorded(self) -> bool {
        forall|pid: u32| #[trigger]
            self.running.contains(pid) ==> self.contents is Some && parsed_pid(
                self.contents.unwrap(),
            ) == Some(pid)
    }

    /// No two instances run at once.
    pub open spec fn at_most_one_running(self) -> bool {
        forall|p: u32, q: u32| self.running.contains(p) && self.running.contains(q) ==> p == q
    }
}

/// One event keeps the running instance the recorded one.
pub proof fn lemma_event_keeps_single_holder(world: LockWorld, event: LockEvent)
    requires
        world.holder_is_recorded(),
    ensures
        world.after(event).holder_is_recorded(),
        world.after(event).at_most_one_running(),
{
    let next = world.after(event);
    match event {
        LockEvent::Start(pid) => {
            lemma_pid_text_round_trip(pid);
            if world.admits() {
                assert forall|p: u32| world.running.contains(p) implies false by {
                    assert(parsed_pid(world.contents.unwrap()) == Some(p));
                }
                assert forall|p: u32| next.running.contains(p) implies p == pid by {
                    if p != pid {
                        assert(world.running.contains(p));
                    }
                }
            }
        },
        LockEvent::Crash(pid) => {},
        LockEvent::Shutdown(pid) => {
            if world.running.contains(pid) {
                assert(parsed_pid(world.contents.unwrap()) == Some(pid));
                assert forall|p: u32| next.running.contains(p) implies false by {
                    assert(world.running.contains(p));
                    assert(parsed_pid(world.contents.unwrap()) == Some(p));
                }
            }
        },
    }
    assert forall|p: u32, q: u32|
        next.running.contains(p) && next.running.contains(q) implies p == q by {
        assert(parsed_pid(next.contents.unwrap()) == Some(p));
        assert(parsed_pid(next.contents.unwrap()) == Some(q));
    }
}

/// A sequence of events keeps the running instance the recorded one.
pub proof fn lemma_events_keep_single_holder(world: LockWorld, events: Seq<LockEvent>)
    requires
        world.holder_is_recorded(),
    ensures
        world.after_all(events).holder_is_recorded(),
    decreases events.len(),
{
    if events.len() > 0 {
        lemma_events_keep_single_holder(world, events.drop_last());
        lemma_event_keeps_single_holder(world.after_all(events.drop_last()), events.last());
    }
}

/// Whatever sequence of starts, crashes and shutdowns a machine goes
/// through, at no point do two instances of the daemon run, and the one
/// that runs is the one that the record names.
pub proof fn lemma_single_instance(events: Seq<LockEvent>)
    ensures
        LockWorld::fresh().after_all(events).holder_is_recorded(),
        LockWorld::fresh().after_all(events).at_most_one_running(),
{
    lemma_events_keep_single_holder(LockWorld::fresh(), events);
    let world = LockWorld::fresh().after_all(events);
    assert forall|p: u32, q: u32|
        world.running.contains(p) && world.running.contains(q) implies p == q by {
        assert(parsed_pid(world.contents.unwrap()) == Some(p));
        assert(parsed_pid(world.contents.unwrap()) == Some(q));
    }
}

/// On a machine where no instance runs, the next start succeeds whatever
/// the lock file holds, and leaves the new instance as the recorded holder:
/// a record left by a crash does not keep the daemon from starting again.
pub proof fn lemma_restart_after_crash(world: LockWorld, pid: u32)
    requires
        world.running == Set::<u32>::empty(),
    ensures
        world.admits(),
        world.after(LockEvent::Start(pid)).running == set![pid],
        world.after(LockEvent::Start(pid)).contents == Some(decimal_digits(pid as nat)),
        parsed_pid(decimal_digits(pid as nat)) == Some(pid),
{
    lemma_pid_text_round_trip(pid);
    assert(world.running.insert(pid) =~= set![pid]);
}

/// While an instance runs as the recorded holder, every further start is
/// refused and changes nothing.
pub proof fn lemma_second_start_is_refused(world: LockWorld, holder: u32, pid: u32)
    requires
        world.holder_is_recorded(),
        world.running.contains(holder),
    ensures
        !world.admits(),
        world.after(LockEvent::Start(pid)) == world,
{
    assert(parsed_pid(world.contents.unwrap()) == Some(holder));
}

} // verus!
