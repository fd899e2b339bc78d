//! The lock guard as a state machine.
//!
//! Each phase names the one piece of filesystem work that comes next; the
//! caller performs it and hands back whether it went well. Creating the folder
//! and opening the marker file are the only steps whose failure ends the
//! acquisition; a refused OS lock is tolerated and the guard is held without
//! mutual exclusion.

use vstd::prelude::*;

use crate::path::{joined, lock_file_path, lock_folder, lock_folder_of, LOCK_FILE};

verus! {

/// Where a guard stands, and so what the caller does next.
#[derive(PartialEq, Eq, Structural, Clone, Copy, Debug)]
pub enum Phase {
    /// Make sure the lock folder exists, creating it and missing ancestors.
    EnsureFolder,
    /// Open the marker file for reading and writing, creating it if absent.
    OpenFile,
    /// Ask the OS for an exclusive, blocking advisory lock on the open file.
    TakeLock,
    /// Acquired: the guard is held.
    Held,
    /// Acquisition failed with the error of the last step.
    Failed,
    /// Given back: nothing more is to be done.
    Released,
}

/// What a guard is, mathematically.
pub struct LockView {
    pub folder: Seq<char>,
    pub path: Seq<char>,
    pub phase: Phase,
    pub locked: bool,
}

/// A guard over the marker file of one lock folder.
pub struct LockSession {
    folder: String,
    path: String,
    phase: Phase,
    locked: bool,
}

impl View for LockSession {
    type V = LockView;

    closed spec fn view(&self) -> LockView {
        LockView { folder: self.folder@, path: self.path@, phase: self.phase, locked: self.locked }
    }
}

/// The guard that acquisition starts from for `target`, if it has a lock folder.
pub open spec fn start(target: Seq<char>, single_file: bool) -> Option<LockView> {
    match lock_folder_of(target, single_file) {
        Some(folder) => Some(
            LockView {
                folder,
                path: joined(folder, LOCK_FILE@),
                phase: Phase::EnsureFolder,
                locked: false,
            },
        ),
        None => None,
    }
}

/// The guard after the caller reports the outcome `ok` of the step its phase names.
pub open spec fn step(v: LockView, ok: bool) -> LockView {
    match v.phase {
        Phase::EnsureFolder => LockView {
            phase: if ok { Phase::OpenFile } else { Phase::Failed },
            ..v
        },
        Phase::OpenFile => LockView { phase: if ok { Phase::TakeLock } else { Phase::Failed }, ..v },
        Phase::TakeLock => LockView { phase: Phase::Held, locked: ok, ..v },
        _ => v,
    }
}

/// Whether giving back the guard removes the marker file and unlocks it.
pub open spec fn cleans_up(v: LockView) -> bool {
    v.phase == Phase::Held
}

/// The guard after it is given back.
pub open spec fn released(v: LockView) -> LockView {
    if v.phase == Phase::Held {
        LockView { phase: Phase::Released, locked: false, ..v }
    } else {
        v
    }
}

impl LockSession {
    /// Starts acquiring the lock for `target`: a folder to lock, or in
    /// single-file mode a file whose parent folder is locked. Nothing where
    /// single-file mode is asked for and the target has no parent.
    pub fn new(target: &str, single_file: bool) -> (r: Option<LockSession>)
        ensures
            match r {
                Some(s) => start(target@, single_file) == Some(s@),
                None => start(target@, single_file) is None,
            },
    {
        match lock_folder(target, single_file) {
            Some(folder) => {
                let path = lock_file_path(folder.as_str());
                Some(LockSession { folder, path, phase: Phase::EnsureFolder, locked: false })
            },
            None => None,
        }
    }

    /// The folder to create before the marker file is opened.
    pub fn folder(&self) -> (r: &str)
        ensures
            r@ == self@.folder,
    {
        self.folder.as_str()
    }

    /// Where the marker file stands.
    pub fn path(&self) -> (r: &str)
        ensures
            r@ == self@.path,
    {
        self.path.as_str()
    }

    /// Where the guard stands.
    pub fn phase(&self) -> (r: Phase)
        ensures
            r == self@.phase,
    {
        self.phase
    }

    /// Whether the OS granted the exclusive lock. A held guard without it
    /// gives no mutual exclusion.
    pub fn is_locked(&self) -> (r: bool)
        ensures
            r == self@.locked,
    {
        self.locked
    }

    /// Records the outcome of the step that the phase names. In any other
    /// phase the guard is left as it is.
    pub fn advance(&mut self, ok: bool)
        ensures
            final(self)@ == step(old(self)@, ok),
    {
        match self.phase {
            Phase::EnsureFolder => {
                self.phase = if ok { Phase::OpenFile } else { Phase::Failed };
            },
            Phase::OpenFile => {
                self.phase = if ok { Phase::TakeLock } else { Phase::Failed };
            },
            Phase::TakeLock => {
                self.phase = Phase::Held;
                self.locked = ok;
            },
            _ => {},
        }
    }

    /// Gives the guard back. Returns whether the caller is to remove the
    /// marker file and then unlock it, ignoring any error of either; a guard
    /// that is not held asks for nothing, so a second release does nothing.
    pub fn release(&mut self) -> (r: bool)
        ensures
            r == cleans_up(old(self)@),
            final(self)@ == released(old(self)@),
    {
        if self.phase == Phase::Held {
            self.phase = Phase::Released;
            self.locked = false;
            true
        } else {
            false
        }
    }
}

} // verus!
