//! What holds of every run of the guard.

use vstd::prelude::*;

use crate::path::{joined, lock_folder_of, parent_of, LOCK_FILE};
use crate::session::{cleans_up, released, start, step, LockView, Phase};

verus! {

/// The guard after the caller reports, in order, that the folder exists, how
/// opening the marker file went, and how the OS lock request went.
pub open spec fn acquired(v: LockView, folder_ok: bool, open_ok: bool, lock_ok: bool) -> LockView {
    step(step(step(v, folder_ok), open_ok), lock_ok)
}

/// Acquisition on a target with a lock folder succeeds once the folder exists
/// and the marker file opens, whatever the OS answers to the lock request; the
/// guard then knows whether it holds the lock.
pub proof fn lemma_acquire_succeeds(target: Seq<char>, single_file: bool, lock_ok: bool)
    requires
        start(target, single_file) is Some,
    ensures
        acquired(start(target, single_file).unwrap(), true, true, lock_ok).phase == Phase::Held,
        acquired(start(target, single_file).unwrap(), true, true, lock_ok).locked == lock_ok,
{
}

/// Acquisition fails exactly when creating the folder or opening the marker
/// file fails, and then asks for no later step.
pub proof fn lemma_acquire_fails(target: Seq<char>, single_file: bool, folder_ok: bool, open_ok: bool, lock_ok: bool)
    requires
        start(target, single_file) is Some,
        !folder_ok || !open_ok,
    ensures
        !folder_ok ==> step(start(target, single_file).unwrap(), folder_ok).phase == Phase::Failed,
        acquired(start(target, single_file).unwrap(), folder_ok, open_ok, lock_ok).phase == Phase::Failed,
{
}

/// Giving back a held guard removes the marker file, whether or not the OS
/// lock was granted; giving it back again asks for nothing.
pub proof fn lemma_release_removes_file(v: LockView)
    requires
        v.phase == Phase::Held,
    ensures
        cleans_up(v),
        released(v).phase == Phase::Released,
        released(v).path == v.path,
        !cleans_up(released(v)),
        released(released(v)) == released(v),
{
}

/// In single-file mode the marker file stands in the target's parent folder,
/// under the fixed marker name.
pub proof fn lemma_single_file_path(target: Seq<char>)
    requires
        parent_of(target) is Some,
    ensures
        start(target, true) is Some,
        start(target, true).unwrap().folder == parent_of(target).unwrap(),
        start(target, true).unwrap().path == joined(parent_of(target).unwrap(), LOCK_FILE@),
{
}

/// Acquisition first makes sure that the lock folder exists, and opens the
/// marker file only once it does.
pub proof fn lemma_folder_before_file(target: Seq<char>, single_file: bool)
    requires
        start(target, single_file) is Some,
    ensures
        start(target, single_file).unwrap().phase == Phase::EnsureFolder,
        Some(start(target, single_file).unwrap().folder) == lock_folder_of(target, single_file),
        step(start(target, single_file).unwrap(), true).phase == Phase::OpenFile,
{
}

/// Two cycles of acquiring and giving back on the same target both succeed,
/// lock the same marker file, and each removes it when given back.
pub proof fn lemma_sequential_cycles(target: Seq<char>, single_file: bool, lock_first: bool, lock_second: bool)
    requires
        start(target, single_file) is Some,
    ensures
        ({
            let first = acquired(start(target, single_file).unwrap(), true, true, lock_first);
            let second = acquired(start(target, single_file).unwrap(), true, true, lock_second);
            &&& first.phase == Phase::Held
            &&& second.phase == Phase::Held
            &&& first.path == second.path
            &&& cleans_up(first)
            &&& cleans_up(second)
            &&& released(first).phase == Phase::Released
            &&& released(second).phase == Phase::Released
        }),
{
}

} // verus!
