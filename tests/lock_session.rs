use cache_lock::path::{lock_file_path, lock_folder, LOCK_FILE};
use cache_lock::session::{LockSession, Phase};

fn held(target: &str, single_file: bool, lock_ok: bool) -> LockSession {
    let mut s = LockSession::new(target, single_file).unwrap();
    assert_eq!(s.phase(), Phase::EnsureFolder);
    s.advance(true);
    assert_eq!(s.phase(), Phase::OpenFile);
    s.advance(true);
    assert_eq!(s.phase(), Phase::TakeLock);
    s.advance(lock_ok);
    s
}

#[test]
fn marker_name_is_fixed() {
    assert_eq!(LOCK_FILE, "sm.lock");
}

#[test]
fn folder_mode_locks_the_target_itself() {
    assert_eq!(lock_folder("/tmp/cache", false), Some("/tmp/cache".to_string()));
    let s = LockSession::new("/tmp/cache", false).unwrap();
    assert_eq!(s.folder(), "/tmp/cache");
    assert_eq!(s.path(), "/tmp/cache/sm.lock");
}

#[test]
fn single_file_mode_locks_the_parent() {
    assert_eq!(lock_folder("/tmp/dir/cache.db", true), Some("/tmp/dir".to_string()));
    let s = LockSession::new("/tmp/dir/cache.db", true).unwrap();
    assert_eq!(s.folder(), "/tmp/dir");
    assert_eq!(s.path(), "/tmp/dir/sm.lock");
    assert_ne!(s.path(), "/tmp/dir/cache.db.lock");
}

#[test]
fn single_file_mode_relative_name_locks_empty_parent() {
    let s = LockSession::new("cache.db", true).unwrap();
    assert_eq!(s.folder(), "");
    assert_eq!(s.path(), "sm.lock");
}

#[test]
fn single_file_mode_without_parent_is_refused() {
    assert!(LockSession::new("/", true).is_none());
    assert!(LockSession::new("", true).is_none());
    assert_eq!(lock_folder("/", true), None);
}

#[test]
fn folder_mode_accepts_root() {
    let s = LockSession::new("/", false).unwrap();
    assert_eq!(s.path(), "/sm.lock");
}

#[test]
fn marker_path_joins_folder_and_name() {
    assert_eq!(lock_file_path("a/b"), "a/b/sm.lock");
    assert_eq!(lock_file_path("a/b/"), "a/b/sm.lock");
}

#[test]
fn fresh_acquire_is_held_and_locked() {
    let s = held("/tmp/fresh", false, true);
    assert_eq!(s.phase(), Phase::Held);
    assert!(s.is_locked());
}

#[test]
fn refused_os_lock_is_still_held() {
    let s = held("/tmp/nolock", false, false);
    assert_eq!(s.phase(), Phase::Held);
    assert!(!s.is_locked());
}

#[test]
fn folder_failure_fails_acquire() {
    let mut s = LockSession::new("/tmp/x", false).unwrap();
    s.advance(false);
    assert_eq!(s.phase(), Phase::Failed);
    s.advance(true);
    assert_eq!(s.phase(), Phase::Failed);
    let mut s = s;
    assert!(!s.release());
}

#[test]
fn open_failure_fails_acquire() {
    let mut s = LockSession::new("/tmp/x", false).unwrap();
    s.advance(true);
    s.advance(false);
    assert_eq!(s.phase(), Phase::Failed);
    assert!(!s.is_locked());
}

#[test]
fn release_cleans_up_whatever_the_lock_outcome() {
    for lock_ok in [true, false] {
        let mut s = held("/tmp/rel", false, lock_ok);
        assert!(s.release());
        assert_eq!(s.phase(), Phase::Released);
        assert!(!s.is_locked());
        assert_eq!(s.path(), "/tmp/rel/sm.lock");
    }
}

#[test]
fn second_release_does_nothing() {
    let mut s = held("/tmp/twice", false, true);
    assert!(s.release());
    assert!(!s.release());
    assert_eq!(s.phase(), Phase::Released);
}

#[test]
fn advance_after_held_changes_nothing() {
    let mut s = held("/tmp/h", false, true);
    s.advance(false);
    assert_eq!(s.phase(), Phase::Held);
    assert!(s.is_locked());
}

#[test]
fn two_sequential_cycles_use_the_same_marker() {
    let mut first = held("/tmp/seq/cache.db", true, true);
    assert!(first.release());
    let mut second = held("/tmp/seq/cache.db", true, true);
    assert_eq!(first.path(), second.path());
    assert!(second.release());
    assert_eq!(second.phase(), Phase::Released);
}
