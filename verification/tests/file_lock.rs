use serial_test::file_lock::{file_lock_kind, lock_file_name, FileLockKind};
use serial_test::named_lock::Mode;

#[test]
fn serial_is_exclusive_and_parallel_is_shared() {
    assert_eq!(file_lock_kind(Mode::Serial), FileLockKind::Exclusive);
    assert_eq!(file_lock_kind(Mode::Parallel), FileLockKind::Shared);
}

#[test]
fn lock_file_is_named_after_the_resource() {
    assert_eq!(lock_file_name("x"), "serial-test-x");
    assert_eq!(lock_file_name(""), "serial-test-");
    assert_eq!(lock_file_name("db one"), "serial-test-db one");
}

#[test]
fn different_names_have_different_lock_files() {
    assert_ne!(lock_file_name("x"), lock_file_name("y"));
    assert_ne!(lock_file_name("x"), lock_file_name("X"));
    assert_eq!(lock_file_name("x"), lock_file_name("x"));
}
