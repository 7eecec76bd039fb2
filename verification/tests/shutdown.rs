use eval_shell::shutdown::ShutdownFlag;

#[test]
fn flag_starts_unset() {
    let flag = ShutdownFlag::new();
    assert!(!flag.is_shutdown_requested());
}

#[test]
fn request_shutdown_sets_flag() {
    let mut flag = ShutdownFlag::new();
    flag.request_shutdown();
    assert!(flag.is_shutdown_requested());
}

#[test]
fn request_shutdown_is_idempotent() {
    let mut once = ShutdownFlag::new();
    once.request_shutdown();
    let mut twice = ShutdownFlag::new();
    twice.request_shutdown();
    twice.request_shutdown();
    assert_eq!(once.is_shutdown_requested(), twice.is_shutdown_requested());
    assert!(twice.is_shutdown_requested());
}
