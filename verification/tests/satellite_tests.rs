use waylandcraft::satellite::{
    check_x11_dir, display_name, lock_file_contents, lock_file_pid, xws_args, RestartPolicy, RestartRefusal,
};

#[test]
fn restart_needs_five_seconds_between_attempts() {
    let mut p = RestartPolicy::new();
    assert_eq!(p.begin_restart(10_000), Ok(()));
    assert_eq!(p.begin_restart(14_999), Err(RestartRefusal::TooSoon));
    // A clock that went back counts as no time passed.
    assert_eq!(p.begin_restart(9_000), Err(RestartRefusal::TooSoon));
    assert_eq!(p.begin_restart(15_000), Ok(()));
}

#[test]
fn restart_gives_up_after_three_in_a_minute() {
    let mut p = RestartPolicy::new();
    assert_eq!(p.begin_restart(0), Ok(()));
    assert_eq!(p.begin_restart(5_000), Ok(()));
    assert_eq!(p.begin_restart(10_000), Ok(()));
    assert_eq!(p.begin_restart(15_000), Err(RestartRefusal::TooMany));
    assert_eq!(p.begin_restart(59_999), Err(RestartRefusal::TooMany));
    // The first restart leaves the window at 60 s.
    assert_eq!(p.begin_restart(60_000), Ok(()));
    assert_eq!(p.begin_restart(65_000), Ok(()));
    assert_eq!(p.begin_restart(69_999), Err(RestartRefusal::TooSoon));
    assert_eq!(p.begin_restart(70_000), Ok(()));
    assert_eq!(p.begin_restart(75_000), Err(RestartRefusal::TooMany));
}

#[test]
fn refusal_messages() {
    assert_eq!(RestartRefusal::TooSoon.message(), "satellite died < 5s ago; skipping restart");
    assert_eq!(RestartRefusal::TooMany.message(), "satellite died ≥3 times in 60s; giving up");
}

#[test]
fn x11_dir_checks_in_order() {
    assert_eq!(check_x11_dir(0, 0, 1000, true, 0o41777), Ok(()));
    assert_eq!(check_x11_dir(1000, 0, 1000, true, 0o1777), Ok(()));
    assert_eq!(check_x11_dir(5, 0, 1000, false, 0o777), Err("wrong ownership"));
    assert_eq!(check_x11_dir(0, 0, 1000, false, 0o777), Err("not writeable"));
    assert_eq!(check_x11_dir(0, 0, 1000, true, 0o777), Err("no sticky bit"));
}

#[test]
fn lock_file_is_right_aligned_pid() {
    assert_eq!(lock_file_contents(4242), format!("{:>10}\n", 4242));
    assert_eq!(lock_file_contents(4242), "      4242\n");
    assert_eq!(lock_file_contents(4_294_967_295), "4294967295\n");
}

#[test]
fn lock_file_holder() {
    assert_eq!(lock_file_pid("      4242\n"), Some(4242));
    assert_eq!(lock_file_pid("0\n"), None);
    assert_eq!(lock_file_pid("2147483648"), None);
    assert_eq!(lock_file_pid("2147483647"), Some(2147483647));
    assert_eq!(lock_file_pid("x"), None);
}

#[test]
fn satellite_command_line() {
    assert_eq!(display_name(2), ":2");
    assert_eq!(xws_args(3, &vec![7, 9]), vec![":3", "-listenfd", "7", "-listenfd", "9"]);
    assert_eq!(xws_args(1, &vec![]), vec![":1"]);
}
