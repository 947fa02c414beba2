use volume_mirror::supervisor::{decide_role, Role, Supervisor, RELAUNCH_DELAY_SECS};

#[test]
fn marker_argument_selects_the_worker_role() {
    let marker = String::from("managed");
    assert_eq!(decide_role(Some(&marker)), Role::Worker);
}

#[test]
fn anything_else_supervises() {
    let other = String::from("verbose");
    assert_eq!(decide_role(Some(&other)), Role::Supervisor);
    assert_eq!(decide_role(None), Role::Supervisor);
}

#[test]
fn worker_exit_relaunches_exactly_one_after_fixed_delay() {
    let mut sup = Supervisor::new();
    sup.record_launch();
    assert_eq!(sup.launches, 1);

    // The worker exits immediately: the supervisor waits 5 s and launches
    // exactly one new worker, whatever the exit reason.
    let delay = sup.on_worker_exit();
    assert_eq!(delay, RELAUNCH_DELAY_SECS);
    assert_eq!(delay, 5);
    assert_eq!(sup.launches, 2);

    // And again on the next exit.
    let delay = sup.on_worker_exit();
    assert_eq!(delay, 5);
    assert_eq!(sup.launches, 3);
}
