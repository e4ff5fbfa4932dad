use pty_exec::pty::{
    child_setup_order, classify_descriptor, kill_command, resize_outcome, signals_to_reset,
    validate_fd, ChildStep, ResetSignal,
};
use pty_exec::{Pty, WindowSize};

#[test]
fn kill_writes_exit_and_carriage_return() {
    assert_eq!(kill_command(), "exit\r");
}

#[test]
fn resize_outcome_follows_return_code() {
    assert!(resize_outcome(0).is_ok());
    assert!(resize_outcome(1).is_ok());
    let e = resize_outcome(-1).unwrap_err();
    assert_eq!(e.0, "Window resize failure");
}

#[test]
fn dead_descriptor_is_refused_with_its_number() {
    let e = classify_descriptor(false, 42).unwrap_err();
    assert_eq!(e.0, "Invalid file descriptor: 42");
    assert!(classify_descriptor(true, 42).is_ok());
}

#[test]
fn validate_fd_rejects_closed_descriptors() {
    // descriptor numbers this large are not open in the test process
    let e = validate_fd(987654).unwrap_err();
    assert_eq!(e.0, "Invalid file descriptor: 987654");
}

#[test]
fn validate_fd_accepts_live_descriptors() {
    let (r, w) = nix::unistd::pipe().unwrap();
    assert!(validate_fd(r).is_ok());
    assert!(validate_fd(w).is_ok());
    nix::unistd::close(r).unwrap();
    nix::unistd::close(w).unwrap();
    assert!(validate_fd(r).is_err());
}

#[test]
fn attach_preserves_descriptor_value() {
    let p = Pty::attach(33);
    assert_eq!(p.as_raw_fd(), 33);
    let q = Pty::attach(p.as_raw_fd());
    assert_eq!(q.as_raw_fd(), 33);
}

#[test]
fn window_size_field_order() {
    let w = WindowSize::new(24, 80, 8, 16);
    assert_eq!(w.to_winsize(), (24, 80, 8, 16));
}

#[test]
fn write_to_dead_descriptor_fails_with_prefix() {
    // descriptor numbers this large are not open in the test process
    let p = Pty::attach(987654);
    let e = p.write("echo hi\r").unwrap_err();
    assert!(e.0.starts_with("Write failure "));
}

#[test]
fn repeated_kill_is_safe() {
    let p = Pty::attach(987654);
    p.kill();
    p.kill();
    p.kill();
}

#[test]
fn child_setup_order_is_fixed() {
    assert_eq!(
        child_setup_order(),
        vec![
            ChildStep::NewSession,
            ChildStep::SetControllingTerminal,
            ChildStep::CloseDescriptors,
            ChildStep::ResetSignals,
        ]
    );
    assert_eq!(
        signals_to_reset(),
        vec![
            ResetSignal::Child,
            ResetSignal::Hangup,
            ResetSignal::Interrupt,
            ResetSignal::Quit,
            ResetSignal::Terminate,
            ResetSignal::Alarm,
        ]
    );
}
