//! The PTY handle and its control operations. A handle wraps exactly one
//! master descriptor value and never closes it itself: only the notification
//! loop, at death, releases the descriptor, so a handle may be dropped — or
//! re-created from a raw descriptor — while the PTY lives on.

use vstd::prelude::*;
use crate::error::{dec_str_int, format_i32, PtyError};
use crate::sys;

verus! {

/// A handle onto one PTY master descriptor. Dropping it is a no-op for the
/// descriptor; re-wrapping the same descriptor value with `attach` yields an
/// equivalent handle and starts nothing.
pub struct Pty {
    pid: i32,
}

impl Pty {
    /// The descriptor value this handle targets.
    pub closed spec fn fd_spec(&self) -> i32 {
        self.pid
    }

    /// Wraps an existing descriptor value in a new handle. Creates no
    /// notification loop and takes no ownership: callbacks registered when
    /// the descriptor was spawned remain the only ones ever invoked, and
    /// writes through the new handle go to the same descriptor. The caller
    /// must know the value is a live PTY master produced by an earlier spawn.
    pub fn attach(fd: i32) -> (p: Pty)
        ensures
            p.fd_spec() == fd,
    {
        Pty { pid: fd }
    }

    /// The raw descriptor value, as `attach` would take it back.
    pub fn as_raw_fd(&self) -> (fd: i32)
        ensures
            fd == self.fd_spec(),
    {
        self.pid
    }

    /// Writes the text's bytes to the master descriptor: a single write call,
    /// with no retry of short writes. Success is the OS's to grant; a failure
    /// carries the OS rendering after a fixed prefix.
    pub fn write(&self, s: &str) -> (r: Result<(), PtyError>)
        ensures
            r matches Err(e) ==> exists|d: Seq<char>| e.0@ == "Write failure "@ + d,
    {
        match sys::sys_write(self.pid, s.as_bytes()) {
            Ok(_) => Ok(()),
            Err(d) => {
                let e = PtyError::with_detail("Write failure ", d.as_str());
                proof {
                    assert(e.0@ == "Write failure "@ + d@);
                }
                Err(e)
            },
        }
    }

    /// Asks the shell to exit by writing the kill command text; best-effort
    /// and fire-and-forget: the write's outcome is discarded, the descriptor
    /// is not closed, and repeated calls are as safe as one — death is only
    /// ever delivered by the notification loop, and at most once.
    pub fn kill(&self) {
        let _ = sys::sys_write(self.pid, kill_command().as_bytes());
    }
}

/// The control text `kill` writes: a shell exit command terminated by a
/// carriage return.
pub fn kill_command() -> (s: &'static str)
    ensures
        s@ == "exit\r"@,
{
    "exit\r"
}

/// Allocates a fresh PTY pair and applies best-effort UTF-8 input tuning to
/// the master side. On success the pair is `(master, slave)`, two distinct
/// nonnegative descriptors; failure carries the OS rendering.
pub fn allocate() -> (r: Result<(i32, i32), PtyError>)
    ensures
        r matches Ok(p) ==> p.0 >= 0 && p.1 >= 0 && p.0 != p.1,
{
    match sys::sys_openpty() {
        Ok(pair) => {
            sys::tune_utf8_input(pair.0);
            Ok(pair)
        },
        Err(d) => Err(PtyError(d)),
    }
}

/// Turns a liveness verdict on a descriptor into the loop-start outcome:
/// live starts, dead is refused with a message naming the descriptor.
pub fn classify_descriptor(live: bool, fd: i32) -> (r: Result<(), PtyError>)
    ensures
        r is Ok <==> live,
        r matches Err(e) ==> e.0@ == "Invalid file descriptor: "@ + dec_str_int(fd as int),
{
    if live {
        Ok(())
    } else {
        let rendered = format_i32(fd);
        let e = PtyError::with_detail("Invalid file descriptor: ", rendered.as_str());
        Err(e)
    }
}

/// Checks that the descriptor is live before a notification loop is started
/// on it: a descriptor the OS does not recognise as open — one already
/// closed, among others — is refused, and no loop may then be started.
pub fn validate_fd(fd: i32) -> (r: Result<(), PtyError>)
    ensures
        r matches Err(e) ==> e.0@ == "Invalid file descriptor: "@ + dec_str_int(fd as int),
{
    let live = sys::descriptor_live(fd);
    classify_descriptor(live, fd)
}

/// One step of the child-side setup that must run between fork and exec.
/// The steps are order-sensitive: a mis-ordered sequence silently breaks
/// terminal behavior rather than failing loudly.
#[derive(Debug, PartialEq, Eq, Structural, Clone, Copy)]
pub enum ChildStep {
    /// Detach from the inherited session and become a new session leader.
    NewSession,
    /// Make the slave descriptor the controlling terminal of the new session.
    SetControllingTerminal,
    /// Close the inherited copies of both PTY descriptors: the shell reopens
    /// its terminal through its standard streams, and keeping the originals
    /// open would leak them and could wedge hangup detection.
    CloseDescriptors,
    /// Reset inherited signal dispositions to their defaults.
    ResetSignals,
}

/// The order in which the child must perform its setup steps, each one
/// short-circuiting the sequence on failure: session first, then controlling
/// terminal, then descriptor cleanup, then signal dispositions.
pub fn child_setup_order() -> (v: Vec<ChildStep>)
    ensures
        v@ == seq![
            ChildStep::NewSession,
            ChildStep::SetControllingTerminal,
            ChildStep::CloseDescriptors,
            ChildStep::ResetSignals,
        ],
{
    let mut v: Vec<ChildStep> = Vec::new();
    v.push(ChildStep::NewSession);
    v.push(ChildStep::SetControllingTerminal);
    v.push(ChildStep::CloseDescriptors);
    v.push(ChildStep::ResetSignals);
    proof {
        assert(v@ =~= seq![
            ChildStep::NewSession,
            ChildStep::SetControllingTerminal,
            ChildStep::CloseDescriptors,
            ChildStep::ResetSignals,
        ]);
    }
    v
}

/// A signal whose disposition the child resets to default before exec, so
/// the shell session does not inherit ignored or blocked handlers.
#[derive(Debug, PartialEq, Eq, Structural, Clone, Copy)]
pub enum ResetSignal {
    Child,
    Hangup,
    Interrupt,
    Quit,
    Terminate,
    Alarm,
}

/// The signals whose dispositions the child resets, in the order they are
/// reset.
pub fn signals_to_reset() -> (v: Vec<ResetSignal>)
    ensures
        v@ == seq![
            ResetSignal::Child,
            ResetSignal::Hangup,
            ResetSignal::Interrupt,
            ResetSignal::Quit,
            ResetSignal::Terminate,
            ResetSignal::Alarm,
        ],
{
    let mut v: Vec<ResetSignal> = Vec::new();
    v.push(ResetSignal::Child);
    v.push(ResetSignal::Hangup);
    v.push(ResetSignal::Interrupt);
    v.push(ResetSignal::Quit);
    v.push(ResetSignal::Terminate);
    v.push(ResetSignal::Alarm);
    proof {
        assert(v@ =~= seq![
            ResetSignal::Child,
            ResetSignal::Hangup,
            ResetSignal::Interrupt,
            ResetSignal::Quit,
            ResetSignal::Terminate,
            ResetSignal::Alarm,
        ]);
    }
    v
}

/// Interprets the return code of the window-size control operation on the
/// master descriptor: a negative code is the failure the OS reported.
pub fn resize_outcome(rc: i32) -> (r: Result<(), PtyError>)
    ensures
        r is Ok <==> rc >= 0,
        r matches Err(e) ==> e.0@ == "Window resize failure"@,
{
    if rc < 0 {
        Err(PtyError::new("Window resize failure"))
    } else {
        Ok(())
    }
}

} // verus!
