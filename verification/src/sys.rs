//! Trusted wrappers around the OS primitives the library relies on. Each
//! wrapper makes one nix call (or one short get-modify-set exchange) and
//! converts the outcome to plain values; everything that decides or computes
//! on those values is verified elsewhere.

use vstd::prelude::*;
use nix::errno::Errno;
use nix::poll::{PollFd, PollFlags};
use nix::sys::termios::{tcgetattr, tcsetattr, InputFlags, SetArg};
use crate::notify::PollWake;
use crate::shell::UserLookup;

verus! {

/// Relies on nix::pty::openpty: on success the OS hands back a fresh
/// master/slave descriptor pair, two distinct nonnegative open descriptors;
/// on failure the errno rendering is returned.
#[verifier::external_body]
pub(crate) fn sys_openpty() -> (r: Result<(i32, i32), String>)
    ensures
        r matches Ok(p) ==> p.0 >= 0 && p.1 >= 0 && p.0 != p.1,
{
    match nix::pty::openpty(None, None) {
        Ok(ends) => Ok((ends.master, ends.slave)),
        Err(e) => Err(format!("{}", e)),
    }
}

/// Relies on nix::sys::termios::{tcgetattr, tcsetattr}: reads the terminal
/// attributes of the descriptor, turns on the UTF-8 input flag and writes the
/// attributes back. Best-effort: failures are ignored, as tuning is not
/// required for the PTY to work.
#[verifier::external_body]
pub(crate) fn tune_utf8_input(fd: i32) {
    if let Ok(mut termios) = tcgetattr(fd) {
        termios.input_flags.set(InputFlags::IUTF8, true);
        let _ = tcsetattr(fd, SetArg::TCSANOW, &termios);
    }
}

/// Relies on nix::unistd::write: a single write call with no retry; on
/// success the OS accepted `n` bytes, at most the buffer's length (a short
/// write is possible and is not resubmitted); on failure the errno rendering
/// is returned.
#[verifier::external_body]
pub(crate) fn sys_write(fd: i32, buf: &[u8]) -> (r: Result<usize, String>)
    ensures
        r matches Ok(n) ==> n <= buf@.len(),
{
    match nix::unistd::write(fd, buf) {
        Ok(n) => Ok(n),
        Err(e) => Err(format!("{}", e)),
    }
}

/// Relies on nix::unistd::read: one read of at most `cap` bytes into a fresh
/// buffer; on success the bytes actually read are returned, on failure the
/// errno rendering.
#[verifier::external_body]
pub(crate) fn read_chunk(fd: i32, cap: usize) -> (r: Result<Vec<u8>, String>)
    ensures
        r matches Ok(b) ==> b@.len() <= cap,
{
    let mut buf = vec![0u8; cap];
    match nix::unistd::read(fd, &mut buf) {
        Ok(n) => {
            buf.truncate(n);
            Ok(buf)
        },
        Err(e) => Err(format!("{}", e)),
    }
}

/// Relies on nix::poll::ppoll with no timeout and no signal mask: blocks
/// until the descriptor reports an event, and converts the outcome to plain
/// flags. Which variant comes back depends on the peer and the OS, so nothing
/// more is promised of the result.
#[verifier::external_body]
pub(crate) fn poll_readable(fd: i32) -> (w: PollWake) {
    let mut fds = [PollFd::new(fd, PollFlags::POLLIN)];
    match nix::poll::ppoll(&mut fds, None, None) {
        Err(Errno::EINTR) => PollWake::Interrupted,
        Err(_) => PollWake::Failed,
        Ok(n) if n <= 0 => PollWake::NoEvent,
        Ok(_) => {
            let ev = fds[0].revents();
            let f = ev.unwrap_or(PollFlags::empty());
            let (r, e) = (f.contains(PollFlags::POLLIN), f.contains(PollFlags::POLLERR));
            let (h, v) = (f.contains(PollFlags::POLLHUP), f.contains(PollFlags::POLLNVAL));
            PollWake::Woke { known: ev.is_some(), readable: r, error: e, hangup: h, invalid: v }
        },
    }
}

/// Relies on nix::unistd::close: releases the descriptor. The result is
/// discarded; after the notification loop exits there is nothing left to do
/// about a close failure.
#[verifier::external_body]
pub(crate) fn close_fd(fd: i32) {
    let _ = nix::unistd::close(fd);
}

/// Relies on nix::fcntl::fcntl with F_GETFD: asks the OS whether the
/// descriptor is a live open descriptor. Any error answer counts as dead — a
/// closed descriptor answers EBADF, one in a bad state EBADFD.
#[verifier::external_body]
pub(crate) fn descriptor_live(fd: i32) -> bool {
    nix::fcntl::fcntl(fd, nix::fcntl::FcntlArg::F_GETFD).is_ok()
}

/// Relies on nix::unistd::{getuid, User::from_uid}: looks up the invoking
/// user's database entry — getpwuid_r returns the entry for exactly that uid
/// — and hands out its name, home directory and shell path as plain strings.
/// A home or shell path that is not valid UTF-8 is refused rather than
/// rendered; the name is converted by the lookup itself. Distinguishes a
/// failed lookup call from an absent entry.
#[verifier::external_body]
pub(crate) fn user_db_entry() -> (r: UserLookup) {
    match nix::unistd::User::from_uid(nix::unistd::getuid()) {
        Ok(Some(u)) => match (u.dir.to_str(), u.shell.to_str()) {
            (Some(dir), Some(shell)) => {
                UserLookup::Found(u.name.clone(), dir.to_string(), shell.to_string())
            },
            _ => UserLookup::NotUnicode,
        },
        Ok(None) => UserLookup::NoEntry,
        Err(_) => UserLookup::LookupFailed,
    }
}

} // verus!
