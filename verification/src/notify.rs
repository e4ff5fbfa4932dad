//! The notification loop: waits on the master descriptor, delivers each chunk
//! of decoded output through the read callback, and delivers exactly one
//! death notification — after every read — before releasing the descriptor.

use vstd::prelude::*;
use crate::decode::{decode_utf8_lossy, lossy_decode};
use crate::error::PtyError;
use crate::sys;

verus! {

/// The size limit of one read from the master descriptor.
pub const CHUNK_SIZE: usize = 4096;

/// The outcome of one wait on the descriptor, reduced to plain values.
pub enum PollWake {
    /// The wait itself failed.
    Failed,
    /// The wait was interrupted by a signal before any event.
    Interrupted,
    /// The wait returned without reporting any descriptor.
    NoEvent,
    /// The descriptor reported; `known` is false when the OS handed back
    /// status flags outside the known set.
    Woke { known: bool, readable: bool, error: bool, hangup: bool, invalid: bool },
}

/// What the loop does next after a wake.
pub enum LoopAction {
    /// Leave the loop: the descriptor is dead or the wait is broken.
    Exit,
    /// Nothing to read yet: wait again.
    Wait,
    /// Data is available: read one chunk and deliver it.
    ReadChunk,
}

/// The loop's decision rule: an error, hangup or invalid-descriptor condition
/// ends the loop; an interrupted or unreadable wake is retried; only a
/// readable wake leads to a read.
pub open spec fn action_of(w: PollWake) -> LoopAction {
    match w {
        PollWake::Failed => LoopAction::Exit,
        PollWake::Interrupted => LoopAction::Wait,
        PollWake::NoEvent => LoopAction::Exit,
        PollWake::Woke { known, readable, error, hangup, invalid } => {
            if !known {
                LoopAction::Wait
            } else if error || hangup || invalid {
                LoopAction::Exit
            } else if !readable {
                LoopAction::Wait
            } else {
                LoopAction::ReadChunk
            }
        },
    }
}

/// Decides the next loop action for a wake, exactly as `action_of` states.
pub fn next_action(w: &PollWake) -> (a: LoopAction)
    ensures
        a == action_of(*w),
{
    match w {
        PollWake::Failed => LoopAction::Exit,
        PollWake::Interrupted => LoopAction::Wait,
        PollWake::NoEvent => LoopAction::Exit,
        PollWake::Woke { known, readable, error, hangup, invalid } => {
            if !*known {
                LoopAction::Wait
            } else if *error || *hangup || *invalid {
                LoopAction::Exit
            } else if !*readable {
                LoopAction::Wait
            } else {
                LoopAction::ReadChunk
            }
        },
    }
}

/// One callback delivery, as recorded in the loop's trace. A read event
/// carries the decoded text, or nothing when the read itself failed.
pub enum LoopEvent {
    Read { fd: i32, text: Option<Seq<char>> },
    Death { fd: i32 },
}

/// The event that delivering `chunk` through the read callback appends to a
/// callback history.
pub open spec fn read_event(fd: i32, chunk: &Result<String, PtyError>) -> LoopEvent {
    LoopEvent::Read {
        fd,
        text: match chunk {
            Ok(s) => Some(s@),
            Err(_) => None,
        },
    }
}

/// The callbacks a PTY owner registers at spawn time. The loop owns one value
/// of an implementing type for its whole life: `on_read` is called once per
/// chunk, in detection order, and `on_death` exactly once, last. The
/// `history` of a value is the sequence of callbacks delivered to it, and
/// each delivery appends exactly its own event — an implementor promises
/// this, and the loop's contract is stated over it, so a loop that skips or
/// reorders callbacks cannot meet its contract.
pub trait PtyEvents {
    /// The callbacks delivered to this value so far, in delivery order. An
    /// implementor gives this its own meaning; the default is the empty
    /// history, which only an implementor that receives no callback can keep.
    open spec fn history(&self) -> Seq<LoopEvent> {
        Seq::empty()
    }

    /// Receives each decoded chunk read from the descriptor, or the read
    /// error when a single read call failed.
    fn on_read(&mut self, fd: i32, chunk: Result<String, PtyError>)
        ensures
            final(self).history() == old(self).history().push(read_event(fd, &chunk)),
    ;

    /// Receives the descriptor once, when the PTY will no longer do I/O.
    fn on_death(&mut self, fd: i32)
        ensures
            final(self).history() == old(self).history().push(LoopEvent::Death { fd }),
    ;
}

/// Evidence that a descriptor was handed back to the OS for release. Values
/// are produced only by the loop's release step, one per release.
pub struct Released {
    fd: i32,
}

impl Released {
    /// The descriptor that was released.
    pub closed spec fn fd_spec(&self) -> i32 {
        self.fd
    }
}

/// Releases the descriptor, permitted only once the death notification for
/// it stands last in the callback history — so the release strictly follows
/// `on_death`, and no read callback can be delivered afterwards through this
/// loop.
fn release_after_death<E: PtyEvents>(fd: i32, events: &E) -> (r: Released)
    requires
        events.history().len() > 0,
        events.history().last() == (LoopEvent::Death { fd }),
    ensures
        r.fd_spec() == fd,
{
    sys::close_fd(fd);
    Released { fd }
}

/// True of a read event delivered for descriptor `fd`: its text, when the
/// read succeeded, is the lossy decoding of some chunk of at most
/// `CHUNK_SIZE` bytes.
pub open spec fn wf_read_event(e: LoopEvent, fd: i32) -> bool {
    match e {
        LoopEvent::Read { fd: f, text } => {
            &&& f == fd
            &&& match text {
                Some(s) => exists|b: Seq<u8>| b.len() <= CHUNK_SIZE && s == lossy_decode(b),
                None => true,
            }
        },
        LoopEvent::Death { .. } => false,
    }
}

/// True of every callback trace the loop can produce for descriptor `fd`:
/// a sequence of read events for `fd`, closed by one death event for `fd`.
pub open spec fn wf_trace(t: Seq<LoopEvent>, fd: i32) -> bool {
    &&& t.len() >= 1
    &&& t.last() == (LoopEvent::Death { fd })
    &&& forall|j: int| 0 <= j < t.len() - 1 ==> wf_read_event(#[trigger] t[j], fd)
}

/// Law: in any trace the notification loop produces, the death notification
/// occurs exactly once, carries the descriptor the loop was started on, and
/// comes after every read notification.
pub proof fn lemma_death_last_and_once(t: Seq<LoopEvent>, fd: i32)
    requires
        wf_trace(t, fd),
    ensures
        t.len() >= 1,
        t[t.len() - 1] == (LoopEvent::Death { fd }),
        forall|j: int| 0 <= j < t.len() && t[j] is Death ==> j == t.len() - 1,
        forall|j: int| 0 <= j < t.len() - 1 ==> t[j] is Read,
{
    assert forall|j: int| 0 <= j < t.len() && t[j] is Death implies j == t.len() - 1 by {
        if j < t.len() - 1 {
            assert(wf_read_event(t[j], fd));
        }
    }
    assert forall|j: int| 0 <= j < t.len() - 1 implies t[j] is Read by {
        assert(wf_read_event(t[j], fd));
    }
}

/// Reads one chunk from the descriptor and decodes it. A failed read is
/// turned into an error value for the read callback — it does not end the
/// loop by itself.
pub fn read(fd: i32) -> (r: Result<String, PtyError>)
    ensures
        r matches Ok(s) ==> exists|b: Seq<u8>| b.len() <= CHUNK_SIZE && s@ == lossy_decode(b),
        r matches Err(e) ==> exists|d: Seq<char>| e.0@ == "Read failure "@ + d,
{
    match sys::read_chunk(fd, CHUNK_SIZE) {
        Ok(bytes) => {
            let s = decode_utf8_lossy(&bytes);
            proof {
                assert(bytes@.len() <= CHUNK_SIZE && s@ == lossy_decode(bytes@));
            }
            Ok(s)
        },
        Err(d) => {
            let e = PtyError::with_detail("Read failure ", d.as_str());
            proof {
                assert(e.0@ == "Read failure "@ + d@);
            }
            Err(e)
        },
    }
}

/// One iteration of the notification loop: wait once, decide, and deliver at
/// most one read callback. Returns whether the loop goes on, and the event
/// delivered, if any.
pub fn notification_step<E: PtyEvents>(fd: i32, events: &mut E) -> (r: (
    bool,
    Ghost<Option<LoopEvent>>,
))
    ensures
        r.1@ matches Some(e) ==> r.0 && wf_read_event(e, fd),
        !r.0 ==> r.1@ is None,
        final(events).history() == old(events).history() + (match r.1@ {
            Some(e) => seq![e],
            None => Seq::<LoopEvent>::empty(),
        }),
{
    proof {
        assert(events.history() + Seq::<LoopEvent>::empty() =~= events.history());
    }
    let w = sys::poll_readable(fd);
    let a = next_action(&w);
    match a {
        LoopAction::Exit => (false, Ghost(None)),
        LoopAction::Wait => (true, Ghost(None)),
        LoopAction::ReadChunk => {
            let res = read(fd);
            let ghost ev = read_event(fd, &res);
            let ghost before = events.history();
            events.on_read(fd, res);
            proof {
                assert(events.history() =~= before + seq![ev]);
            }
            (true, Ghost(Some(ev)))
        },
    }
}

/// Runs the notification loop to completion on its own: waits, delivers each
/// readable chunk through `on_read`, and on any terminal condition delivers
/// `on_death` exactly once — after all reads — and then releases the
/// descriptor. The trace it returns is exactly what was appended to the
/// events value's callback history, and the `Released` value is the evidence
/// that the descriptor went back to the OS after the death notification.
pub fn run_notification_loop<E: PtyEvents>(fd: i32, events: &mut E) -> (r: (
    Ghost<Seq<LoopEvent>>,
    Released,
))
    ensures
        wf_trace(r.0@, fd),
        final(events).history() == old(events).history() + r.0@,
        r.1.fd_spec() == fd,
{
    let ghost mut trace: Seq<LoopEvent> = Seq::empty();
    proof {
        assert(events.history() =~= old(events).history() + trace);
    }
    // Bounds the number of wakes so that even a wait that never reports a
    // terminal condition cannot postpone the death notification forever; the
    // bound is far beyond what any real descriptor reaches.
    let mut wakes_left: u64 = u64::MAX;
    loop
        invariant
            forall|j: int| 0 <= j < trace.len() ==> wf_read_event(#[trigger] trace[j], fd),
            events.history() == old(events).history() + trace,
        decreases wakes_left,
    {
        if wakes_left == 0 {
            break ;
        }
        wakes_left = wakes_left - 1;
        let ghost before = trace;
        let (go_on, ev) = notification_step(fd, events);
        proof {
            match ev@ {
                Some(e) => {
                    trace = trace.push(e);
                    assert(old(events).history() + trace =~= (old(events).history() + before)
                        + seq![e]);
                },
                None => {
                    assert(old(events).history() + trace =~= (old(events).history() + before)
                        + Seq::<LoopEvent>::empty());
                },
            }
        }
        if !go_on {
            break ;
        }
    }
    events.on_death(fd);
    proof {
        let before = trace;
        trace = trace.push(LoopEvent::Death { fd });
        assert(old(events).history() + trace =~= (old(events).history() + before).push(
            LoopEvent::Death { fd },
        ));
    }
    let released = release_after_death(fd, events);
    (Ghost(trace), released)
}

} // verus!
