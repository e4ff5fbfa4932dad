use pty_exec::notify::{notification_step, run_notification_loop, PtyEvents};
use pty_exec::{Pty, PtyError};

struct Recorder {
    reads: Vec<(i32, Result<String, String>)>,
    deaths: Vec<i32>,
}

impl Recorder {
    fn new() -> Recorder {
        Recorder { reads: Vec::new(), deaths: Vec::new() }
    }

    fn read_text(&self) -> String {
        let mut all = String::new();
        for (_, r) in &self.reads {
            if let Ok(s) = r {
                all.push_str(s);
            }
        }
        all
    }
}

impl PtyEvents for Recorder {
    fn on_read(&mut self, fd: i32, chunk: Result<String, PtyError>) {
        self.reads.push((fd, chunk.map_err(|e| e.0)));
    }

    fn on_death(&mut self, fd: i32) {
        self.deaths.push(fd);
    }
}

#[test]
fn step_delivers_written_text() {
    let (r, w) = nix::unistd::pipe().unwrap();
    // writing through a re-attached handle feeds the same stream (there is
    // only one descriptor, hence only one callback pair)
    let handle = Pty::attach(w);
    handle.write("echo 'Hello, World'\r").unwrap();
    let mut rec = Recorder::new();
    let (go_on, _) = notification_step(r, &mut rec);
    assert!(go_on);
    assert_eq!(rec.reads.len(), 1);
    assert_eq!(rec.reads[0].0, r);
    assert!(rec.read_text().contains("echo 'Hello, World'"));
    assert!(rec.deaths.is_empty());
    nix::unistd::close(r).unwrap();
    nix::unistd::close(w).unwrap();
}

#[test]
fn step_decodes_invalid_bytes_without_failing() {
    let (r, w) = nix::unistd::pipe().unwrap();
    nix::unistd::write(w, &[0xFF, b'h', b'i']).unwrap();
    let mut rec = Recorder::new();
    let (go_on, _) = notification_step(r, &mut rec);
    assert!(go_on);
    assert_eq!(rec.reads.len(), 1);
    assert_eq!(rec.reads[0].1.as_ref().unwrap(), "\u{FFFD}hi");
    nix::unistd::close(r).unwrap();
    nix::unistd::close(w).unwrap();
}

#[test]
fn chunks_arrive_in_detection_order() {
    let (r, w) = nix::unistd::pipe().unwrap();
    nix::unistd::write(w, b"one").unwrap();
    let mut rec = Recorder::new();
    let (go_on, _) = notification_step(r, &mut rec);
    assert!(go_on);
    nix::unistd::write(w, b"two").unwrap();
    let (go_on, _) = notification_step(r, &mut rec);
    assert!(go_on);
    assert_eq!(rec.reads.len(), 2);
    assert_eq!(rec.read_text(), "onetwo");
    nix::unistd::close(r).unwrap();
    nix::unistd::close(w).unwrap();
}

#[test]
fn loop_reports_death_once_after_hangup() {
    let (r, w) = nix::unistd::pipe().unwrap();
    nix::unistd::close(w).unwrap();
    let mut rec = Recorder::new();
    let _ = run_notification_loop(r, &mut rec);
    assert_eq!(rec.deaths, vec![r]);
    // the loop closed the descriptor itself; no reads were interleaved after
    assert!(rec.reads.is_empty());
}

#[test]
fn loop_reports_death_on_invalid_descriptor() {
    let bogus: i32 = 123456;
    let mut rec = Recorder::new();
    let _ = run_notification_loop(bogus, &mut rec);
    assert_eq!(rec.deaths, vec![bogus]);
    assert!(rec.reads.is_empty());
}

#[test]
fn kill_then_death_carries_spawn_descriptor() {
    // a real PTY pair, without a child process: kill is a write to the
    // master, and closing the slave side is the hangup a dying shell causes
    let ends = nix::pty::openpty(None, None).unwrap();
    let (master, slave) = (ends.master, ends.slave);
    let handle = Pty::attach(master);
    handle.kill();
    handle.kill();
    nix::unistd::close(slave).unwrap();
    let mut rec = Recorder::new();
    let _ = run_notification_loop(master, &mut rec);
    assert_eq!(rec.deaths, vec![master]);
}
