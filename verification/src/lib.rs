//! A pseudo-terminal (PTY) lifecycle library: allocate a master/slave pair,
//! bridge the master side to the caller through read and death notifications,
//! and control the PTY through write, resize and kill operations.

pub mod decode;
pub mod error;
pub mod notify;
pub mod pty;
pub mod shell;
mod sys;
pub mod window;

pub use error::PtyError;
pub use notify::{run_notification_loop, PtyEvents};
pub use pty::Pty;
pub use window::WindowSize;
