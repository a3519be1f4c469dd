//! Verified core of a Windows clipboard-capture utility.
//!
//! The library holds the decision logic of the native backend: which event to
//! raise for a clipboard update, how to extract text and image payloads from
//! raw clipboard buffers, how the window-procedure hook is installed and
//! reverted, and which duplicate process instances to terminate on shutdown.
//! The operating-system calls themselves (clipboard access, window-procedure
//! swapping, process control) live outside the library and only hand plain
//! values in and out.

pub mod bytes;
pub mod events;
pub mod hook;
pub mod tasklist;
pub mod text;
