//! Control plane for loadable kernel modules: the command protocol spoken over
//! the privileged control call, the rules that map module files to kernel
//! state, and the sequencing of startup, bulk load and quarantine.
//!
//! The library performs no I/O. An operation is a [`flow::Step`]: either an
//! effect for a driver to carry out, with the [`flow::Flow`] to resume on the
//! driver's report, or the operation's end. The driver makes the control
//! calls, touches the file system and runs the watcher; every decision is
//! taken here.

pub mod client;
pub mod codec;
pub mod error;
pub mod flow;
pub mod gateway;
pub mod guardian;
pub mod lifecycle;
pub mod modfile;
pub mod plan;
pub mod protocol;
pub mod reactor;
pub mod runs;
pub mod scanner;
