//! A minimal entry-point library: two fixed greetings, a model of the
//! write-only output stream they are sent to, and the halt-on-fault handler
//! as a state machine. The binary around it performs the actual low-level
//! writes; everything it writes, and in what order, is produced and pinned
//! down here.

pub mod fault;
pub mod messages;
pub mod program;
