//! A container monitor: the decisions of `conmon`, proved correct.
//!
//! The monitor launches an OCI runtime, relays the stdio of the container that the runtime
//! creates, and reports how both have ended. System calls are made outside of this crate.
//! Where an operation alternates system calls and decisions, it is a function from an event,
//! what just happened, to a step, what is needed next; its caller performs the step and
//! hands the outcome back as the next event. Descriptors are numbers and paths are byte
//! strings.

pub mod bytes;
pub mod config;
pub mod error;
pub mod notify;
pub mod os;
pub mod path;
pub mod remote_socket;
pub mod session;
pub mod socket;
pub mod socket_buffer;
pub mod text;
pub mod unix_socket;
