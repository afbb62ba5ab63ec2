//! Host-side coordination of asynchronous device commands.
//!
//! A command handed to a device queue answers with a completion event. This
//! library holds the rules around such events: how a list of events to wait
//! for is laid out for a submission, how a pending operation is polled and
//! woken, how a mapping of device memory is released on a queue of its own,
//! how readers and writers share one host buffer, and in what order the
//! stages of a pipeline depend on each other. It talks about the device in
//! plain values only; making the calls is left to the caller.

pub mod bridge;
pub mod error;
pub mod event;
pub mod functions;
pub mod handle;
pub mod mapped_mem;
pub mod pipeline;
pub mod rw_vec;
pub mod status;
