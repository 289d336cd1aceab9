//! Buffer lifecycle bookkeeping for an NDI streaming runtime.
//!
//! The runtime itself is a closed native library. It allocates the memory of
//! every captured frame and wants it handed back through its own free call;
//! on the sending side it may keep reading a submitted frame until the next
//! submission. This crate holds the rules of that handoff as a sequential,
//! verified state machine: which buffers are outstanding, under which id,
//! when one may be read, and what has to be released and in what order.
//!
//! Nothing here calls into the runtime. Every operation takes what the runtime
//! answered as plain values and returns what the runtime has to be asked next.

pub mod finder;
pub mod instance;
pub mod receive;
pub mod sdk;
pub mod send;
pub mod store;
pub mod util;
