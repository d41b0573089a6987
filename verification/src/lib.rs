//! Machine boundary of a freestanding kernel image: capability-typed port I/O
//! handles, the bring-up sequence of a UART-class serial device, and the
//! diagnostic bytes sent at boot.
//!
//! Nothing here touches hardware. Every operation yields the port
//! transactions to perform, as plain values; the caller that owns the machine
//! carries them out in order.

pub mod access;
pub mod port;
pub mod serial;
pub mod boot;

pub use access::{Access, AccessMode, Operation, ReadAccess, WriteAccess};
pub use port::{IoPort, PortOp, PortValue};
pub use serial::SerialPort;
