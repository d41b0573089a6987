//! Port handles and the transactions they issue.

use vstd::prelude::*;
use core::marker::PhantomData;
use crate::access::{Access, AccessMode, Operation, ReadAccess, WriteAccess};

verus! {

/// A value that one port instruction can transfer: 8, 16 or 32 bits wide.
pub trait PortValue: Sized {
    /// The width of the transfer in bits.
    spec fn bits() -> nat;

    proof fn bits_supported()
        ensures
            Self::bits() == 8 || Self::bits() == 16 || Self::bits() == 32,
    ;
}

impl PortValue for u8 {
    open spec fn bits() -> nat {
        8
    }

    proof fn bits_supported() {
    }
}

impl PortValue for u16 {
    open spec fn bits() -> nat {
        16
    }

    proof fn bits_supported() {
    }
}

impl PortValue for u32 {
    open spec fn bits() -> nat {
        32
    }

    proof fn bits_supported() {
    }
}

/// One hardware port transaction, for the owner of the machine to perform.
#[derive(Debug, PartialEq, Eq)]
pub enum PortOp<T> {
    /// Read one value of width `T` from `port`.
    Read { port: u16 },
    /// Write `value` to `port`.
    Write { port: u16, value: T },
}

impl<T> PortOp<T> {
    /// The port address the transaction goes to.
    pub open spec fn port(self) -> u16 {
        match self {
            PortOp::Read { port } => port,
            PortOp::Write { port, .. } => port,
        }
    }

    /// The operation the transaction performs on its port.
    pub open spec fn operation(self) -> Operation {
        match self {
            PortOp::Read { .. } => Operation::Read,
            PortOp::Write { .. } => Operation::Write,
        }
    }
}

/// What a handle is: its address, the width it transfers and its capability.
pub struct PortHandle {
    pub address: u16,
    pub bits: nat,
    pub access: Access,
}

/// A handle on the I/O port at one 16-bit address. `T` is the width of the
/// values transferred, `A` the capability tag that decides which of `read`
/// and `write` exist.
pub struct IoPort<T, A> {
    port: u16,
    value_marker: PhantomData<T>,
    access_marker: PhantomData<A>,
}

impl<T, A> IoPort<T, A> {
    /// The port address of the handle.
    pub closed spec fn address(&self) -> u16 {
        self.port
    }

    /// Makes a handle for the port at `port`. The address is taken as given:
    /// that it names the intended hardware, and that no other handle is in
    /// conflict with this one, is for the caller to know.
    pub fn new(port: u16) -> (r: Self)
        ensures
            r.address() == port,
    {
        Self { port, value_marker: PhantomData, access_marker: PhantomData }
    }
}

impl<T: PortValue, A: AccessMode> View for IoPort<T, A> {
    type V = PortHandle;

    open spec fn view(&self) -> PortHandle {
        PortHandle { address: self.address(), bits: T::bits(), access: A::access() }
    }
}

impl<T: PortValue, A: AccessMode> IoPort<T, A> {
    /// The capability of the handle, as a value.
    pub fn capability(&self) -> (r: Access)
        ensures
            r == self@.access,
    {
        A::mode()
    }
}

impl<T: PortValue, A: ReadAccess> IoPort<T, A> {
    /// The single port read of this handle: one read of width `T` at the
    /// handle's address. What the read does to the device is the device's
    /// affair.
    pub fn read(&self) -> (r: PortOp<T>)
        ensures
            r == (PortOp::<T>::Read { port: self@.address }),
            self@.access.grants(r.operation()),
    {
        proof {
            A::read_granted();
        }
        PortOp::Read { port: self.port }
    }
}

impl<T: PortValue, A: WriteAccess> IoPort<T, A> {
    /// The single port write of this handle: `value` written once at the
    /// handle's address.
    pub fn write(&self, value: T) -> (r: PortOp<T>)
        ensures
            r == (PortOp::Write { port: self@.address, value }),
            self@.access.grants(r.operation()),
    {
        proof {
            A::write_granted();
        }
        PortOp::Write { port: self.port, value }
    }
}

} // verus!
