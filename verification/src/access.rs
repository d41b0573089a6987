//! Access capabilities of a port handle.
//!
//! A capability is a type-level tag: one of the three marker types of the
//! `x86_64` crate. The traits below give each tag its meaning in contracts and
//! gate the operations of a handle at compile time.

use vstd::prelude::*;
use x86_64::instructions::port::{ReadOnlyAccess, ReadWriteAccess, WriteOnlyAccess};

verus! {

/// The `x86_64` crate's tag for a port that may only be read. It is a marker
/// with no content; nothing is claimed of its values.
#[verifier::external_type_specification]
#[verifier::external_body]
pub struct ExReadOnlyAccess(x86_64::instructions::port::ReadOnlyAccess);

/// The `x86_64` crate's tag for a port that may only be written. It is a
/// marker with no content; nothing is claimed of its values.
#[verifier::external_type_specification]
#[verifier::external_body]
pub struct ExWriteOnlyAccess(x86_64::instructions::port::WriteOnlyAccess);

/// The `x86_64` crate's tag for a port that may be read and written. It is a
/// marker with no content; nothing is claimed of its values.
#[verifier::external_type_specification]
#[verifier::external_body]
pub struct ExReadWriteAccess(x86_64::instructions::port::ReadWriteAccess);

/// One of the two things that can be done to a port.
#[derive(Clone, Copy, Debug, PartialEq, Eq, Structural)]
pub enum Operation {
    Read,
    Write,
}

/// What a capability tag stands for.
#[derive(Clone, Copy, Debug, PartialEq, Eq, Structural)]
pub enum Access {
    ReadOnly,
    WriteOnly,
    ReadWrite,
}

impl Access {
    /// Whether this capability grants `op`: read-only grants reads alone,
    /// write-only grants writes alone, read-write grants both.
    pub open spec fn grants(self, op: Operation) -> bool {
        match (self, op) {
            (Access::ReadOnly, Operation::Read) => true,
            (Access::ReadOnly, Operation::Write) => false,
            (Access::WriteOnly, Operation::Read) => false,
            (Access::WriteOnly, Operation::Write) => true,
            (Access::ReadWrite, _) => true,
        }
    }

    /// The set of operations this capability grants.
    pub open spec fn granted(self) -> Set<Operation> {
        Set::new(|op: Operation| self.grants(op))
    }

    /// Decides `grants` at run time.
    pub fn permits(self, op: Operation) -> (r: bool)
        ensures
            r == self.grants(op),
    {
        match self {
            Access::ReadOnly => match op {
                Operation::Read => true,
                Operation::Write => false,
            },
            Access::WriteOnly => match op {
                Operation::Read => false,
                Operation::Write => true,
            },
            Access::ReadWrite => true,
        }
    }
}

/// A capability tag: a type that stands for one `Access`.
pub trait AccessMode {
    /// The capability this tag stands for.
    spec fn access() -> Access;

    /// The capability this tag stands for, as a value.
    fn mode() -> (r: Access)
        ensures
            r == Self::access(),
    ;
}

/// A tag whose capability includes reading. Only such a tag gives a handle
/// its `read` operation.
pub trait ReadAccess: AccessMode {
    proof fn read_granted()
        ensures
            Self::access().grants(Operation::Read),
    ;
}

/// A tag whose capability includes writing. Only such a tag gives a handle
/// its `write` operation.
pub trait WriteAccess: AccessMode {
    proof fn write_granted()
        ensures
            Self::access().grants(Operation::Write),
    ;
}

impl AccessMode for ReadOnlyAccess {
    open spec fn access() -> Access {
        Access::ReadOnly
    }

    fn mode() -> (r: Access) {
        Access::ReadOnly
    }
}

impl ReadAccess for ReadOnlyAccess {
    proof fn read_granted() {
    }
}

impl AccessMode for WriteOnlyAccess {
    open spec fn access() -> Access {
        Access::WriteOnly
    }

    fn mode() -> (r: Access) {
        Access::WriteOnly
    }
}

impl WriteAccess for WriteOnlyAccess {
    proof fn write_granted() {
    }
}

impl AccessMode for ReadWriteAccess {
    open spec fn access() -> Access {
        Access::ReadWrite
    }

    fn mode() -> (r: Access) {
        Access::ReadWrite
    }
}

impl ReadAccess for ReadWriteAccess {
    proof fn read_granted() {
    }
}

impl WriteAccess for ReadWriteAccess {
    proof fn write_granted() {
    }
}

/// A tag that gives a handle its `write` operation is never the read-only
/// capability: the bound that gates `write` cannot be met by it.
pub proof fn lemma_write_tag_is_not_read_only<A: WriteAccess>()
    ensures
        A::access() != Access::ReadOnly,
        A::access().granted().contains(Operation::Write),
{
    A::write_granted();
}

/// A tag that gives a handle its `read` operation is never the write-only
/// capability: the bound that gates `read` cannot be met by it.
pub proof fn lemma_read_tag_is_not_write_only<A: ReadAccess>()
    ensures
        A::access() != Access::WriteOnly,
        A::access().granted().contains(Operation::Read),
{
    A::read_granted();
}

/// The operations each capability grants: read-only exactly `read`,
/// write-only exactly `write`, read-write both.
pub proof fn lemma_granted_sets()
    ensures
        Access::ReadOnly.granted() =~= set![Operation::Read],
        Access::WriteOnly.granted() =~= set![Operation::Write],
        Access::ReadWrite.granted() =~= set![Operation::Read, Operation::Write],
{
}

} // verus!
