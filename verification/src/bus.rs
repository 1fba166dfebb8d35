//! The transactions that the driver asks its caller to perform.
//!
//! A transaction is plain data. The caller sends `bytes()` to the device at
//! `address`, and for a read fills the buffer in the same transaction; what
//! the bus reported is handed back to the operation that asked.
use vstd::prelude::*;

verus! {

/// A register write: the register's address and the new value, sent as two
/// bytes to the device at `address`.
#[derive(Clone, Copy, Debug, PartialEq, Eq)]
pub struct RegisterWrite {
    pub address: u8,
    pub register: u8,
    pub value: u8,
}

impl RegisterWrite {
    /// The bytes on the wire, in the order in which they are sent.
    pub open spec fn wire(self) -> Seq<u8> {
        seq![self.register, self.value]
    }

    /// The bytes to send.
    pub fn bytes(&self) -> (out: [u8; 2])
        ensures
            out@ == self.wire(),
    {
        let out: [u8; 2] = [self.register, self.value];
        assert(out@ =~= self.wire());
        out
    }
}

/// A register read: the register's address is sent to the device at
/// `address`, then `N` bytes are read back into `buffer`, as one transaction.
///
/// `buffer` is the buffer as it is handed to the bus; the reply to the read is
/// the buffer as the bus left it.
#[derive(Clone, Copy, Debug, PartialEq, Eq)]
pub struct RegisterRead<const N: usize> {
    pub address: u8,
    pub register: u8,
    pub buffer: [u8; N],
}

impl<const N: usize> RegisterRead<N> {
    /// The bytes on the wire that select the register.
    pub open spec fn wire(self) -> Seq<u8> {
        seq![self.register]
    }

    /// The number of bytes that the device is asked for.
    pub open spec fn count(self) -> nat {
        N as nat
    }

    /// The bytes to send before reading.
    pub fn bytes(&self) -> (out: [u8; 1])
        ensures
            out@ == self.wire(),
    {
        let out: [u8; 1] = [self.register];
        assert(out@ =~= self.wire());
        out
    }
}

/// The value of a register, from the reply to a one-byte read of it.
pub open spec fn register_value_of<E>(reply: Result<[u8; 1], E>) -> Result<u8, E> {
    match reply {
        Ok(bytes) => Ok(bytes[0]),
        Err(error) => Err(error),
    }
}

/// Turns the reply to a one-byte read into the register's value; a failure of
/// the bus is passed on as it is.
pub fn register_value<E>(reply: Result<[u8; 1], E>) -> (value: Result<u8, E>)
    ensures
        value == register_value_of(reply),
{
    match reply {
        Ok(bytes) => Ok(bytes[0]),
        Err(error) => Err(error),
    }
}

/// What follows from the reply to a transaction.
#[derive(Debug, PartialEq, Eq)]
pub enum Progress<S, T, E> {
    /// The operation goes on with `S`: a state that names the next
    /// transaction, or the last transaction itself, whose result is then the
    /// result of the operation.
    Next(S),
    /// The operation is over, with this result.
    Done(Result<T, E>),
}

} // verus!
