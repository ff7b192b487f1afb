//! The two bus primitives the driver consumes, and the record of what it did
//! on the bus.
use crate::registers::TMAG5273Register;
use crate::types::TMag5273Error;
use embedded_hal::i2c::ErrorKind;
use vstd::prelude::*;

verus! {

/// A two-wire bus with 7-bit device addresses: the transport that the driver
/// is given. A failure is reported with its classification.
pub trait I2cBus {
    /// Writes `bytes` to the device at `address`.
    fn write(&mut self, address: u8, bytes: &[u8]) -> Result<(), ErrorKind>;

    /// Writes `bytes` to the device at `address`, then reads from it until
    /// `buffer` is full, in one transaction.
    fn write_read(&mut self, address: u8, bytes: &[u8], buffer: &mut [u8]) -> Result<(), ErrorKind>;
}

/// One bus transaction as the driver issued it and as the bus answered it.
pub enum Transfer {
    /// `bytes` written to the device at `address`.
    Write { address: u8, bytes: Seq<u8>, outcome: Result<(), ErrorKind> },
    /// `bytes` written to the device at `address`, then `len` bytes read.
    WriteRead { address: u8, bytes: Seq<u8>, len: nat, received: Result<Seq<u8>, ErrorKind> },
}

/// `t` reads `len` bytes starting at `register` of the device at `address`:
/// it writes the register's address, then reads.
pub open spec fn is_read(t: Transfer, address: u8, register: TMAG5273Register, len: nat) -> bool {
    &&& t matches Transfer::WriteRead { address: a, bytes, len: n, received }
    &&& a == address
    &&& bytes == seq![register.spec_address()]
    &&& n == len
    &&& (received matches Ok(data) ==> data.len() == len)
}

/// `t` writes `value` to `register` of the device at `address`.
pub open spec fn is_write(t: Transfer, address: u8, register: TMAG5273Register, value: u8) -> bool {
    &&& t matches Transfer::Write { address: a, bytes, outcome }
    &&& a == address
    &&& bytes == seq![register.spec_address(), value]
}

/// What a read brought back, with a bus failure as the driver reports it.
pub open spec fn received(t: Transfer) -> Result<Seq<u8>, TMag5273Error> {
    match t {
        Transfer::WriteRead { received: Ok(data), .. } => Ok(data),
        Transfer::WriteRead { received: Err(kind), .. } => Err(TMag5273Error::I2c(kind)),
        Transfer::Write { .. } => Err(TMag5273Error::NotConnected),
    }
}

/// How a write ended, with a bus failure as the driver reports it.
pub open spec fn written(t: Transfer) -> Result<(), TMag5273Error> {
    match t {
        Transfer::Write { outcome: Ok(()), .. } => Ok(()),
        Transfer::Write { outcome: Err(kind), .. } => Err(TMag5273Error::I2c(kind)),
        Transfer::WriteRead { .. } => Err(TMag5273Error::NotConnected),
    }
}

/// The record `after` continues the record `before`.
pub open spec fn extends(after: Seq<Transfer>, before: Seq<Transfer>) -> bool {
    before.len() <= after.len() && after.take(before.len() as int) == before
}

/// The transfers that `after` holds beyond `before`.
pub open spec fn since(after: Seq<Transfer>, before: Seq<Transfer>) -> Seq<Transfer> {
    after.skip(before.len() as int)
}

/// Records compose: what was issued from `t0` to `t2` is what was issued up
/// to `t1`, then after it.
pub proof fn lemma_since_compose(t0: Seq<Transfer>, t1: Seq<Transfer>, t2: Seq<Transfer>)
    requires
        extends(t1, t0),
        extends(t2, t1),
    ensures
        extends(t2, t0),
        since(t2, t0) == since(t1, t0) + since(t2, t1),
{
    assert(t2.take(t0.len() as int) =~= t1.take(t0.len() as int));
    assert(since(t2, t0) =~= since(t1, t0) + since(t2, t1));
}

/// One more transfer extends a record by itself.
pub proof fn lemma_since_push(t0: Seq<Transfer>, t: Transfer)
    ensures
        extends(t0.push(t), t0),
        since(t0.push(t), t0) == seq![t],
{
    assert(t0.push(t).take(t0.len() as int) =~= t0);
    assert(since(t0.push(t), t0) =~= seq![t]);
}

} // verus!
