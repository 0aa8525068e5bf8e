//! Register reads, and what a read that waits on a validity bit puts on the
//! bus.
//!
//! Sensor data is guarded by a validity bit in a status register. A
//! status-gated read fetches the status register, and fetches the data only
//! if that read succeeded and showed the bit set. If the bit is clear the
//! data is left alone and the caller is told "not ready" (`Ok(None)`).
//! Repeating the read until it says something else is a blocking read.

use vstd::prelude::*;
use crate::bus::{lemma_reads_of_concat, lemma_reads_of_push, reads_of, I2cBus, Transaction};
use crate::register::{flag_is, Register, DEV_ADDR};
use crate::state::lemma_followed_by_consistent;
use crate::{bus_failure, Apds9960, Error};

verus! {

/// What a read of a single register gave: the byte, or the bus's error.
pub open spec fn byte_read<E>(read: Transaction<E>) -> Result<u8, Error<E>> {
    match read.failure() {
        None => Ok(read.received()[0]),
        Some(e) => Err(Error::I2C(e)),
    }
}

/// `exchange` is one read of a single register, answered, if it succeeded,
/// with one byte.
pub open spec fn register_read<E>(exchange: Seq<Transaction<E>>, register: u8) -> bool {
    &&& exchange.len() == 1
    &&& exchange[0].is_read_of(DEV_ADDR, register, 1)
    &&& exchange[0].received().len() == 1
}

/// The status read succeeded and shows the bit `valid` set.
pub open spec fn shows_valid<E>(status: Transaction<E>, valid: u8) -> bool {
    status.failure() is None && flag_is(status.received()[0], valid, true)
}

/// `exchange` is what one status-gated read puts on the bus: a read of
/// `status_register` and then, only if that shows `valid`, a read of
/// `length` bytes from `data_register` on.
pub open spec fn gated_read<E>(
    exchange: Seq<Transaction<E>>,
    status_register: u8,
    valid: u8,
    data_register: u8,
    length: nat,
) -> bool {
    &&& exchange.len() >= 1
    &&& exchange[0].is_read_of(DEV_ADDR, status_register, 1)
    &&& exchange[0].received().len() == 1
    &&& if shows_valid(exchange[0], valid) {
        &&& exchange.len() == 2
        &&& exchange[1].is_read_of(DEV_ADDR, data_register, length)
        &&& exchange[1].received().len() == length
    } else {
        exchange.len() == 1
    }
}

/// What a status-gated read returns for the bus's answers in `exchange`:
/// the data bytes, `None` for "not ready", or the error of the read that
/// failed.
pub open spec fn gated_data<E>(exchange: Seq<Transaction<E>>, valid: u8) -> Result<
    Option<Seq<u8>>,
    Error<E>,
> {
    match exchange[0].failure() {
        Some(e) => Err(Error::I2C(e)),
        None => if !flag_is(exchange[0].received()[0], valid, true) {
            Ok(None)
        } else {
            match exchange[1].failure() {
                Some(e) => Err(Error::I2C(e)),
                None => Ok(Some(exchange[1].received())),
            }
        },
    }
}

/// The poll in `exchange` ended with "not ready": its read of the status
/// register succeeded and showed the bit `valid` clear.
pub open spec fn not_ready<E>(exchange: Seq<Transaction<E>>, valid: u8) -> bool {
    exchange[0].failure() is None && flag_is(exchange[0].received()[0], valid, false)
}

/// What a blocking read puts on the bus when its polls are answered as in
/// `polls`: each poll in turn, up to and including the first that does not
/// end with "not ready".
pub open spec fn blocking_exchange<E>(polls: Seq<Seq<Transaction<E>>>, valid: u8) -> Seq<
    Transaction<E>,
>
    decreases polls.len(),
{
    if polls.len() == 0 {
        Seq::empty()
    } else if not_ready(polls[0], valid) {
        polls[0] + blocking_exchange(polls.drop_first(), valid)
    } else {
        polls[0]
    }
}

/// The poll that ends a blocking read, and whose result the blocking read
/// returns: the first of `polls` that does not end with "not ready". There
/// is none if they all do.
pub open spec fn completing_poll<E>(polls: Seq<Seq<Transaction<E>>>, valid: u8) -> Option<
    Seq<Transaction<E>>,
>
    decreases polls.len(),
{
    if polls.len() == 0 {
        None
    } else if not_ready(polls[0], valid) {
        completing_poll(polls.drop_first(), valid)
    } else {
        Some(polls[0])
    }
}

/// A poll that finds the validity bit clear reads the status register once,
/// reads no data, and says "not ready".
pub proof fn lemma_poll_not_ready<E>(
    exchange: Seq<Transaction<E>>,
    status_register: u8,
    valid: u8,
    data_register: u8,
    length: nat,
)
    requires
        gated_read(exchange, status_register, valid, data_register, length),
        status_register != data_register,
        not_ready(exchange, valid),
    ensures
        gated_data(exchange, valid) == Ok::<Option<Seq<u8>>, Error<E>>(None),
        exchange.len() == 1,
        reads_of(exchange, status_register) == 1,
        reads_of(exchange, data_register) == 0,
{
    lemma_reads_of_poll(exchange, status_register, valid, data_register, length);
}

/// A poll that finds the validity bit set reads the status register once
/// and the data once, and returns the data read, or the error of that read.
pub proof fn lemma_poll_ready<E>(
    exchange: Seq<Transaction<E>>,
    status_register: u8,
    valid: u8,
    data_register: u8,
    length: nat,
)
    requires
        gated_read(exchange, status_register, valid, data_register, length),
        status_register != data_register,
        shows_valid(exchange[0], valid),
    ensures
        gated_data(exchange, valid) == (match exchange[1].failure() {
            None => Ok::<Option<Seq<u8>>, Error<E>>(Some(exchange[1].received())),
            Some(e) => Err(Error::I2C(e)),
        }),
        exchange.len() == 2,
        reads_of(exchange, status_register) == 1,
        reads_of(exchange, data_register) == 1,
{
    lemma_reads_of_poll(exchange, status_register, valid, data_register, length);
}

/// A poll says "not ready" exactly if it ended so on the bus.
pub proof fn lemma_not_ready_is_none<E>(exchange: Seq<Transaction<E>>, valid: u8)
    ensures
        not_ready(exchange, valid) <==> gated_data(exchange, valid) == Ok::<
            Option<Seq<u8>>,
            Error<E>,
        >(None),
{
}

/// The reads in one poll: one of the status register, and one of the data
/// exactly if the poll got as far as the data.
proof fn lemma_reads_of_poll<E>(
    exchange: Seq<Transaction<E>>,
    status_register: u8,
    valid: u8,
    data_register: u8,
    length: nat,
)
    requires
        gated_read(exchange, status_register, valid, data_register, length),
        status_register != data_register,
    ensures
        reads_of(exchange, status_register) == 1,
        reads_of(exchange, data_register) == (if exchange.len() == 2 {
            1nat
        } else {
            0nat
        }),
{
    // Register selections differ where their one byte differs.
    assert(seq![status_register][0] == status_register);
    assert(seq![data_register][0] == data_register);
    let none = Seq::<Transaction<E>>::empty();
    lemma_reads_of_push(none, exchange[0], status_register);
    lemma_reads_of_push(none, exchange[0], data_register);
    if exchange.len() == 2 {
        lemma_reads_of_push(none.push(exchange[0]), exchange[1], status_register);
        lemma_reads_of_push(none.push(exchange[0]), exchange[1], data_register);
        assert(exchange =~= none.push(exchange[0]).push(exchange[1]));
    } else {
        assert(exchange =~= none.push(exchange[0]));
    }
}

/// A blocking read whose first `n` polls find the validity bit clear and
/// whose next poll finds it set reads the status register `n + 1` times and
/// the data once, and returns what that last poll read.
pub proof fn lemma_blocking_read<E>(
    polls: Seq<Seq<Transaction<E>>>,
    status_register: u8,
    valid: u8,
    data_register: u8,
    length: nat,
)
    requires
        polls.len() >= 1,
        status_register != data_register,
        forall|i: int|
            0 <= i < polls.len() ==> gated_read(
                #[trigger] polls[i],
                status_register,
                valid,
                data_register,
                length,
            ),
        forall|i: int| 0 <= i < polls.len() - 1 ==> not_ready(#[trigger] polls[i], valid),
        shows_valid(polls.last()[0], valid),
    ensures
        reads_of(blocking_exchange(polls, valid), status_register) == polls.len(),
        reads_of(blocking_exchange(polls, valid), data_register) == 1,
        completing_poll(polls, valid) == Some(polls.last()),
        gated_data(polls.last(), valid) == (match polls.last()[1].failure() {
            None => Ok::<Option<Seq<u8>>, Error<E>>(Some(polls.last()[1].received())),
            Some(e) => Err(Error::I2C(e)),
        }),
    decreases polls.len(),
{
    if polls.len() == 1 {
        assert(polls[0] == polls.last());
        lemma_poll_ready(polls[0], status_register, valid, data_register, length);
    } else {
        let rest = polls.drop_first();
        assert(rest.last() == polls.last());
        assert forall|i: int| 0 <= i < rest.len() implies gated_read(
            #[trigger] rest[i],
            status_register,
            valid,
            data_register,
            length,
        ) by {
            assert(rest[i] == polls[i + 1]);
        }
        assert forall|i: int| 0 <= i < rest.len() - 1 implies not_ready(
            #[trigger] rest[i],
            valid,
        ) by {
            assert(rest[i] == polls[i + 1]);
        }
        assert(not_ready(polls[0], valid));
        lemma_poll_not_ready(polls[0], status_register, valid, data_register, length);
        lemma_blocking_read(rest, status_register, valid, data_register, length);
        lemma_reads_of_concat(polls[0], blocking_exchange(rest, valid), status_register);
        lemma_reads_of_concat(polls[0], blocking_exchange(rest, valid), data_register);
    }
}

impl<I2C: I2cBus> Apds9960<I2C> {
    /// Read the device ID.
    ///
    /// This is per default `0xAB`.
    pub fn read_device_id(&mut self) -> (r: Result<u8, Error<I2C::Error>>)
        requires
            old(self).wf(),
        ensures
            final(self).wf(),
            final(self)@.extends(old(self)@),
            register_read(final(self)@.since(old(self)@), Register::ID),
            r == byte_read(final(self)@.since(old(self)@)[0]),
    {
        self.read_register(Register::ID)
    }

    /// Reads the register at `register`.
    pub(crate) fn read_register(&mut self, register: u8) -> (r: Result<u8, Error<I2C::Error>>)
        ensures
            final(self)@.extends(old(self)@),
            register_read(final(self)@.since(old(self)@), register),
            r == byte_read(final(self)@.since(old(self)@)[0]),
            old(self).wf() ==> final(self).wf(),
    {
        let mut data = [0u8];
        let r = self.read_data(register, &mut data);
        assert(self@.since(old(self)@) =~= seq![self@.transcript.last()]);
        match r {
            Ok(()) => Ok(data[0]),
            Err(e) => Err(e),
        }
    }

    /// Reads from the registers starting at `register` until `data` is full.
    pub(crate) fn read_data(&mut self, register: u8, data: &mut [u8]) -> (r: Result<
        (),
        Error<I2C::Error>,
    >)
        ensures
            final(self)@ == old(self)@.after_read(
                register,
                old(data)@.len(),
                final(data)@,
                bus_failure(r),
            ),
            old(self).wf() ==> final(self).wf(),
    {
        let select = [register];
        let r = match self.i2c.write_read(DEV_ADDR, &select, data) {
            Ok(()) => Ok(()),
            Err(e) => Err(Error::I2C(e)),
        };
        proof {
            assert(select@ =~= seq![register]);
            if old(self).wf() {
                lemma_followed_by_consistent(old(self)@, self@.transcript.last());
            }
        }
        r
    }
}

} // verus!
