//! Gesture data reading.

use vstd::prelude::*;
use crate::bus::{lemma_reads_of_concat, lemma_reads_of_push, reads_of, I2cBus, Transaction};
use crate::encoding::{fifo_byte_count, fifo_read_length};
use crate::reading::{
    blocking_exchange, byte_read, completing_poll, not_ready, register_read, shows_valid,
};
use crate::register::{flag_is, BitFlags, GStatus, Register, DEV_ADDR};
use crate::{Apds9960, Error};

verus! {

/// `exchange` is what one read of the gesture FIFO into a buffer of
/// `capacity` bytes puts on the bus: a read of GSTATUS; then, only if that
/// shows GVALID, a read of GFLVL; then, only if that succeeded, one read
/// from GFIFO_U on, of four bytes for each dataset that GFLVL counted or of
/// `capacity` bytes, whichever is less.
pub open spec fn fifo_read<E>(exchange: Seq<Transaction<E>>, capacity: nat) -> bool {
    &&& exchange.len() >= 1
    &&& exchange[0].is_read_of(DEV_ADDR, Register::GSTATUS, 1)
    &&& exchange[0].received().len() == 1
    &&& if shows_valid(exchange[0], GStatus::GVALID) {
        &&& exchange.len() >= 2
        &&& exchange[1].is_read_of(DEV_ADDR, Register::GFLVL, 1)
        &&& exchange[1].received().len() == 1
        &&& if exchange[1].failure() is None {
            &&& exchange.len() == 3
            &&& exchange[2].is_read_of(
                DEV_ADDR,
                Register::GFIFO_U,
                fifo_read_length(capacity, exchange[1].received()[0]),
            )
        } else {
            exchange.len() == 2
        }
    } else {
        exchange.len() == 1
    }
}

/// What a read of the gesture FIFO returns for the bus's answers in
/// `exchange`: `Some` once the FIFO was read, `None` for "not ready", or the
/// error of the read that failed.
pub open spec fn fifo_outcome<E>(exchange: Seq<Transaction<E>>) -> Result<Option<()>, Error<E>> {
    match exchange[0].failure() {
        Some(e) => Err(Error::I2C(e)),
        None => if !flag_is(exchange[0].received()[0], GStatus::GVALID, true) {
            Ok(None)
        } else {
            match exchange[1].failure() {
                Some(e) => Err(Error::I2C(e)),
                None => match exchange[2].failure() {
                    Some(e) => Err(Error::I2C(e)),
                    None => Ok(Some(())),
                },
            }
        },
    }
}

/// The caller's buffer after a read of the gesture FIFO: if the FIFO was
/// read, what the bus left, followed by the bytes of `before` past the
/// length asked for; else `before`.
pub open spec fn fifo_buffer<E>(exchange: Seq<Transaction<E>>, before: Seq<u8>) -> Seq<u8> {
    if exchange.len() == 3 {
        exchange[2].received() + before.skip(
            fifo_read_length(before.len(), exchange[1].received()[0]) as int,
        )
    } else {
        before
    }
}

/// The reads in one poll of the gesture FIFO: one of GSTATUS, one of GFLVL
/// if GSTATUS shows GVALID, and one of the FIFO if moreover the read of
/// GFLVL succeeded.
proof fn lemma_reads_of_fifo_poll<E>(exchange: Seq<Transaction<E>>, capacity: nat)
    requires
        fifo_read(exchange, capacity),
    ensures
        reads_of(exchange, Register::GSTATUS) == 1,
        reads_of(exchange, Register::GFLVL) == (if exchange.len() >= 2 {
            1nat
        } else {
            0nat
        }),
        reads_of(exchange, Register::GFIFO_U) == (if exchange.len() == 3 {
            1nat
        } else {
            0nat
        }),
{
    // Register selections differ where their one byte differs.
    assert(seq![Register::GSTATUS][0] == Register::GSTATUS);
    assert(seq![Register::GFLVL][0] == Register::GFLVL);
    assert(seq![Register::GFIFO_U][0] == Register::GFIFO_U);
    let none = Seq::<Transaction<E>>::empty();
    let one = none.push(exchange[0]);
    lemma_reads_of_push(none, exchange[0], Register::GSTATUS);
    lemma_reads_of_push(none, exchange[0], Register::GFLVL);
    lemma_reads_of_push(none, exchange[0], Register::GFIFO_U);
    if exchange.len() == 1 {
        assert(exchange =~= one);
    } else {
        let two = one.push(exchange[1]);
        lemma_reads_of_push(one, exchange[1], Register::GSTATUS);
        lemma_reads_of_push(one, exchange[1], Register::GFLVL);
        lemma_reads_of_push(one, exchange[1], Register::GFIFO_U);
        if exchange.len() == 2 {
            assert(exchange =~= two);
        } else {
            lemma_reads_of_push(two, exchange[2], Register::GSTATUS);
            lemma_reads_of_push(two, exchange[2], Register::GFLVL);
            lemma_reads_of_push(two, exchange[2], Register::GFIFO_U);
            assert(exchange =~= two.push(exchange[2]));
        }
    }
}

/// A poll of the gesture FIFO that finds GVALID clear reads GSTATUS once
/// and nothing else, says "not ready", and leaves the buffer as it was.
pub proof fn lemma_fifo_poll_not_ready<E>(exchange: Seq<Transaction<E>>, before: Seq<u8>)
    requires
        fifo_read(exchange, before.len()),
        not_ready(exchange, GStatus::GVALID),
    ensures
        fifo_outcome(exchange) == Ok::<Option<()>, Error<E>>(None),
        fifo_buffer(exchange, before) == before,
        exchange.len() == 1,
        reads_of(exchange, Register::GSTATUS) == 1,
        reads_of(exchange, Register::GFLVL) == 0,
        reads_of(exchange, Register::GFIFO_U) == 0,
{
    lemma_reads_of_fifo_poll(exchange, before.len());
}

/// A poll of the gesture FIFO that finds GVALID set and learns the level
/// reads GSTATUS, GFLVL and the FIFO once each. The FIFO is read in one
/// transaction, for four bytes per dataset or for as many as the buffer
/// takes, whichever is less.
pub proof fn lemma_fifo_poll_ready<E>(exchange: Seq<Transaction<E>>, capacity: nat)
    requires
        fifo_read(exchange, capacity),
        shows_valid(exchange[0], GStatus::GVALID),
        exchange[1].failure() is None,
    ensures
        exchange.len() == 3,
        reads_of(exchange, Register::GSTATUS) == 1,
        reads_of(exchange, Register::GFLVL) == 1,
        reads_of(exchange, Register::GFIFO_U) == 1,
        exchange[2] matches Transaction::WriteRead { requested, .. } && requested <= capacity
            && requested <= 4 * exchange[1].received()[0] && (requested == capacity || requested
            == 4 * exchange[1].received()[0]),
{
    lemma_reads_of_fifo_poll(exchange, capacity);
}

/// A blocking read of the gesture FIFO whose first `n` polls find GVALID
/// clear and whose next poll finds it set and learns the level reads
/// GSTATUS `n + 1` times and GFLVL and the FIFO once each, and returns what
/// that last poll returns.
pub proof fn lemma_blocking_fifo_read<E>(polls: Seq<Seq<Transaction<E>>>, capacity: nat)
    requires
        polls.len() >= 1,
        forall|i: int| 0 <= i < polls.len() ==> fifo_read(#[trigger] polls[i], capacity),
        forall|i: int|
            0 <= i < polls.len() - 1 ==> not_ready(#[trigger] polls[i], GStatus::GVALID),
        shows_valid(polls.last()[0], GStatus::GVALID),
        polls.last()[1].failure() is None,
    ensures
        reads_of(blocking_exchange(polls, GStatus::GVALID), Register::GSTATUS) == polls.len(),
        reads_of(blocking_exchange(polls, GStatus::GVALID), Register::GFLVL) == 1,
        reads_of(blocking_exchange(polls, GStatus::GVALID), Register::GFIFO_U) == 1,
        completing_poll(polls, GStatus::GVALID) == Some(polls.last()),
    decreases polls.len(),
{
    if polls.len() == 1 {
        assert(polls[0] == polls.last());
        lemma_fifo_poll_ready(polls[0], capacity);
    } else {
        let rest = polls.drop_first();
        assert(rest.last() == polls.last());
        assert forall|i: int| 0 <= i < rest.len() implies fifo_read(
            #[trigger] rest[i],
            capacity,
        ) by {
            assert(rest[i] == polls[i + 1]);
        }
        assert forall|i: int| 0 <= i < rest.len() - 1 implies not_ready(
            #[trigger] rest[i],
            GStatus::GVALID,
        ) by {
            assert(rest[i] == polls[i + 1]);
        }
        assert(not_ready(polls[0], GStatus::GVALID));
        lemma_reads_of_fifo_poll(polls[0], capacity);
        lemma_blocking_fifo_read(rest, capacity);
        let later = blocking_exchange(rest, GStatus::GVALID);
        lemma_reads_of_concat(polls[0], later, Register::GSTATUS);
        lemma_reads_of_concat(polls[0], later, Register::GFLVL);
        lemma_reads_of_concat(polls[0], later, Register::GFIFO_U);
    }
}

impl<I2C: I2cBus> Apds9960<I2C> {
    /// Read the amount of available data in the gesture FIFO registers.
    pub fn read_gesture_data_level(&mut self) -> (r: Result<u8, Error<I2C::Error>>)
        requires
            old(self).wf(),
        ensures
            final(self).wf(),
            final(self)@.extends(old(self)@),
            register_read(final(self)@.since(old(self)@), Register::GFLVL),
            r == byte_read(final(self)@.since(old(self)@)[0]),
    {
        self.read_register(Register::GFLVL)
    }

    /// Read whether there is valid gesture data available.
    pub fn is_gesture_data_valid(&mut self) -> (r: Result<bool, Error<I2C::Error>>)
        requires
            old(self).wf(),
        ensures
            final(self).wf(),
            final(self)@.extends(old(self)@),
            register_read(final(self)@.since(old(self)@), Register::GSTATUS),
            r == match byte_read(final(self)@.since(old(self)@)[0]) {
                Ok(status) => Ok(flag_is(status, GStatus::GVALID, true)),
                Err(e) => Err(e),
            },
    {
        match self.read_register(Register::GSTATUS) {
            Ok(status) => Ok(GStatus::new(status).is(GStatus::GVALID, true)),
            Err(e) => Err(e),
        }
    }

    /// Read whether the gesture data has overflown.
    pub fn has_gesture_data_overflown(&mut self) -> (r: Result<bool, Error<I2C::Error>>)
        requires
            old(self).wf(),
        ensures
            final(self).wf(),
            final(self)@.extends(old(self)@),
            register_read(final(self)@.since(old(self)@), Register::GSTATUS),
            r == match byte_read(final(self)@.since(old(self)@)[0]) {
                Ok(status) => Ok(flag_is(status, GStatus::GFOV, true)),
                Err(e) => Err(e),
            },
    {
        match self.read_register(Register::GSTATUS) {
            Ok(status) => Ok(GStatus::new(status).is(GStatus::GFOV, true)),
            Err(e) => Err(e),
        }
    }

    /// Read gesture data.
    ///
    /// Will read the gesture data up to the minimum of: gesture data level,
    /// array size. Make sure to provide an array with at least the number of
    /// elements returned by the `read_gesture_data_level()` method multiplied
    /// by 4.
    ///
    /// The data contents will be organized as follows:
    /// `[up_dataset0, down_dataset0, left_dataset0, right_dataset0,
    ///   up_dataset1, down_dataset1, left_dataset1, right_dataset1, ...]`
    ///
    /// Returns `Ok(None)` as long as the data is not ready, and leaves `data`
    /// alone then.
    pub fn read_gesture_data(&mut self, data: &mut [u8]) -> (r: Result<
        Option<()>,
        Error<I2C::Error>,
    >)
        requires
            old(self).wf(),
        ensures
            final(self).wf(),
            final(self)@.extends(old(self)@),
            fifo_read(final(self)@.since(old(self)@), old(data)@.len()),
            r == fifo_outcome(final(self)@.since(old(self)@)),
            final(data)@ == fifo_buffer(final(self)@.since(old(self)@), old(data)@),
    {
        match self.is_gesture_data_valid() {
            Err(e) => {
                return Err(e);
            },
            Ok(false) => {
                return Ok(None);
            },
            Ok(true) => {},
        }
        let ghost polled = self@;
        let level = match self.read_gesture_data_level() {
            Err(e) => {
                proof {
                    assert(self@.since(old(self)@) =~= polled.since(old(self)@) + self@.since(
                        polled,
                    ));
                }
                return Err(e);
            },
            Ok(level) => level,
        };
        let ghost counted = self@;
        let byte_count = fifo_byte_count(data.len(), level);
        let (head, _tail) = data.split_at_mut(byte_count);
        let r = self.read_data(Register::GFIFO_U, head);
        proof {
            assert(self@.since(old(self)@) =~= polled.since(old(self)@) + counted.since(polled)
                + seq![self@.transcript.last()]);
        }
        match r {
            Ok(()) => Ok(Some(())),
            Err(e) => Err(e),
        }
    }
}

} // verus!
