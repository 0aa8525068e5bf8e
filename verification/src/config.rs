//! Common configuration, and the register writes that every other part of
//! the driver goes through.

use vstd::prelude::*;
use crate::bus::{frame_stores, I2cBus};
use crate::encoding::{high_byte, low_byte, split_word};
use crate::register::{with_flag, BitFlags, Config1, Enable, Register, DEV_ADDR};
use crate::state::{lemma_after_config_consistent, lemma_followed_by_consistent, Slot};
use crate::{bus_failure, Apds9960, Error};

verus! {

/// A write of `frame` stores nothing in a shadowed register.
pub open spec fn spares_shadows(frame: Seq<u8>) -> bool {
    &&& frame_stores(frame, Slot::Enable.address()) is None
    &&& frame_stores(frame, Slot::Config1.address()) is None
    &&& frame_stores(frame, Slot::Config2.address()) is None
    &&& frame_stores(frame, Slot::GConfig1.address()) is None
    &&& frame_stores(frame, Slot::GConfig4.address()) is None
}

impl<I2C: I2cBus> Apds9960<I2C> {
    /// Puts one write of `frame` on the bus.
    pub(crate) fn write_frame(&mut self, frame: &[u8]) -> (r: Result<(), Error<I2C::Error>>)
        ensures
            final(self)@ == old(self)@.after_write(frame@, bus_failure(r)),
            old(self).wf() && spares_shadows(frame@) ==> final(self).wf(),
    {
        let r = match self.i2c.write(DEV_ADDR, frame) {
            Ok(()) => Ok(()),
            Err(e) => Err(Error::I2C(e)),
        };
        proof {
            if old(self).wf() && spares_shadows(frame@) {
                lemma_followed_by_consistent(old(self)@, self@.transcript.last());
            }
        }
        r
    }

    /// Writes `value` to the register at `address`.
    pub(crate) fn write_register(&mut self, address: u8, value: u8) -> (r: Result<
        (),
        Error<I2C::Error>,
    >)
        ensures
            final(self)@ == old(self)@.after_write(seq![address, value], bus_failure(r)),
            old(self).wf() && spares_shadows(seq![address, value]) ==> final(self).wf(),
    {
        let frame = [address, value];
        assert(frame@ =~= seq![address, value]);
        self.write_frame(&frame)
    }

    /// Writes a sixteen-bit `value` to the two registers that start at
    /// `start_register`, low byte first.
    pub(crate) fn write_double_register(&mut self, start_register: u8, value: u16) -> (r: Result<
        (),
        Error<I2C::Error>,
    >)
        ensures
            final(self)@ == old(self)@.after_write(
                seq![start_register, low_byte(value), high_byte(value)],
                bus_failure(r),
            ),
            old(self).wf() && spares_shadows(
                seq![start_register, low_byte(value), high_byte(value)],
            ) ==> final(self).wf(),
    {
        let (low, high) = split_word(value);
        let frame = [start_register, low, high];
        assert(frame@ =~= seq![start_register, low_byte(value), high_byte(value)]);
        self.write_frame(&frame)
    }

    /// Addresses the register at `address` without sending it a value, which
    /// is how the device's command registers are triggered.
    pub(crate) fn touch_register(&mut self, address: u8) -> (r: Result<(), Error<I2C::Error>>)
        ensures
            final(self)@ == old(self)@.after_write(seq![address], bus_failure(r)),
            old(self).wf() ==> final(self).wf(),
    {
        let frame = [address];
        assert(frame@ =~= seq![address]);
        self.write_frame(&frame)
    }

    /// Writes the byte of `reg` to its register. The shadow is not touched:
    /// the caller commits `reg` once this has succeeded.
    pub(crate) fn config_register<T: BitFlags>(&mut self, reg: &T) -> (r: Result<
        (),
        Error<I2C::Error>,
    >)
        ensures
            final(self)@ == old(self)@.after_write(seq![T::spec_address(), reg.bits()], bus_failure(r)),
    {
        self.write_register(T::address(), reg.value())
    }

    /// Switches the flag `flag` of ENABLE.
    pub(crate) fn set_flag_enable(&mut self, flag: u8, value: bool) -> (r: Result<
        (),
        Error<I2C::Error>,
    >)
        requires
            old(self).wf(),
        ensures
            final(self).wf(),
            final(self)@ == old(self)@.after_flag(Slot::Enable, flag, value, bus_failure(r)),
    {
        let new = self.enable.with(flag, value);
        let r = self.config_register(&new);
        if r.is_ok() {
            self.enable = new;
        }
        proof {
            lemma_after_config_consistent(
                old(self)@,
                Slot::Enable,
                with_flag(old(self)@.shadows.enable, flag, value),
                bus_failure(r),
            );
        }
        r
    }

    /// Switches the flag `flag` of CONFIG1.
    pub(crate) fn set_flag_config1(&mut self, flag: u8, value: bool) -> (r: Result<
        (),
        Error<I2C::Error>,
    >)
        requires
            old(self).wf(),
        ensures
            final(self).wf(),
            final(self)@ == old(self)@.after_flag(Slot::Config1, flag, value, bus_failure(r)),
    {
        let new = self.config1.with(flag, value);
        let r = self.config_register(&new);
        if r.is_ok() {
            self.config1 = new;
        }
        proof {
            lemma_after_config_consistent(
                old(self)@,
                Slot::Config1,
                with_flag(old(self)@.shadows.config1, flag, value),
                bus_failure(r),
            );
        }
        r
    }

    /// Switches the flag `flag` of CONFIG2.
    pub(crate) fn set_flag_config2(&mut self, flag: u8, value: bool) -> (r: Result<
        (),
        Error<I2C::Error>,
    >)
        requires
            old(self).wf(),
        ensures
            final(self).wf(),
            final(self)@ == old(self)@.after_flag(Slot::Config2, flag, value, bus_failure(r)),
    {
        let new = self.config2.with(flag, value);
        let r = self.config_register(&new);
        if r.is_ok() {
            self.config2 = new;
        }
        proof {
            lemma_after_config_consistent(
                old(self)@,
                Slot::Config2,
                with_flag(old(self)@.shadows.config2, flag, value),
                bus_failure(r),
            );
        }
        r
    }

    /// Switches the flag `flag` of GCONFIG4.
    pub(crate) fn set_flag_gconfig4(&mut self, flag: u8, value: bool) -> (r: Result<
        (),
        Error<I2C::Error>,
    >)
        requires
            old(self).wf(),
        ensures
            final(self).wf(),
            final(self)@ == old(self)@.after_flag(Slot::GConfig4, flag, value, bus_failure(r)),
    {
        let new = self.gconfig4.with(flag, value);
        let r = self.config_register(&new);
        if r.is_ok() {
            self.gconfig4 = new;
        }
        proof {
            lemma_after_config_consistent(
                old(self)@,
                Slot::GConfig4,
                with_flag(old(self)@.shadows.gconfig4, flag, value),
                bus_failure(r),
            );
        }
        r
    }

    /// Turn power on.
    pub fn enable(&mut self) -> (r: Result<(), Error<I2C::Error>>)
        requires
            old(self).wf(),
        ensures
            final(self).wf(),
            final(self)@ == old(self)@.after_flag(Slot::Enable, Enable::PON, true, bus_failure(r)),
    {
        self.set_flag_enable(Enable::PON, true)
    }

    /// Deactivate everything and put the device to sleep: ENABLE is written
    /// as zero.
    pub fn disable(&mut self) -> (r: Result<(), Error<I2C::Error>>)
        requires
            old(self).wf(),
        ensures
            final(self).wf(),
            final(self)@ == old(self)@.after_config(Slot::Enable, 0x00, bus_failure(r)),
    {
        assert(forall|current: u8| #[trigger] with_flag(current, 0xFF, false) == 0x00) by {
            assert(forall|current: u8| #[trigger] (current & !0xFFu8) == 0x00u8) by (bit_vector);
        }
        self.set_flag_enable(Enable::ALL, false)
    }

    /// Enable the wait feature.
    ///
    /// Enables delay between proximity and / or color and ambient light
    /// cycles. The duration of the wait can be configured with
    /// [`set_wait_time()`](Apds9960::set_wait_time) and
    /// [`enable_wait_long()`](Apds9960::enable_wait_long).
    pub fn enable_wait(&mut self) -> (r: Result<(), Error<I2C::Error>>)
        requires
            old(self).wf(),
        ensures
            final(self).wf(),
            final(self)@ == old(self)@.after_flag(Slot::Enable, Enable::WEN, true, bus_failure(r)),
    {
        self.set_flag_enable(Enable::WEN, true)
    }

    /// Disable the wait feature.
    pub fn disable_wait(&mut self) -> (r: Result<(), Error<I2C::Error>>)
        requires
            old(self).wf(),
        ensures
            final(self).wf(),
            final(self)@ == old(self)@.after_flag(
                Slot::Enable,
                Enable::WEN,
                false,
                bus_failure(r),
            ),
    {
        self.set_flag_enable(Enable::WEN, false)
    }

    /// Enable long wait.
    ///
    /// The wait time will be multiplied by 12 so that each cycle takes 0.03s.
    /// See also: [`set_wait_time()`](Apds9960::set_wait_time).
    ///
    /// Wait must be enabled with [`enable_wait()`](Apds9960::enable_wait).
    pub fn enable_wait_long(&mut self) -> (r: Result<(), Error<I2C::Error>>)
        requires
            old(self).wf(),
        ensures
            final(self).wf(),
            final(self)@ == old(self)@.after_flag(
                Slot::Config1,
                Config1::WLONG,
                true,
                bus_failure(r),
            ),
    {
        self.set_flag_config1(Config1::WLONG, true)
    }

    /// Disable long wait.
    pub fn disable_wait_long(&mut self) -> (r: Result<(), Error<I2C::Error>>)
        requires
            old(self).wf(),
        ensures
            final(self).wf(),
            final(self)@ == old(self)@.after_flag(
                Slot::Config1,
                Config1::WLONG,
                false,
                bus_failure(r),
            ),
    {
        self.set_flag_config1(Config1::WLONG, false)
    }

    /// Set the waiting time between proximity and / or color and ambient
    /// light cycles.
    ///
    /// The value parameter must be a 2's complement of the number of cycles.
    ///
    /// Per default this is set to `0xFF` (1 cycle) and each cycle has a fixed
    /// duration of 2.78ms except if long wait is enabled, then this time is
    /// multiplied by 12.
    ///
    /// This must be set before enabling proximity and / or color and ambient
    /// light detection.
    ///
    /// Waiting must be enabled with [`enable_wait()`](Apds9960::enable_wait).
    /// Long wait can be enabled with
    /// [`enable_wait_long()`](Apds9960::enable_wait_long).
    pub fn set_wait_time(&mut self, value: u8) -> (r: Result<(), Error<I2C::Error>>)
        requires
            old(self).wf(),
        ensures
            final(self).wf(),
            final(self)@ == old(self)@.after_write(seq![Register::WTIME, value], bus_failure(r)),
    {
        self.write_register(Register::WTIME, value)
    }

    /// Force an interrupt.
    pub fn force_interrupt(&mut self) -> (r: Result<(), Error<I2C::Error>>)
        requires
            old(self).wf(),
        ensures
            final(self).wf(),
            final(self)@ == old(self)@.after_write(seq![Register::IFORCE], bus_failure(r)),
    {
        self.touch_register(Register::IFORCE)
    }

    /// Clear all *non-gesture* interrupts.
    pub fn clear_interrupts(&mut self) -> (r: Result<(), Error<I2C::Error>>)
        requires
            old(self).wf(),
        ensures
            final(self).wf(),
            final(self)@ == old(self)@.after_write(seq![Register::AICLEAR], bus_failure(r)),
    {
        self.touch_register(Register::AICLEAR)
    }
}

} // verus!
