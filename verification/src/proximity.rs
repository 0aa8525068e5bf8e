//! Proximity.

use vstd::prelude::*;
use crate::bus::I2cBus;
use crate::encoding::{encode_offset, offset_byte};
use crate::reading::{byte_read, gated_data, gated_read, register_read};
use crate::register::{flag_is, BitFlags, Config2, Enable, Register, Status};
use crate::state::Slot;
use crate::{bus_failure, Apds9960, Error};

verus! {

impl<I2C: I2cBus> Apds9960<I2C> {
    /// Enable proximity detection
    pub fn enable_proximity(&mut self) -> (r: Result<(), Error<I2C::Error>>)
        requires
            old(self).wf(),
        ensures
            final(self).wf(),
            final(self)@ == old(self)@.after_flag(Slot::Enable, Enable::PEN, true, bus_failure(r)),
    {
        self.set_flag_enable(Enable::PEN, true)
    }

    /// Disable proximity detection
    pub fn disable_proximity(&mut self) -> (r: Result<(), Error<I2C::Error>>)
        requires
            old(self).wf(),
        ensures
            final(self).wf(),
            final(self)@ == old(self)@.after_flag(
                Slot::Enable,
                Enable::PEN,
                false,
                bus_failure(r),
            ),
    {
        self.set_flag_enable(Enable::PEN, false)
    }

    /// Enable proximity interrupt generation
    pub fn enable_proximity_interrupts(&mut self) -> (r: Result<(), Error<I2C::Error>>)
        requires
            old(self).wf(),
        ensures
            final(self).wf(),
            final(self)@ == old(self)@.after_flag(
                Slot::Enable,
                Enable::PIEN,
                true,
                bus_failure(r),
            ),
    {
        self.set_flag_enable(Enable::PIEN, true)
    }

    /// Disable proximity interrupt generation
    pub fn disable_proximity_interrupts(&mut self) -> (r: Result<(), Error<I2C::Error>>)
        requires
            old(self).wf(),
        ensures
            final(self).wf(),
            final(self)@ == old(self)@.after_flag(
                Slot::Enable,
                Enable::PIEN,
                false,
                bus_failure(r),
            ),
    {
        self.set_flag_enable(Enable::PIEN, false)
    }

    /// Enable proximity saturation interrupt generation
    pub fn enable_proximity_saturation_interrupts(&mut self) -> (r: Result<
        (),
        Error<I2C::Error>,
    >)
        requires
            old(self).wf(),
        ensures
            final(self).wf(),
            final(self)@ == old(self)@.after_flag(
                Slot::Config2,
                Config2::PSIEN,
                true,
                bus_failure(r),
            ),
    {
        self.set_flag_config2(Config2::PSIEN, true)
    }

    /// Disable proximity saturation interrupt generation
    pub fn disable_proximity_saturation_interrupts(&mut self) -> (r: Result<
        (),
        Error<I2C::Error>,
    >)
        requires
            old(self).wf(),
        ensures
            final(self).wf(),
            final(self)@ == old(self)@.after_flag(
                Slot::Config2,
                Config2::PSIEN,
                false,
                bus_failure(r),
            ),
    {
        self.set_flag_config2(Config2::PSIEN, false)
    }

    /// Set the proximity interrupt low threshold.
    pub fn set_proximity_low_threshold(&mut self, threshold: u8) -> (r: Result<
        (),
        Error<I2C::Error>,
    >)
        requires
            old(self).wf(),
        ensures
            final(self).wf(),
            final(self)@ == old(self)@.after_write(
                seq![Register::PILT, threshold],
                bus_failure(r),
            ),
    {
        self.write_register(Register::PILT, threshold)
    }

    /// Set the proximity interrupt high threshold.
    pub fn set_proximity_high_threshold(&mut self, threshold: u8) -> (r: Result<
        (),
        Error<I2C::Error>,
    >)
        requires
            old(self).wf(),
        ensures
            final(self).wf(),
            final(self)@ == old(self)@.after_write(
                seq![Register::PIHT, threshold],
                bus_failure(r),
            ),
    {
        self.write_register(Register::PIHT, threshold)
    }

    /// Set the proximity up/right photodiode offset.
    pub fn set_proximity_up_right_offset(&mut self, offset: i8) -> (r: Result<
        (),
        Error<I2C::Error>,
    >)
        requires
            old(self).wf(),
        ensures
            final(self).wf(),
            final(self)@ == old(self)@.after_write(
                seq![Register::POFFSET_UR, offset_byte(offset)],
                bus_failure(r),
            ),
    {
        self.write_register(Register::POFFSET_UR, encode_offset(offset))
    }

    /// Set the proximity down/left photodiode offset.
    pub fn set_proximity_down_left_offset(&mut self, offset: i8) -> (r: Result<
        (),
        Error<I2C::Error>,
    >)
        requires
            old(self).wf(),
        ensures
            final(self).wf(),
            final(self)@ == old(self)@.after_write(
                seq![Register::POFFSET_DL, offset_byte(offset)],
                bus_failure(r),
            ),
    {
        self.write_register(Register::POFFSET_DL, encode_offset(offset))
    }

    /// Set the proximity up/right and down/left photodiode offset.
    pub fn set_proximity_offsets(&mut self, offset_up_right: i8, offset_down_left: i8) -> (r:
        Result<(), Error<I2C::Error>>)
        requires
            old(self).wf(),
        ensures
            final(self).wf(),
            final(self)@ == old(self)@.after_write(
                seq![
                    Register::POFFSET_UR,
                    offset_byte(offset_up_right),
                    offset_byte(offset_down_left),
                ],
                bus_failure(r),
            ),
    {
        let frame = [
            Register::POFFSET_UR,
            encode_offset(offset_up_right),
            encode_offset(offset_down_left),
        ];
        assert(frame@ =~= seq![
            Register::POFFSET_UR,
            offset_byte(offset_up_right),
            offset_byte(offset_down_left),
        ]);
        self.write_frame(&frame)
    }

    /// Clear proximity interrupt.
    pub fn clear_proximity_interrupt(&mut self) -> (r: Result<(), Error<I2C::Error>>)
        requires
            old(self).wf(),
        ensures
            final(self).wf(),
            final(self)@ == old(self)@.after_write(seq![Register::PICLEAR], bus_failure(r)),
    {
        self.touch_register(Register::PICLEAR)
    }

    /// Read the proximity sensor data.
    ///
    /// Returns `Ok(None)` as long as the data is not ready.
    pub fn read_proximity(&mut self) -> (r: Result<Option<u8>, Error<I2C::Error>>)
        requires
            old(self).wf(),
        ensures
            final(self).wf(),
            final(self)@.extends(old(self)@),
            gated_read(
                final(self)@.since(old(self)@),
                Register::STATUS,
                Status::PVALID,
                Register::PDATA,
                1,
            ),
            r == match gated_data(final(self)@.since(old(self)@), Status::PVALID) {
                Ok(Some(bytes)) => Ok(Some(bytes[0])),
                Ok(None) => Ok(None),
                Err(e) => Err(e),
            },
    {
        match self.is_proximity_data_valid() {
            Err(e) => {
                return Err(e);
            },
            Ok(false) => {
                return Ok(None);
            },
            Ok(true) => {},
        }
        let ghost polled = self@;
        let r = self.read_register(Register::PDATA);
        proof {
            let exchange = self@.since(old(self)@);
            assert(exchange =~= polled.since(old(self)@) + self@.since(polled));
        }
        match r {
            Ok(value) => Ok(Some(value)),
            Err(e) => Err(e),
        }
    }

    /// Read whether the proximity sensor data is valid.
    ///
    /// This is checked internally in `read_proximity()` as well.
    pub fn is_proximity_data_valid(&mut self) -> (r: Result<bool, Error<I2C::Error>>)
        requires
            old(self).wf(),
        ensures
            final(self).wf(),
            final(self)@.extends(old(self)@),
            register_read(final(self)@.since(old(self)@), Register::STATUS),
            r == match byte_read(final(self)@.since(old(self)@)[0]) {
                Ok(status) => Ok(flag_is(status, Status::PVALID, true)),
                Err(e) => Err(e),
            },
    {
        match self.read_register(Register::STATUS) {
            Ok(status) => Ok(Status::new(status).is(Status::PVALID, true)),
            Err(e) => Err(e),
        }
    }
}

} // verus!
