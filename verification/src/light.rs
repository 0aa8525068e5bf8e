//! Color and ambient light.

use vstd::prelude::*;
use crate::bus::I2cBus;
use crate::encoding::{decode_light, high_byte, join_word, light_data, low_byte, word};
use crate::reading::{byte_read, gated_data, gated_read, register_read};
use crate::register::{flag_is, BitFlags, Config2, Enable, Register, Status};
use crate::state::Slot;
use crate::{bus_failure, Apds9960, Error, LightData};

verus! {

impl<I2C: I2cBus> Apds9960<I2C> {
    /// Enable color and ambient light detection.
    pub fn enable_light(&mut self) -> (r: Result<(), Error<I2C::Error>>)
        requires
            old(self).wf(),
        ensures
            final(self).wf(),
            final(self)@ == old(self)@.after_flag(Slot::Enable, Enable::AEN, true, bus_failure(r)),
    {
        self.set_flag_enable(Enable::AEN, true)
    }

    /// Disable color and ambient light detection.
    pub fn disable_light(&mut self) -> (r: Result<(), Error<I2C::Error>>)
        requires
            old(self).wf(),
        ensures
            final(self).wf(),
            final(self)@ == old(self)@.after_flag(
                Slot::Enable,
                Enable::AEN,
                false,
                bus_failure(r),
            ),
    {
        self.set_flag_enable(Enable::AEN, false)
    }

    /// Set the color and ambient light integration time.
    ///
    /// The value parameter must be a 2's complement of the number of cycles.
    ///
    /// Per default this is set to `0xFF` (1 cycle) and each cycle has a fixed
    /// duration of 2.78ms.
    pub fn set_light_integration_time(&mut self, value: u8) -> (r: Result<(), Error<I2C::Error>>)
        requires
            old(self).wf(),
        ensures
            final(self).wf(),
            final(self)@ == old(self)@.after_write(seq![Register::ATIME, value], bus_failure(r)),
    {
        self.write_register(Register::ATIME, value)
    }

    /// Enable ambient light interrupt generation.
    pub fn enable_light_interrupts(&mut self) -> (r: Result<(), Error<I2C::Error>>)
        requires
            old(self).wf(),
        ensures
            final(self).wf(),
            final(self)@ == old(self)@.after_flag(
                Slot::Enable,
                Enable::AIEN,
                true,
                bus_failure(r),
            ),
    {
        self.set_flag_enable(Enable::AIEN, true)
    }

    /// Disable ambient light interrupt generation.
    pub fn disable_light_interrupts(&mut self) -> (r: Result<(), Error<I2C::Error>>)
        requires
            old(self).wf(),
        ensures
            final(self).wf(),
            final(self)@ == old(self)@.after_flag(
                Slot::Enable,
                Enable::AIEN,
                false,
                bus_failure(r),
            ),
    {
        self.set_flag_enable(Enable::AIEN, false)
    }

    /// Enable clear channel ambient light saturation interrupt generation.
    pub fn enable_light_saturation_interrupts(&mut self) -> (r: Result<(), Error<I2C::Error>>)
        requires
            old(self).wf(),
        ensures
            final(self).wf(),
            final(self)@ == old(self)@.after_flag(
                Slot::Config2,
                Config2::CPSIEN,
                true,
                bus_failure(r),
            ),
    {
        self.set_flag_config2(Config2::CPSIEN, true)
    }

    /// Disable clear channel ambient light saturation interrupt generation.
    pub fn disable_light_saturation_interrupts(&mut self) -> (r: Result<(), Error<I2C::Error>>)
        requires
            old(self).wf(),
        ensures
            final(self).wf(),
            final(self)@ == old(self)@.after_flag(
                Slot::Config2,
                Config2::CPSIEN,
                false,
                bus_failure(r),
            ),
    {
        self.set_flag_config2(Config2::CPSIEN, false)
    }

    /// Set the clear channel ambient light interrupt low threshold.
    ///
    /// An interrupt will be generated if light interrupts are enabled and the
    /// clear data is less than this value.
    pub fn set_light_low_threshold(&mut self, threshold: u16) -> (r: Result<
        (),
        Error<I2C::Error>,
    >)
        requires
            old(self).wf(),
        ensures
            final(self).wf(),
            final(self)@ == old(self)@.after_write(
                seq![Register::AILTL, low_byte(threshold), high_byte(threshold)],
                bus_failure(r),
            ),
    {
        self.write_double_register(Register::AILTL, threshold)
    }

    /// Set the clear channel ambient light interrupt high threshold.
    ///
    /// An interrupt will be generated if light interrupts are enabled and the
    /// clear data is greater than this value.
    pub fn set_light_high_threshold(&mut self, threshold: u16) -> (r: Result<
        (),
        Error<I2C::Error>,
    >)
        requires
            old(self).wf(),
        ensures
            final(self).wf(),
            final(self)@ == old(self)@.after_write(
                seq![Register::AIHTL, low_byte(threshold), high_byte(threshold)],
                bus_failure(r),
            ),
    {
        self.write_double_register(Register::AIHTL, threshold)
    }

    /// Clear ambient light interrupt.
    pub fn clear_light_interrupt(&mut self) -> (r: Result<(), Error<I2C::Error>>)
        requires
            old(self).wf(),
        ensures
            final(self).wf(),
            final(self)@ == old(self)@.after_write(seq![Register::CICLEAR], bus_failure(r)),
    {
        self.touch_register(Register::CICLEAR)
    }

    /// Read the color / ambient light sensor data.
    ///
    /// Returns `Ok(None)` as long as the data is not ready.
    /// Reading the data clears the data ready flag in the device.
    pub fn read_light(&mut self) -> (r: Result<Option<LightData>, Error<I2C::Error>>)
        requires
            old(self).wf(),
        ensures
            final(self).wf(),
            final(self)@.extends(old(self)@),
            gated_read(
                final(self)@.since(old(self)@),
                Register::STATUS,
                Status::AVALID,
                Register::CDATAL,
                8,
            ),
            r == match gated_data(final(self)@.since(old(self)@), Status::AVALID) {
                Ok(Some(bytes)) => Ok(Some(light_data(bytes))),
                Ok(None) => Ok(None),
                Err(e) => Err(e),
            },
    {
        match self.is_light_data_valid() {
            Err(e) => {
                return Err(e);
            },
            Ok(false) => {
                return Ok(None);
            },
            Ok(true) => {},
        }
        let ghost polled = self@;
        let mut data = [0u8;8];
        let r = self.read_data(Register::CDATAL, &mut data);
        proof {
            let exchange = self@.since(old(self)@);
            assert(exchange =~= polled.since(old(self)@) + seq![self@.transcript.last()]);
        }
        match r {
            Ok(()) => Ok(Some(decode_light(&data))),
            Err(e) => Err(e),
        }
    }

    /// Read the color / ambient light sensor clear channel data.
    ///
    /// Returns `Ok(None)` as long as the data is not ready.
    /// Reading the data clears the data ready flag in the device.
    pub fn read_light_clear(&mut self) -> (r: Result<Option<u16>, Error<I2C::Error>>)
        requires
            old(self).wf(),
        ensures
            final(self).wf(),
            final(self)@.extends(old(self)@),
            gated_read(
                final(self)@.since(old(self)@),
                Register::STATUS,
                Status::AVALID,
                Register::CDATAL,
                2,
            ),
            r == match gated_data(final(self)@.since(old(self)@), Status::AVALID) {
                Ok(Some(bytes)) => Ok(Some(word(bytes[0], bytes[1]))),
                Ok(None) => Ok(None),
                Err(e) => Err(e),
            },
    {
        self.read_light_channel(Register::CDATAL)
    }

    /// Read the color / ambient light sensor red channel data.
    ///
    /// Returns `Ok(None)` as long as the data is not ready.
    /// Reading the data clears the data ready flag in the device.
    pub fn read_light_red(&mut self) -> (r: Result<Option<u16>, Error<I2C::Error>>)
        requires
            old(self).wf(),
        ensures
            final(self).wf(),
            final(self)@.extends(old(self)@),
            gated_read(
                final(self)@.since(old(self)@),
                Register::STATUS,
                Status::AVALID,
                Register::RDATAL,
                2,
            ),
            r == match gated_data(final(self)@.since(old(self)@), Status::AVALID) {
                Ok(Some(bytes)) => Ok(Some(word(bytes[0], bytes[1]))),
                Ok(None) => Ok(None),
                Err(e) => Err(e),
            },
    {
        self.read_light_channel(Register::RDATAL)
    }

    /// Read the color / ambient light sensor green channel data.
    ///
    /// Returns `Ok(None)` as long as the data is not ready.
    /// Reading the data clears the data ready flag in the device.
    pub fn read_light_green(&mut self) -> (r: Result<Option<u16>, Error<I2C::Error>>)
        requires
            old(self).wf(),
        ensures
            final(self).wf(),
            final(self)@.extends(old(self)@),
            gated_read(
                final(self)@.since(old(self)@),
                Register::STATUS,
                Status::AVALID,
                Register::GDATAL,
                2,
            ),
            r == match gated_data(final(self)@.since(old(self)@), Status::AVALID) {
                Ok(Some(bytes)) => Ok(Some(word(bytes[0], bytes[1]))),
                Ok(None) => Ok(None),
                Err(e) => Err(e),
            },
    {
        self.read_light_channel(Register::GDATAL)
    }

    /// Read the color / ambient light sensor blue channel data.
    ///
    /// Returns `Ok(None)` as long as the data is not ready.
    /// Reading the data clears the data ready flag in the device.
    pub fn read_light_blue(&mut self) -> (r: Result<Option<u16>, Error<I2C::Error>>)
        requires
            old(self).wf(),
        ensures
            final(self).wf(),
            final(self)@.extends(old(self)@),
            gated_read(
                final(self)@.since(old(self)@),
                Register::STATUS,
                Status::AVALID,
                Register::BDATAL,
                2,
            ),
            r == match gated_data(final(self)@.since(old(self)@), Status::AVALID) {
                Ok(Some(bytes)) => Ok(Some(word(bytes[0], bytes[1]))),
                Ok(None) => Ok(None),
                Err(e) => Err(e),
            },
    {
        self.read_light_channel(Register::BDATAL)
    }

    /// Read whether the color and ambient light sensor data is valid.
    ///
    /// This is checked internally in the `read_light_*()` methods as well.
    pub fn is_light_data_valid(&mut self) -> (r: Result<bool, Error<I2C::Error>>)
        requires
            old(self).wf(),
        ensures
            final(self).wf(),
            final(self)@.extends(old(self)@),
            register_read(final(self)@.since(old(self)@), Register::STATUS),
            r == match byte_read(final(self)@.since(old(self)@)[0]) {
                Ok(status) => Ok(flag_is(status, Status::AVALID, true)),
                Err(e) => Err(e),
            },
    {
        match self.read_register(Register::STATUS) {
            Ok(status) => Ok(Status::new(status).is(Status::AVALID, true)),
            Err(e) => Err(e),
        }
    }

    /// Reads the two registers of one channel once the light data is valid.
    fn read_light_channel(&mut self, register: u8) -> (r: Result<Option<u16>, Error<I2C::Error>>)
        requires
            old(self).wf(),
        ensures
            final(self).wf(),
            final(self)@.extends(old(self)@),
            gated_read(
                final(self)@.since(old(self)@),
                Register::STATUS,
                Status::AVALID,
                register,
                2,
            ),
            r == match gated_data(final(self)@.since(old(self)@), Status::AVALID) {
                Ok(Some(bytes)) => Ok(Some(word(bytes[0], bytes[1]))),
                Ok(None) => Ok(None),
                Err(e) => Err(e),
            },
    {
        match self.is_light_data_valid() {
            Err(e) => {
                return Err(e);
            },
            Ok(false) => {
                return Ok(None);
            },
            Ok(true) => {},
        }
        let ghost polled = self@;
        let mut data = [0u8;2];
        let r = self.read_data(register, &mut data);
        proof {
            let exchange = self@.since(old(self)@);
            assert(exchange =~= polled.since(old(self)@) + seq![self@.transcript.last()]);
        }
        match r {
            Ok(()) => Ok(Some(join_word(data[0], data[1]))),
            Err(e) => Err(e),
        }
    }
}

} // verus!
