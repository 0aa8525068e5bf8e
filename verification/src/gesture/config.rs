//! Gesture engine configuration.

use vstd::prelude::*;
use crate::bus::I2cBus;
use crate::encoding::{encode_offset, offset_byte};
use crate::register::{BitFlags, Enable, GConfig1, GConfig4, Register};
use crate::state::{lemma_after_config_consistent, Slot};
use crate::{bus_failure, Apds9960, Error, GestureDataThreshold};

verus! {

/// GCONFIG1 with its bits 7:6 replaced by the pattern of `threshold`.
pub open spec fn with_threshold(current: u8, threshold: GestureDataThreshold) -> u8 {
    (current & 0b0011_1111) | threshold.pattern()
}

impl GConfig1 {
    /// A copy with the gesture FIFO threshold set to `threshold` and every
    /// other bit kept.
    pub fn with_threshold(&self, threshold: GestureDataThreshold) -> (r: GConfig1)
        ensures
            r.bits() == with_threshold(self.bits(), threshold),
    {
        let flags = match threshold {
            GestureDataThreshold::Th1 => (false, false),
            GestureDataThreshold::Th4 => (false, true),
            GestureDataThreshold::Th8 => (true, false),
            GestureDataThreshold::Th16 => (true, true),
        };
        let new = self.with(GConfig1::GFIFOTH1, flags.0).with(GConfig1::GFIFOTH0, flags.1);
        proof {
            let current = self.bits();
            assert(((current | 0x80u8) | 0x40u8) == ((current & 0x3Fu8) | 0xC0u8)) by (bit_vector);
            assert(((current | 0x80u8) & !0x40u8) == ((current & 0x3Fu8) | 0x80u8))
                by (bit_vector);
            assert(((current & !0x80u8) | 0x40u8) == ((current & 0x3Fu8) | 0x40u8))
                by (bit_vector);
            assert(((current & !0x80u8) & !0x40u8) == ((current & 0x3Fu8) | 0x00u8))
                by (bit_vector);
        }
        new
    }
}

impl<I2C: I2cBus> Apds9960<I2C> {
    /// Enable gesture detection
    pub fn enable_gesture(&mut self) -> (r: Result<(), Error<I2C::Error>>)
        requires
            old(self).wf(),
        ensures
            final(self).wf(),
            final(self)@ == old(self)@.after_flag(Slot::Enable, Enable::GEN, true, bus_failure(r)),
    {
        self.set_flag_enable(Enable::GEN, true)
    }

    /// Disable gesture detection
    pub fn disable_gesture(&mut self) -> (r: Result<(), Error<I2C::Error>>)
        requires
            old(self).wf(),
        ensures
            final(self).wf(),
            final(self)@ == old(self)@.after_flag(
                Slot::Enable,
                Enable::GEN,
                false,
                bus_failure(r),
            ),
    {
        self.set_flag_enable(Enable::GEN, false)
    }

    /// Enable gesture mode.
    ///
    /// This can be automatically enabled (depending on proximity thresholds)
    /// and disabled (see GMODE on datasheet).
    pub fn enable_gesture_mode(&mut self) -> (r: Result<(), Error<I2C::Error>>)
        requires
            old(self).wf(),
        ensures
            final(self).wf(),
            final(self)@ == old(self)@.after_flag(
                Slot::GConfig4,
                GConfig4::GMODE,
                true,
                bus_failure(r),
            ),
    {
        self.set_flag_gconfig4(GConfig4::GMODE, true)
    }

    /// Disable gesture mode.
    ///
    /// This can be automatically enabled (depending on proximity thresholds)
    /// and disabled (see GMODE on datasheet).
    pub fn disable_gesture_mode(&mut self) -> (r: Result<(), Error<I2C::Error>>)
        requires
            old(self).wf(),
        ensures
            final(self).wf(),
            final(self)@ == old(self)@.after_flag(
                Slot::GConfig4,
                GConfig4::GMODE,
                false,
                bus_failure(r),
            ),
    {
        self.set_flag_gconfig4(GConfig4::GMODE, false)
    }

    /// Enable gesture interrupt generation
    pub fn enable_gesture_interrupts(&mut self) -> (r: Result<(), Error<I2C::Error>>)
        requires
            old(self).wf(),
        ensures
            final(self).wf(),
            final(self)@ == old(self)@.after_flag(
                Slot::GConfig4,
                GConfig4::GIEN,
                true,
                bus_failure(r),
            ),
    {
        self.set_flag_gconfig4(GConfig4::GIEN, true)
    }

    /// Disable gesture interrupt generation
    pub fn disable_gesture_interrupts(&mut self) -> (r: Result<(), Error<I2C::Error>>)
        requires
            old(self).wf(),
        ensures
            final(self).wf(),
            final(self)@ == old(self)@.after_flag(
                Slot::GConfig4,
                GConfig4::GIEN,
                false,
                bus_failure(r),
            ),
    {
        self.set_flag_gconfig4(GConfig4::GIEN, false)
    }

    /// Set the threshold of amount of available data in the gesture FIFO
    /// registers.
    pub fn set_gesture_data_level_threshold(&mut self, threshold: GestureDataThreshold) -> (r:
        Result<(), Error<I2C::Error>>)
        requires
            old(self).wf(),
        ensures
            final(self).wf(),
            final(self)@ == old(self)@.after_config(
                Slot::GConfig1,
                with_threshold(old(self)@.shadows.gconfig1, threshold),
                bus_failure(r),
            ),
    {
        let new = self.gconfig1.with_threshold(threshold);
        let r = self.config_register(&new);
        if r.is_ok() {
            self.gconfig1 = new;
        }
        proof {
            lemma_after_config_consistent(
                old(self)@,
                Slot::GConfig1,
                with_threshold(old(self)@.shadows.gconfig1, threshold),
                bus_failure(r),
            );
        }
        r
    }

    /// Set the gesture proximity entry threshold.
    pub fn set_gesture_proximity_entry_threshold(&mut self, threshold: u8) -> (r: Result<
        (),
        Error<I2C::Error>,
    >)
        requires
            old(self).wf(),
        ensures
            final(self).wf(),
            final(self)@ == old(self)@.after_write(
                seq![Register::GPENTH, threshold],
                bus_failure(r),
            ),
    {
        self.write_register(Register::GPENTH, threshold)
    }

    /// Set the gesture proximity exit threshold.
    pub fn set_gesture_proximity_exit_threshold(&mut self, threshold: u8) -> (r: Result<
        (),
        Error<I2C::Error>,
    >)
        requires
            old(self).wf(),
        ensures
            final(self).wf(),
            final(self)@ == old(self)@.after_write(
                seq![Register::GPEXTH, threshold],
                bus_failure(r),
            ),
    {
        self.write_register(Register::GPEXTH, threshold)
    }

    /// Set the gesture up offset.
    pub fn set_gesture_up_offset(&mut self, offset: i8) -> (r: Result<(), Error<I2C::Error>>)
        requires
            old(self).wf(),
        ensures
            final(self).wf(),
            final(self)@ == old(self)@.after_write(
                seq![Register::GOFFSET_U, offset_byte(offset)],
                bus_failure(r),
            ),
    {
        self.write_register(Register::GOFFSET_U, encode_offset(offset))
    }

    /// Set the gesture down offset.
    pub fn set_gesture_down_offset(&mut self, offset: i8) -> (r: Result<(), Error<I2C::Error>>)
        requires
            old(self).wf(),
        ensures
            final(self).wf(),
            final(self)@ == old(self)@.after_write(
                seq![Register::GOFFSET_D, offset_byte(offset)],
                bus_failure(r),
            ),
    {
        self.write_register(Register::GOFFSET_D, encode_offset(offset))
    }

    /// Set the gesture left offset.
    pub fn set_gesture_left_offset(&mut self, offset: i8) -> (r: Result<(), Error<I2C::Error>>)
        requires
            old(self).wf(),
        ensures
            final(self).wf(),
            final(self)@ == old(self)@.after_write(
                seq![Register::GOFFSET_L, offset_byte(offset)],
                bus_failure(r),
            ),
    {
        self.write_register(Register::GOFFSET_L, encode_offset(offset))
    }

    /// Set the gesture right offset.
    pub fn set_gesture_right_offset(&mut self, offset: i8) -> (r: Result<(), Error<I2C::Error>>)
        requires
            old(self).wf(),
        ensures
            final(self).wf(),
            final(self)@ == old(self)@.after_write(
                seq![Register::GOFFSET_R, offset_byte(offset)],
                bus_failure(r),
            ),
    {
        self.write_register(Register::GOFFSET_R, encode_offset(offset))
    }

    /// Set the gesture up, down, left and right offsets.
    pub fn set_gesture_offsets(
        &mut self,
        offset_up: i8,
        offset_down: i8,
        offset_left: i8,
        offset_right: i8,
    ) -> (r: Result<(), Error<I2C::Error>>)
        requires
            old(self).wf(),
        ensures
            final(self).wf(),
            final(self)@ == old(self)@.after_write(
                seq![
                    Register::GOFFSET_U,
                    offset_byte(offset_up),
                    offset_byte(offset_down),
                    offset_byte(offset_left),
                    offset_byte(offset_right),
                ],
                bus_failure(r),
            ),
    {
        let frame = [
            Register::GOFFSET_U,
            encode_offset(offset_up),
            encode_offset(offset_down),
            encode_offset(offset_left),
            encode_offset(offset_right),
        ];
        assert(frame@ =~= seq![
            Register::GOFFSET_U,
            offset_byte(offset_up),
            offset_byte(offset_down),
            offset_byte(offset_left),
            offset_byte(offset_right),
        ]);
        self.write_frame(&frame)
    }
}

} // verus!
