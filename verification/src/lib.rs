//! A driver for the APDS9960 digital proximity, ambient light, RGB and
//! gesture sensor on a two-wire bus.
//!
//! The driver turns each operation ("enable proximity", "read the light
//! data", "set the gesture threshold") into bus transactions against the
//! device's register map and turns the bytes read back into typed readings.
//!
//! The handle, [`Apds9960`], owns the bus and a shadow of every
//! configuration register that holds more than one flag, so that a flag can
//! be switched without reading the register back. A shadow changes only
//! after the write that carries its new value has succeeded.
//!
//! Every contract is stated over the handle's [`State`](state::State): the
//! shadows, and the transcript of everything the handle has asked of the
//! bus.
//!
//! Sensor data is gated by a validity bit in a status register. The reading
//! functions poll once: if the bit is clear they return `Ok(None)` without
//! reading the data, so that the caller decides whether to spin, yield or
//! give up.

use vstd::prelude::*;

pub mod bus;
pub mod encoding;
pub mod register;
pub mod state;

mod config;
pub mod gesture;
mod light;
mod proximity;
pub mod reading;

pub use bus::{I2cBus, Recorder, Transaction};
pub use register::{BitFlags, Register, DEV_ADDR};
pub use state::{Shadows, Slot, State};

use register::{Config1, Config2, Enable, GConfig1, GConfig4};

verus! {

/// All possible errors in this crate.
#[derive(Debug)]
pub enum Error<E> {
    /// The bus reported a failure; its own error value is inside.
    I2C(E),
}

/// Gesture FIFO data threshold.
///
/// The device compares the number of datasets in the gesture FIFO to this
/// to set the gesture data valid and raise the gesture interrupt.
#[derive(Debug, Clone, Copy, PartialEq, Eq)]
pub enum GestureDataThreshold {
    /// After 1 dataset is added to the FIFO. (default)
    Th1,
    /// After 4 datasets are added to the FIFO.
    Th4,
    /// After 8 datasets are added to the FIFO.
    Th8,
    /// After 16 datasets are added to the FIFO.
    Th16,
}

/// Color / ambient light data.
#[derive(Debug, Clone, Copy, PartialEq, Eq)]
pub struct LightData {
    /// Clear channel value.
    pub clear: u16,
    /// Red channel value.
    pub red: u16,
    /// Green channel value.
    pub green: u16,
    /// Blue channel value.
    pub blue: u16,
}

/// The error that the bus reported for a transaction, told from what the
/// driver returned for it: the driver wraps the bus's error in
/// [`Error::I2C`] and changes nothing else.
pub open spec fn bus_failure<T, E>(result: Result<T, Error<E>>) -> Option<E> {
    match result {
        Ok(_) => None,
        Err(Error::I2C(e)) => Some(e),
    }
}

/// APDS9960 device driver.
pub struct Apds9960<I2C: I2cBus> {
    /// The bus the device is on, with the transcript of its use.
    i2c: Recorder<I2C>,
    enable: Enable,
    config1: Config1,
    config2: Config2,
    gconfig1: GConfig1,
    gconfig4: GConfig4,
}

impl<I2C: I2cBus> View for Apds9960<I2C> {
    type V = State<I2C::Error>;

    closed spec fn view(&self) -> State<I2C::Error> {
        State {
            shadows: Shadows {
                enable: self.enable.bits(),
                config1: self.config1.bits(),
                config2: self.config2.bits(),
                gconfig1: self.gconfig1.bits(),
                gconfig4: self.gconfig4.bits(),
            },
            transcript: self.i2c.transcript(),
        }
    }
}

impl<I2C: I2cBus> Apds9960<I2C> {
    /// The bus that the handle owns.
    pub closed spec fn bus(&self) -> I2C {
        self.i2c.bus()
    }

    /// The shadows hold what the transcript says the registers hold.
    pub open spec fn wf(&self) -> bool {
        self@.consistent()
    }

    /// Create new instance of the APDS9960 device.
    ///
    /// Nothing is sent: the shadows start at the registers' power-on values.
    pub fn new(i2c: I2C) -> (sensor: Self)
        ensures
            sensor@ == State::<I2C::Error>::initial(),
            sensor.bus() == i2c,
            sensor.wf(),
    {
        Apds9960 {
            i2c: Recorder::new(i2c),
            enable: Enable::default(),
            config1: Config1::default(),
            config2: Config2::default(),
            gconfig1: GConfig1::default(),
            gconfig4: GConfig4::default(),
        }
    }

    /// Destroy driver instance, return the bus instance.
    pub fn destroy(self) -> (i2c: I2C)
        ensures
            i2c == self.bus(),
    {
        self.i2c.release()
    }
}

impl<I2C: I2cBus + Default> Default for Apds9960<I2C> {
    /// The driver on the bus type's default bus master.
    fn default() -> (sensor: Self)
        ensures
            sensor@ == State::<I2C::Error>::initial(),
            sensor.wf(),
    {
        Apds9960::new(I2C::default())
    }
}

} // verus!
