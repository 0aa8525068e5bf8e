//! The register map of the sensor and the typed overlay over its single-byte
//! registers.
//!
//! A register is a byte at a fixed bus address. A flag is a mask naming one
//! or more bits of that byte. Flags are switched with [`BitFlags::with`],
//! which leaves every bit outside the mask as it was, so reserved bits that
//! the device wants set survive any number of switches.

use vstd::prelude::*;

verus! {

/// Seven-bit bus address of the device.
pub const DEV_ADDR: u8 = 0x39;

/// Bus addresses of the device's registers.
pub struct Register;

impl Register {
    pub const ENABLE: u8 = 0x80;
    pub const ATIME: u8 = 0x81;
    pub const WTIME: u8 = 0x83;
    pub const AILTL: u8 = 0x84;
    pub const AIHTL: u8 = 0x86;
    pub const PILT: u8 = 0x89;
    pub const PIHT: u8 = 0x8B;
    pub const CONFIG1: u8 = 0x8D;
    pub const CONFIG2: u8 = 0x90;
    pub const ID: u8 = 0x92;
    pub const STATUS: u8 = 0x93;
    pub const CDATAL: u8 = 0x94;
    pub const RDATAL: u8 = 0x96;
    pub const GDATAL: u8 = 0x98;
    pub const BDATAL: u8 = 0x9A;
    pub const PDATA: u8 = 0x9C;
    pub const POFFSET_UR: u8 = 0x9D;
    pub const POFFSET_DL: u8 = 0x9E;
    pub const GPENTH: u8 = 0xA0;
    pub const GPEXTH: u8 = 0xA1;
    pub const GCONFIG1: u8 = 0xA2;
    pub const GOFFSET_U: u8 = 0xA4;
    pub const GOFFSET_D: u8 = 0xA5;
    pub const GOFFSET_L: u8 = 0xA6;
    pub const GOFFSET_R: u8 = 0xA7;
    pub const GCONFIG4: u8 = 0xAB;
    pub const GFLVL: u8 = 0xAE;
    pub const GSTATUS: u8 = 0xAF;
    pub const IFORCE: u8 = 0xE4;
    pub const PICLEAR: u8 = 0xE5;
    pub const CICLEAR: u8 = 0xE6;
    pub const AICLEAR: u8 = 0xE7;
    pub const GFIFO_U: u8 = 0xFC;
}

/// The byte `current` with the bits of `mask` all set (`on`) or all cleared.
pub open spec fn with_flag(current: u8, mask: u8, on: bool) -> u8 {
    if on {
        current | mask
    } else {
        current & !mask
    }
}

/// Whether "some bit of `mask` is set in `current`" has the truth value `on`.
pub open spec fn flag_is(current: u8, mask: u8, on: bool) -> bool {
    ((current & mask) != 0) == on
}

/// A single-byte register at a fixed bus address, read and changed flag by
/// flag.
pub trait BitFlags: Sized {
    /// Bus address of the register.
    spec fn spec_address() -> u8;

    /// The byte held.
    spec fn bits(&self) -> u8;

    /// Bus address of the register.
    fn address() -> (a: u8)
        ensures
            a == Self::spec_address(),
    ;

    /// The register holding `value`.
    fn new(value: u8) -> (r: Self)
        ensures
            r.bits() == value,
    ;

    /// The byte held.
    fn value(&self) -> (v: u8)
        ensures
            v == self.bits(),
    ;

    /// A copy with the bits of `mask` set or cleared and all others kept.
    fn with(&self, mask: u8, value: bool) -> (r: Self)
        ensures
            r.bits() == with_flag(self.bits(), mask, value),
    {
        if value {
            Self::new(self.value() | mask)
        } else {
            Self::new(self.value() & !mask)
        }
    }

    /// Tests the bits of `mask` against `value`.
    fn is(&self, mask: u8, value: bool) -> (b: bool)
        ensures
            b == flag_is(self.bits(), mask, value),
    {
        ((self.value() & mask) != 0) == value
    }
}

/// ENABLE: power and the enable bits of the engines and their interrupts.
#[derive(Debug)]
pub struct Enable(u8);

impl Enable {
    pub const ALL: u8 = 0b1111_1111;
    pub const PON: u8 = 0b0000_0001;
    pub const AEN: u8 = 0b0000_0010;
    pub const PEN: u8 = 0b0000_0100;
    pub const WEN: u8 = 0b0000_1000;
    pub const AIEN: u8 = 0b0001_0000;
    pub const PIEN: u8 = 0b0010_0000;
    pub const GEN: u8 = 0b0100_0000;
}

impl BitFlags for Enable {
    open spec fn spec_address() -> u8 {
        Register::ENABLE
    }

    fn address() -> (a: u8) {
        Register::ENABLE
    }

    closed spec fn bits(&self) -> u8 {
        self.0
    }

    fn new(value: u8) -> (r: Self) {
        Enable(value)
    }

    fn value(&self) -> (v: u8) {
        self.0
    }
}

impl Default for Enable {
    fn default() -> (r: Self)
        ensures
            r.bits() == 0x00,
    {
        Enable(0x00)
    }
}

/// CONFIG1: long wait. Bit 6 is reserved and reads as set after power-on.
#[derive(Debug)]
pub struct Config1(u8);

impl Config1 {
    pub const WLONG: u8 = 0b0000_0010;
}

impl BitFlags for Config1 {
    open spec fn spec_address() -> u8 {
        Register::CONFIG1
    }

    fn address() -> (a: u8) {
        Register::CONFIG1
    }

    closed spec fn bits(&self) -> u8 {
        self.0
    }

    fn new(value: u8) -> (r: Self) {
        Config1(value)
    }

    fn value(&self) -> (v: u8) {
        self.0
    }
}

impl Default for Config1 {
    fn default() -> (r: Self)
        ensures
            r.bits() == 0x40,
    {
        Config1(0x40)
    }
}

/// CONFIG2: saturation interrupts. Bit 0 is reserved and reads as set after
/// power-on.
#[derive(Debug)]
pub struct Config2(u8);

impl Config2 {
    pub const PSIEN: u8 = 0b1000_0000;
    pub const CPSIEN: u8 = 0b0100_0000;
}

impl BitFlags for Config2 {
    open spec fn spec_address() -> u8 {
        Register::CONFIG2
    }

    fn address() -> (a: u8) {
        Register::CONFIG2
    }

    closed spec fn bits(&self) -> u8 {
        self.0
    }

    fn new(value: u8) -> (r: Self) {
        Config2(value)
    }

    fn value(&self) -> (v: u8) {
        self.0
    }
}

impl Default for Config2 {
    fn default() -> (r: Self)
        ensures
            r.bits() == 0x01,
    {
        Config2(0x01)
    }
}

/// GCONFIG1: the gesture FIFO threshold in bits 7:6.
#[derive(Debug)]
pub struct GConfig1(u8);

impl GConfig1 {
    pub const GFIFOTH1: u8 = 0b1000_0000;
    pub const GFIFOTH0: u8 = 0b0100_0000;
}

impl BitFlags for GConfig1 {
    open spec fn spec_address() -> u8 {
        Register::GCONFIG1
    }

    fn address() -> (a: u8) {
        Register::GCONFIG1
    }

    closed spec fn bits(&self) -> u8 {
        self.0
    }

    fn new(value: u8) -> (r: Self) {
        GConfig1(value)
    }

    fn value(&self) -> (v: u8) {
        self.0
    }
}

impl Default for GConfig1 {
    fn default() -> (r: Self)
        ensures
            r.bits() == 0x00,
    {
        GConfig1(0x00)
    }
}

/// GCONFIG4: gesture mode and gesture interrupts.
#[derive(Debug)]
pub struct GConfig4(u8);

impl GConfig4 {
    pub const GMODE: u8 = 0b0000_0001;
    pub const GIEN: u8 = 0b0000_0010;
}

impl BitFlags for GConfig4 {
    open spec fn spec_address() -> u8 {
        Register::GCONFIG4
    }

    fn address() -> (a: u8) {
        Register::GCONFIG4
    }

    closed spec fn bits(&self) -> u8 {
        self.0
    }

    fn new(value: u8) -> (r: Self) {
        GConfig4(value)
    }

    fn value(&self) -> (v: u8) {
        self.0
    }
}

impl Default for GConfig4 {
    fn default() -> (r: Self)
        ensures
            r.bits() == 0x00,
    {
        GConfig4(0x00)
    }
}

/// STATUS: validity of the light and proximity data. Never cached.
#[derive(Debug)]
pub struct Status(u8);

impl Status {
    pub const AVALID: u8 = 0b0000_0001;
    pub const PVALID: u8 = 0b0000_0010;
}

impl BitFlags for Status {
    open spec fn spec_address() -> u8 {
        Register::STATUS
    }

    fn address() -> (a: u8) {
        Register::STATUS
    }

    closed spec fn bits(&self) -> u8 {
        self.0
    }

    fn new(value: u8) -> (r: Self) {
        Status(value)
    }

    fn value(&self) -> (v: u8) {
        self.0
    }
}

impl Default for Status {
    fn default() -> (r: Self)
        ensures
            r.bits() == 0x00,
    {
        Status(0x00)
    }
}

/// GSTATUS: validity and overflow of the gesture FIFO. Never cached.
#[derive(Debug)]
pub struct GStatus(u8);

impl GStatus {
    pub const GVALID: u8 = 0b0000_0001;
    pub const GFOV: u8 = 0b0000_0010;
}

impl BitFlags for GStatus {
    open spec fn spec_address() -> u8 {
        Register::GSTATUS
    }

    fn address() -> (a: u8) {
        Register::GSTATUS
    }

    closed spec fn bits(&self) -> u8 {
        self.0
    }

    fn new(value: u8) -> (r: Self) {
        GStatus(value)
    }

    fn value(&self) -> (v: u8) {
        self.0
    }
}

impl Default for GStatus {
    fn default() -> (r: Self)
        ensures
            r.bits() == 0x00,
    {
        GStatus(0x00)
    }
}

/// Switching a flag touches no bit outside its mask.
pub proof fn lemma_with_flag_keeps_other_bits(current: u8, mask: u8, on: bool)
    ensures
        with_flag(current, mask, on) & !mask == current & !mask,
{
    assert((current | mask) & !mask == current & !mask) by (bit_vector);
    assert((current & !mask) & !mask == current & !mask) by (bit_vector);
}

/// After a flag is switched it tests as switched, for every mask that names
/// at least one bit.
pub proof fn lemma_with_flag_takes_effect(current: u8, mask: u8, on: bool)
    requires
        mask != 0,
    ensures
        flag_is(with_flag(current, mask, on), mask, on),
{
    assert(mask != 0 ==> (current | mask) & mask != 0) by (bit_vector);
    assert((current & !mask) & mask == 0) by (bit_vector);
}

/// Setting a flag that was clear and then clearing it gives the byte back.
pub proof fn lemma_flag_round_trip(current: u8, mask: u8)
    requires
        current & mask == 0,
    ensures
        with_flag(with_flag(current, mask, true), mask, false) == current,
{
    assert(current & mask == 0 ==> (current | mask) & !mask == current) by (bit_vector);
}

/// Switching a flag twice the same way is the same as switching it once.
pub proof fn lemma_with_flag_idempotent(current: u8, mask: u8, on: bool)
    ensures
        with_flag(with_flag(current, mask, on), mask, on) == with_flag(current, mask, on),
{
    assert((current | mask) | mask == current | mask) by (bit_vector);
    assert((current & !mask) & !mask == current & !mask) by (bit_vector);
}

} // verus!
