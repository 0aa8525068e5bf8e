//! The abstract state of a driver handle: the shadows of the configuration
//! registers and the transcript of the bus.

use vstd::prelude::*;
use crate::bus::{lemma_register_value_push, register_value, Transaction};
use crate::register::{
    with_flag, BitFlags, Config1, Config2, Enable, GConfig1, GConfig4, DEV_ADDR,
};

verus! {

/// The configuration registers of which the driver keeps a shadow.
pub enum Slot {
    Enable,
    Config1,
    Config2,
    GConfig1,
    GConfig4,
}

impl Slot {
    /// Bus address of the register.
    pub open spec fn address(self) -> u8 {
        match self {
            Slot::Enable => Enable::spec_address(),
            Slot::Config1 => Config1::spec_address(),
            Slot::Config2 => Config2::spec_address(),
            Slot::GConfig1 => GConfig1::spec_address(),
            Slot::GConfig4 => GConfig4::spec_address(),
        }
    }

    /// What the register holds after power-on.
    pub open spec fn reset(self) -> u8 {
        match self {
            Slot::Enable => 0x00,
            Slot::Config1 => 0x40,
            Slot::Config2 => 0x01,
            Slot::GConfig1 => 0x00,
            Slot::GConfig4 => 0x00,
        }
    }
}

/// The shadows: one byte for each [`Slot`].
pub struct Shadows {
    pub enable: u8,
    pub config1: u8,
    pub config2: u8,
    pub gconfig1: u8,
    pub gconfig4: u8,
}

impl Shadows {
    /// Every shadow at its register's power-on value.
    pub open spec fn reset() -> Shadows {
        Shadows {
            enable: Slot::Enable.reset(),
            config1: Slot::Config1.reset(),
            config2: Slot::Config2.reset(),
            gconfig1: Slot::GConfig1.reset(),
            gconfig4: Slot::GConfig4.reset(),
        }
    }

    /// The shadow of `slot`.
    pub open spec fn get(self, slot: Slot) -> u8 {
        match slot {
            Slot::Enable => self.enable,
            Slot::Config1 => self.config1,
            Slot::Config2 => self.config2,
            Slot::GConfig1 => self.gconfig1,
            Slot::GConfig4 => self.gconfig4,
        }
    }

    /// The shadows with that of `slot` replaced by `value`.
    pub open spec fn set(self, slot: Slot, value: u8) -> Shadows {
        match slot {
            Slot::Enable => Shadows { enable: value, ..self },
            Slot::Config1 => Shadows { config1: value, ..self },
            Slot::Config2 => Shadows { config2: value, ..self },
            Slot::GConfig1 => Shadows { gconfig1: value, ..self },
            Slot::GConfig4 => Shadows { gconfig4: value, ..self },
        }
    }
}

/// What a driver handle stands for.
pub struct State<E> {
    /// The driver's copy of each configuration register.
    pub shadows: Shadows,
    /// Every transaction the handle has asked of its bus, oldest first.
    pub transcript: Seq<Transaction<E>>,
}

impl<E> State<E> {
    /// A handle that has not used its bus yet.
    pub open spec fn initial() -> Self {
        State { shadows: Shadows::reset(), transcript: Seq::empty() }
    }

    /// Each shadow holds what the transcript says its register holds: the
    /// byte last written there with success, or the power-on value.
    pub open spec fn consistent(self) -> bool {
        &&& self.agrees(Slot::Enable)
        &&& self.agrees(Slot::Config1)
        &&& self.agrees(Slot::Config2)
        &&& self.agrees(Slot::GConfig1)
        &&& self.agrees(Slot::GConfig4)
    }

    /// The shadow of `slot` holds what the transcript says its register
    /// holds.
    pub open spec fn agrees(self, slot: Slot) -> bool {
        self.shadows.get(slot) == register_value(self.transcript, slot.address(), slot.reset())
    }

    /// One more transaction on the bus, the shadows as they were.
    pub open spec fn followed_by(self, next: Transaction<E>) -> Self {
        State { shadows: self.shadows, transcript: self.transcript.push(next) }
    }

    /// After one write of `frame`, for which the bus reported `failure`
    /// (`None`: success). The shadows are as they were.
    pub open spec fn after_write(self, frame: Seq<u8>, failure: Option<E>) -> Self {
        self.followed_by(Transaction::Write { address: DEV_ADDR, bytes: frame, failure })
    }

    /// After one write of `value` to the register of `slot`, for which the
    /// bus reported `failure`. The shadow takes `value` if the write
    /// succeeded and is as it was if it failed.
    pub open spec fn after_config(self, slot: Slot, value: u8, failure: Option<E>) -> Self {
        let written = self.after_write(seq![slot.address(), value], failure);
        if failure is None {
            State { shadows: self.shadows.set(slot, value), ..written }
        } else {
            written
        }
    }

    /// After one attempt to switch the flag `mask` of `slot`: the whole
    /// byte, with the flag switched, is written to the register.
    pub open spec fn after_flag(self, slot: Slot, mask: u8, on: bool, failure: Option<E>) -> Self {
        self.after_config(slot, with_flag(self.shadows.get(slot), mask, on), failure)
    }

    /// After one read of `requested` bytes starting at `register`, for which
    /// the bus reported `failure` and left `received` in the buffer.
    pub open spec fn after_read(
        self,
        register: u8,
        requested: nat,
        received: Seq<u8>,
        failure: Option<E>,
    ) -> Self {
        self.followed_by(
            Transaction::WriteRead {
                address: DEV_ADDR,
                bytes: seq![register],
                requested,
                received,
                failure,
            },
        )
    }

    /// The transactions that `self` has and `earlier` has not.
    pub open spec fn since(self, earlier: Self) -> Seq<Transaction<E>> {
        self.transcript.skip(earlier.transcript.len() as int)
    }

    /// `self` is `earlier` with more transactions and the same shadows.
    pub open spec fn extends(self, earlier: Self) -> bool {
        &&& self.shadows == earlier.shadows
        &&& earlier.transcript.is_prefix_of(self.transcript)
    }
}

/// A transaction that stores nothing in a shadowed register keeps a
/// consistent state consistent.
pub proof fn lemma_followed_by_consistent<E>(state: State<E>, next: Transaction<E>)
    requires
        state.consistent(),
        next.stores(Slot::Enable.address()) is None,
        next.stores(Slot::Config1.address()) is None,
        next.stores(Slot::Config2.address()) is None,
        next.stores(Slot::GConfig1.address()) is None,
        next.stores(Slot::GConfig4.address()) is None,
    ensures
        state.followed_by(next).consistent(),
{
    lemma_register_value_push(state.transcript, next, Slot::Enable.address(), Slot::Enable.reset());
    lemma_register_value_push(
        state.transcript,
        next,
        Slot::Config1.address(),
        Slot::Config1.reset(),
    );
    lemma_register_value_push(
        state.transcript,
        next,
        Slot::Config2.address(),
        Slot::Config2.reset(),
    );
    lemma_register_value_push(
        state.transcript,
        next,
        Slot::GConfig1.address(),
        Slot::GConfig1.reset(),
    );
    lemma_register_value_push(
        state.transcript,
        next,
        Slot::GConfig4.address(),
        Slot::GConfig4.reset(),
    );
}

/// Writing a shadowed register and committing the byte only on success
/// keeps a consistent state consistent, whichever way the write ends.
pub proof fn lemma_after_config_consistent<E>(
    state: State<E>,
    slot: Slot,
    value: u8,
    failure: Option<E>,
)
    requires
        state.consistent(),
    ensures
        state.after_config(slot, value, failure).consistent(),
{
    let next = Transaction::Write {
        address: DEV_ADDR,
        bytes: seq![slot.address(), value],
        failure,
    };
    lemma_register_value_push(state.transcript, next, Slot::Enable.address(), Slot::Enable.reset());
    lemma_register_value_push(
        state.transcript,
        next,
        Slot::Config1.address(),
        Slot::Config1.reset(),
    );
    lemma_register_value_push(
        state.transcript,
        next,
        Slot::Config2.address(),
        Slot::Config2.reset(),
    );
    lemma_register_value_push(
        state.transcript,
        next,
        Slot::GConfig1.address(),
        Slot::GConfig1.reset(),
    );
    lemma_register_value_push(
        state.transcript,
        next,
        Slot::GConfig4.address(),
        Slot::GConfig4.reset(),
    );
}

/// A flag that was clear, set and then cleared again with both writes
/// succeeding, leaves every shadow as it was; each of the two steps puts
/// exactly one write, of the register's whole byte, on the bus.
pub proof fn lemma_flag_round_trip_restores_shadows<E>(state: State<E>, slot: Slot, mask: u8)
    requires
        state.shadows.get(slot) & mask == 0,
    ensures
        ({
            let set = state.after_flag(slot, mask, true, None);
            let cleared = set.after_flag(slot, mask, false, None);
            &&& cleared.shadows == state.shadows
            &&& set.since(state) == seq![
                Transaction::<E>::Write {
                    address: DEV_ADDR,
                    bytes: seq![slot.address(), state.shadows.get(slot) | mask],
                    failure: None,
                },
            ]
            &&& cleared.since(set) == seq![
                Transaction::<E>::Write {
                    address: DEV_ADDR,
                    bytes: seq![slot.address(), state.shadows.get(slot)],
                    failure: None,
                },
            ]
        }),
{
    crate::register::lemma_flag_round_trip(state.shadows.get(slot), mask);
    let set = state.after_flag(slot, mask, true, None);
    let cleared = set.after_flag(slot, mask, false, None);
    assert(set.since(state) =~= seq![
        Transaction::<E>::Write {
            address: DEV_ADDR,
            bytes: seq![slot.address(), state.shadows.get(slot) | mask],
            failure: None,
        },
    ]);
    assert(cleared.since(set) =~= seq![
        Transaction::<E>::Write {
            address: DEV_ADDR,
            bytes: seq![slot.address(), state.shadows.get(slot)],
            failure: None,
        },
    ]);
}

/// A failed write leaves every shadow as it was.
pub proof fn lemma_failed_config_keeps_shadows<E>(
    state: State<E>,
    slot: Slot,
    value: u8,
    error: E,
)
    ensures
        state.after_config(slot, value, Some(error)).shadows == state.shadows,
{
}

} // verus!
