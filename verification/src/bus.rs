//! The bus the sensor hangs on, and the record of what was asked of it.

use vstd::prelude::*;

verus! {

/// A two-wire bus master.
///
/// The driver assumes nothing of a bus: whatever a call returns, and
/// whatever it leaves in `buffer`, is taken as the device's answer.
pub trait I2cBus {
    /// What the bus reports when a transaction fails.
    type Error;

    /// Sends `bytes` to the device at `address`.
    fn write(&mut self, address: u8, bytes: &[u8]) -> Result<(), Self::Error>;

    /// Sends `bytes` to the device at `address`, then, in the same
    /// transaction, reads from it until `buffer` is full.
    fn write_read(&mut self, address: u8, bytes: &[u8], buffer: &mut [u8]) -> Result<
        (),
        Self::Error,
    >;
}

/// The error in a bus master's answer, if the answer is one.
pub open spec fn failure_of<E>(answer: Result<(), E>) -> Option<E> {
    match answer {
        Ok(_) => None,
        Err(e) => Some(e),
    }
}

/// One transaction asked of the bus, with how it ended: `failure` is the
/// error that the bus reported, `None` if it reported success.
pub enum Transaction<E> {
    /// `bytes` were sent to the device at `address`.
    Write { address: u8, bytes: Seq<u8>, failure: Option<E> },
    /// `bytes` were sent to the device at `address` and `requested` bytes
    /// were asked back; the bus left `received` in the buffer.
    WriteRead {
        address: u8,
        bytes: Seq<u8>,
        requested: nat,
        received: Seq<u8>,
        failure: Option<E>,
    },
}

impl<E> Transaction<E> {
    /// The error that the bus reported, if it reported one.
    pub open spec fn failure(self) -> Option<E> {
        match self {
            Transaction::Write { failure, .. } => failure,
            Transaction::WriteRead { failure, .. } => failure,
        }
    }

    /// The bytes read, where the transaction read any.
    pub open spec fn received(self) -> Seq<u8> {
        match self {
            Transaction::Write { .. } => Seq::empty(),
            Transaction::WriteRead { received, .. } => received,
        }
    }

    /// A read that starts at `register`, of whatever length and from
    /// whatever device.
    pub open spec fn reads_from(self, register: u8) -> bool {
        self matches Transaction::WriteRead { bytes, .. } && bytes == seq![register]
    }

    /// A read of `length` bytes starting at `register`.
    pub open spec fn is_read_of(self, device: u8, register: u8, length: nat) -> bool {
        self matches Transaction::WriteRead { address, bytes, requested, .. } && address == device
            && bytes == seq![register] && requested == length
    }

    /// The byte that this transaction stores in `register`, if it stores
    /// one there: only a write that succeeded stores anything.
    pub open spec fn stores(self, register: u8) -> Option<u8> {
        match self {
            Transaction::Write { bytes, failure, .. } => {
                if failure is None {
                    frame_stores(bytes, register)
                } else {
                    None
                }
            },
            Transaction::WriteRead { .. } => None,
        }
    }
}

/// The byte that a write of `frame` stores in `register`, if it stores one
/// there. A frame `[a, b0, b1, ..]` stores `b0` in register `a`, `b1` in
/// register `a + 1`, and so on. A frame of the address alone stores
/// nothing.
pub open spec fn frame_stores(frame: Seq<u8>, register: u8) -> Option<u8> {
    if frame.len() >= 2 && frame[0] <= register && register - frame[0] + 1 < frame.len() {
        Some(frame[register - frame[0] + 1])
    } else {
        None
    }
}

/// A bus master together with the transcript of its use.
///
/// The two are private to this type, and its two methods are the only code
/// that reaches the bus master or adds to the transcript: each makes one
/// call and records that call, with the arguments it was made with and the
/// answer that came back.
pub struct Recorder<B: I2cBus> {
    bus: B,
    transcript: Ghost<Seq<Transaction<B::Error>>>,
}

impl<B: I2cBus> Recorder<B> {
    /// The bus master.
    pub closed spec fn bus(&self) -> B {
        self.bus
    }

    /// Every transaction asked of the bus master, oldest first.
    pub closed spec fn transcript(&self) -> Seq<Transaction<B::Error>> {
        self.transcript@
    }

    /// A recorder on `bus` with nothing asked of it yet.
    pub fn new(bus: B) -> (recorder: Self)
        ensures
            recorder.bus() == bus,
            recorder.transcript() == Seq::<Transaction<B::Error>>::empty(),
    {
        Recorder { bus, transcript: Ghost(Seq::empty()) }
    }

    /// Gives the bus master back.
    pub fn release(self) -> (bus: B)
        ensures
            bus == self.bus(),
    {
        self.bus
    }

    /// Sends `bytes` to the device at `address`.
    pub fn write(&mut self, address: u8, bytes: &[u8]) -> (answer: Result<(), B::Error>)
        ensures
            final(self).transcript() == old(self).transcript().push(
                Transaction::Write { address, bytes: bytes@, failure: failure_of(answer) },
            ),
    {
        let answer = self.bus.write(address, bytes);
        self.transcript = Ghost(
            self.transcript@.push(
                Transaction::Write { address, bytes: bytes@, failure: failure_of(answer) },
            ),
        );
        answer
    }

    /// Sends `bytes` to the device at `address` and reads from it until
    /// `buffer` is full.
    pub fn write_read(&mut self, address: u8, bytes: &[u8], buffer: &mut [u8]) -> (answer: Result<
        (),
        B::Error,
    >)
        ensures
            final(self).transcript() == old(self).transcript().push(
                Transaction::WriteRead {
                    address,
                    bytes: bytes@,
                    requested: old(buffer)@.len(),
                    received: final(buffer)@,
                    failure: failure_of(answer),
                },
            ),
    {
        let ghost requested = buffer@.len();
        let answer = self.bus.write_read(address, bytes, buffer);
        self.transcript = Ghost(
            self.transcript@.push(
                Transaction::WriteRead {
                    address,
                    bytes: bytes@,
                    requested,
                    received: buffer@,
                    failure: failure_of(answer),
                },
            ),
        );
        answer
    }
}

/// What `register` holds after `transcript`, as far as the writes in it
/// tell: the byte last stored there, or `reset` if none was.
pub open spec fn register_value<E>(transcript: Seq<Transaction<E>>, register: u8, reset: u8) -> u8
    decreases transcript.len(),
{
    if transcript.len() == 0 {
        reset
    } else {
        match transcript.last().stores(register) {
            Some(value) => value,
            None => register_value(transcript.drop_last(), register, reset),
        }
    }
}

/// How many transactions of `transcript` read from `register` on.
pub open spec fn reads_of<E>(transcript: Seq<Transaction<E>>, register: u8) -> nat
    decreases transcript.len(),
{
    if transcript.len() == 0 {
        0
    } else if transcript.last().reads_from(register) {
        reads_of(transcript.drop_last(), register) + 1
    } else {
        reads_of(transcript.drop_last(), register)
    }
}

/// One more transaction is one more read of a register exactly if it reads
/// from that register on.
pub proof fn lemma_reads_of_push<E>(
    transcript: Seq<Transaction<E>>,
    next: Transaction<E>,
    register: u8,
)
    ensures
        reads_of(transcript.push(next), register) == reads_of(transcript, register) + (if next.reads_from(
            register,
        ) {
            1nat
        } else {
            0nat
        }),
{
    assert(transcript.push(next).drop_last() =~= transcript);
}

/// Reads are counted transcript by transcript.
pub proof fn lemma_reads_of_concat<E>(
    first: Seq<Transaction<E>>,
    second: Seq<Transaction<E>>,
    register: u8,
)
    ensures
        reads_of(first + second, register) == reads_of(first, register) + reads_of(
            second,
            register,
        ),
    decreases second.len(),
{
    if second.len() == 0 {
        assert(first + second =~= first);
    } else {
        assert((first + second).drop_last() =~= first + second.drop_last());
        lemma_reads_of_concat(first, second.drop_last(), register);
    }
}

/// One more transaction decides a register's value if it stores a byte
/// there, and otherwise leaves it as it was.
pub proof fn lemma_register_value_push<E>(
    transcript: Seq<Transaction<E>>,
    next: Transaction<E>,
    register: u8,
    reset: u8,
)
    ensures
        register_value(transcript.push(next), register, reset) == match next.stores(register) {
            Some(value) => value,
            None => register_value(transcript, register, reset),
        },
{
    assert(transcript.push(next).drop_last() =~= transcript);
}

} // verus!
