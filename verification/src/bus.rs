//! The two-wire bus as the driver sees it, and the record of what has
//! passed over it.

use vstd::prelude::*;

verus! {

/// The blocking primitives of a two-wire bus, as whoever owns the hardware
/// supplies them. Nothing is assumed of an implementation.
pub trait Transport {
    /// What the transport reports when a transaction fails.
    type Error;

    /// Writes the one byte `register` to `device`, then reads one byte back.
    fn write_read(&mut self, device: u8, register: u8) -> Result<u8, Self::Error>;

    /// Writes the two bytes `register`, `value` to `device`.
    fn write(&mut self, device: u8, register: u8, value: u8) -> Result<(), Self::Error>;
}

/// The two blocking transactions the driver needs from a bus, and the bus's
/// own record of them. An implementation promises only that each call adds
/// the one exchange it was asked for, with the answer it hands back; which
/// answer that is stays open, and every one of them is handled.
pub trait RegisterBus {
    /// What the bus reports when a transaction fails.
    type Error;

    /// Every exchange this bus has carried out, oldest first.
    spec fn exchanges(&self) -> Seq<Exchange<Self::Error>>;

    /// Writes the one byte `register` to `device`, then reads one byte back.
    fn write_read(&mut self, device: u8, register: u8) -> (answer: Result<u8, Self::Error>)
        ensures
            final(self).exchanges() == old(self).exchanges().push(
                Exchange::Read { device, register, answer },
            ),
    ;

    /// Writes the two bytes `register`, `value` to `device`.
    fn write(&mut self, device: u8, register: u8, value: u8) -> (ack: Result<(), Self::Error>)
        ensures
            final(self).exchanges() == old(self).exchanges().push(
                Exchange::Write { device, register, value, ack },
            ),
    ;
}

/// One transaction on the bus, with what the bus answered.
pub enum Exchange<E> {
    /// A combined write-then-read of one register.
    Read { device: u8, register: u8, answer: Result<u8, E> },
    /// A write of one register.
    Write { device: u8, register: u8, value: u8, ack: Result<(), E> },
}

/// How many of the exchanges in `log` are writes.
pub open spec fn count_writes<E>(log: Seq<Exchange<E>>) -> nat
    decreases log.len(),
{
    if log.len() == 0 {
        0
    } else {
        count_writes(log.drop_last()) + if log.last() is Write { 1nat } else { 0nat }
    }
}

/// How many of the exchanges in `log` are reads.
pub open spec fn count_reads<E>(log: Seq<Exchange<E>>) -> nat
    decreases log.len(),
{
    if log.len() == 0 {
        0
    } else {
        count_reads(log.drop_last()) + if log.last() is Read { 1nat } else { 0nat }
    }
}

/// A transport together with the record of every transaction passed to it.
/// Each call is handed to the transport once, as it is, and written down
/// with the answer that came back.
pub struct Recorded<T: Transport> {
    transport: T,
    record: Ghost<Seq<Exchange<T::Error>>>,
}

impl<T: Transport> Recorded<T> {
    /// The transport inside.
    pub closed spec fn transport(&self) -> T {
        self.transport
    }

    /// Starts an empty record on `transport`.
    pub fn new(transport: T) -> (bus: Self)
        ensures
            bus.transport() == transport,
            bus.exchanges() == Seq::<Exchange<T::Error>>::empty(),
    {
        Recorded { transport, record: Ghost(Seq::empty()) }
    }

    /// Gives the transport back.
    pub fn into_inner(self) -> (transport: T)
        ensures
            transport == self.transport(),
    {
        self.transport
    }
}

impl<T: Transport> RegisterBus for Recorded<T> {
    type Error = T::Error;

    closed spec fn exchanges(&self) -> Seq<Exchange<T::Error>> {
        self.record@
    }

    fn write_read(&mut self, device: u8, register: u8) -> (answer: Result<u8, T::Error>) {
        let answer = self.transport.write_read(device, register);
        self.record = Ghost(self.record@.push(Exchange::Read { device, register, answer }));
        answer
    }

    fn write(&mut self, device: u8, register: u8, value: u8) -> (ack: Result<(), T::Error>) {
        let ack = self.transport.write(device, register, value);
        self.record = Ghost(self.record@.push(Exchange::Write { device, register, value, ack }));
        ack
    }
}

} // verus!
