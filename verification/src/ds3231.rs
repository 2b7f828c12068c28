//! The driver and its register access: single reads and writes, and the
//! read-modify-write primitive every bit-field mutator goes through.

use vstd::prelude::*;
use crate::bus::{count_reads, count_writes, Exchange, RegisterBus};
use crate::error::Error;
use crate::registers::{Register, DS3231_ADDR};

verus! {

/// The driver. It owns the bus handle for as long as it lives.
pub struct Ds3231<B: RegisterBus> {
    bus: B,
}

/// `current` with the bits of `clear` cleared and then the bits of `set` set.
pub open spec fn spliced(current: u8, clear: u8, set: u8) -> u8 {
    (current & !clear) | set
}

/// The value a read-modify-write has to write back after reading `current`,
/// or `None` when the register already holds the spliced value.
pub fn pending_write(current: u8, clear: u8, set: u8) -> (w: Option<u8>)
    ensures
        w == if spliced(current, clear, set) == current {
            None
        } else {
            Some(spliced(current, clear, set))
        },
{
    let new_value = (current & !clear) | set;
    if new_value != current {
        Some(new_value)
    } else {
        None
    }
}

/// The result a caller sees for the answer the bus gave to a read.
pub open spec fn read_result<E>(answer: Result<u8, E>) -> Result<u8, Error<E>> {
    match answer {
        Ok(v) => Ok(v),
        Err(e) => Err(Error::I2c(e)),
    }
}

/// The result a caller sees for the answer the bus gave to a write.
pub open spec fn write_result<E>(ack: Result<(), E>) -> Result<(), Error<E>> {
    match ack {
        Ok(_) => Ok(()),
        Err(e) => Err(Error::I2c(e)),
    }
}

/// `after` extends `before` by exactly one read-modify-write of `register`
/// that ended in `result`: one read; no write if the read failed or if
/// splicing changes nothing; otherwise one write of the spliced value.
pub open spec fn read_modify_write<E>(
    before: Seq<Exchange<E>>,
    after: Seq<Exchange<E>>,
    result: Result<(), Error<E>>,
    register: Register,
    clear: u8,
    set: u8,
) -> bool {
    let n = before.len() as int;
    &&& after.len() > n
    &&& after.subrange(0, n) == before
    &&& match after[n] {
        Exchange::Write { .. } => false,
        Exchange::Read { device, register: r, answer } => {
            &&& device == DS3231_ADDR
            &&& r == register.spec_addr()
            &&& match answer {
                Err(e) => after.len() == n + 1 && result == Err::<(), Error<E>>(Error::I2c(e)),
                Ok(current) => if spliced(current, clear, set) == current {
                    after.len() == n + 1 && result == Ok::<(), Error<E>>(())
                } else {
                    &&& after.len() == n + 2
                    &&& match after[n + 1] {
                        Exchange::Read { .. } => false,
                        Exchange::Write { device: d, register: w, value, ack } => {
                            &&& d == DS3231_ADDR
                            &&& w == register.spec_addr()
                            &&& value == spliced(current, clear, set)
                            &&& result == write_result(ack)
                        },
                    }
                },
            }
        },
    }
}

impl<B: RegisterBus> Ds3231<B> {
    /// The bus handle this driver holds.
    pub closed spec fn bus(&self) -> B {
        self.bus
    }

    /// Every exchange the bus held by this driver has carried out, oldest
    /// first: those from before the driver took it, then the driver's own.
    pub open spec fn sent(&self) -> Seq<Exchange<B::Error>> {
        self.bus().exchanges()
    }

    /// A driver that owns `bus` and has not used it yet.
    pub fn new(bus: B) -> (d: Self)
        ensures
            d.bus() == bus,
            d.sent() == bus.exchanges(),
    {
        Ds3231 { bus }
    }

    /// Gives the bus handle back, in the state the last transaction left it.
    pub fn release(self) -> (bus: B)
        ensures
            bus == self.bus(),
            bus.exchanges() == self.sent(),
    {
        self.bus
    }

    /// Reads one register in a single write-then-read transaction. A bus
    /// failure comes back wrapped and otherwise untouched.
    pub fn read_register(&mut self, register: Register) -> (r: Result<u8, Error<B::Error>>)
        ensures
            final(self).sent().len() == old(self).sent().len() + 1,
            final(self).sent().drop_last() == old(self).sent(),
            final(self).sent().last() matches Exchange::Read { device, register: reg, answer }
                && device == DS3231_ADDR && reg == register.spec_addr() && r == read_result(answer),
            final(self).sent() == old(self).sent().push(final(self).sent().last()),
    {
        let reg = register.addr();
        let ghost before = self.sent();
        let answer = self.bus.write_read(DS3231_ADDR, reg);
        assert(self.sent().drop_last() =~= before);
        assert(self.sent() =~= before.push(self.sent().last()));
        match answer {
            Ok(v) => Ok(v),
            Err(e) => Err(Error::I2c(e)),
        }
    }

    /// Writes one register in a single transaction. A bus failure comes back
    /// wrapped and otherwise untouched.
    pub fn write_register(&mut self, register: Register, value: u8) -> (r: Result<(), Error<B::Error>>)
        ensures
            final(self).sent().len() == old(self).sent().len() + 1,
            final(self).sent().drop_last() == old(self).sent(),
            final(self).sent().last() matches Exchange::Write { device, register: reg, value: v, ack }
                && device == DS3231_ADDR && reg == register.spec_addr() && v == value && r
                == write_result(ack),
            final(self).sent() == old(self).sent().push(final(self).sent().last()),
    {
        let reg = register.addr();
        let ghost before = self.sent();
        let ack = self.bus.write(DS3231_ADDR, reg, value);
        assert(self.sent().drop_last() =~= before);
        assert(self.sent() =~= before.push(self.sent().last()));
        match ack {
            Ok(()) => Ok(()),
            Err(e) => Err(Error::I2c(e)),
        }
    }

    /// Reads `register`, clears the bits of `clear`, sets the bits of `set`,
    /// and writes the result back only if it differs from what was read.
    pub fn modify_register(&mut self, register: Register, clear: u8, set: u8) -> (r: Result<
        (),
        Error<B::Error>,
    >)
        ensures
            read_modify_write(old(self).sent(), final(self).sent(), r, register, clear, set),
    {
        let ghost before = self.sent();
        let current = match self.read_register(register) {
            Ok(v) => v,
            Err(e) => {
                assert(self.sent().subrange(0, before.len() as int) =~= before);
                return Err(e);
            },
        };
        let ghost mid = self.sent();
        match pending_write(current, clear, set) {
            Some(new_value) => {
                let r = self.write_register(register, new_value);
                assert(self.sent().drop_last() == mid);
                assert(self.sent().subrange(0, before.len() as int) =~= before);
                assert(self.sent()[before.len() as int] == mid.last());
                r
            },
            None => {
                assert(self.sent().subrange(0, before.len() as int) =~= before);
                Ok(())
            },
        }
    }

    /// Sets the bits of `mask` in `register`, leaving every other bit as it
    /// was read. Nothing is written when they are all set already.
    pub fn set_register_bits(&mut self, register: Register, mask: u8) -> (r: Result<
        (),
        Error<B::Error>,
    >)
        ensures
            read_modify_write(old(self).sent(), final(self).sent(), r, register, 0, mask),
    {
        self.modify_register(register, 0, mask)
    }

    /// Clears the bits of `mask` in `register`, leaving every other bit as
    /// it was read. Nothing is written when they are all clear already.
    pub fn clear_register_bits(&mut self, register: Register, mask: u8) -> (r: Result<
        (),
        Error<B::Error>,
    >)
        ensures
            read_modify_write(old(self).sent(), final(self).sent(), r, register, mask, 0),
    {
        self.modify_register(register, mask, 0)
    }
}

/// Setting bits keeps every bit that was set and adds those of the mask;
/// nothing changes exactly when the mask was set already.
pub proof fn lemma_spliced_set(current: u8, mask: u8)
    ensures
        spliced(current, 0, mask) == current | mask,
        spliced(current, 0, mask) & !mask == current & !mask,
        spliced(current, 0, mask) == current <==> current & mask == mask,
{
    assert((current & !0u8) | mask == current | mask) by (bit_vector);
    assert(((current & !0u8) | mask) & !mask == current & !mask) by (bit_vector);
    assert((current & !0u8) | mask == current <==> current & mask == mask) by (bit_vector);
}

/// Clearing bits keeps every bit outside the mask and clears those inside;
/// nothing changes exactly when the mask was clear already.
pub proof fn lemma_spliced_clear(current: u8, mask: u8)
    ensures
        spliced(current, mask, 0) == current & !mask,
        spliced(current, mask, 0) & !mask == current & !mask,
        spliced(current, mask, 0) == current <==> current & mask == 0,
{
    assert((current & !mask) | 0u8 == current & !mask) by (bit_vector);
    assert(((current & !mask) | 0u8) & !mask == current & !mask) by (bit_vector);
    assert((current & !mask) | 0u8 == current <==> current & mask == 0) by (bit_vector);
}

/// Splicing changes no bit outside the two masks, clears what `clear` alone
/// names and sets what `set` names.
pub proof fn lemma_spliced_field(current: u8, clear: u8, set: u8)
    ensures
        spliced(current, clear, set) & !(clear | set) == current & !(clear | set),
        spliced(current, clear, set) & set == set,
        spliced(current, clear, set) & (clear & !set) == 0,
{
    assert(((current & !clear) | set) & !(clear | set) == current & !(clear | set))
        by (bit_vector);
    assert(((current & !clear) | set) & set == set) by (bit_vector);
    assert(((current & !clear) | set) & (clear & !set) == 0) by (bit_vector);
}

/// What a read-modify-write costs on the bus: always exactly one read, and
/// at most one write. No write follows a failed read, whose failure is the
/// result; nor a read of a value that splicing leaves unchanged.
pub proof fn lemma_read_modify_write_counts<E>(
    before: Seq<Exchange<E>>,
    after: Seq<Exchange<E>>,
    result: Result<(), Error<E>>,
    register: Register,
    clear: u8,
    set: u8,
)
    requires
        read_modify_write(before, after, result, register, clear, set),
    ensures
        count_reads(after) == count_reads(before) + 1,
        count_writes(before) <= count_writes(after) <= count_writes(before) + 1,
        after[before.len() as int] matches Exchange::Read { answer, .. } && match answer {
            Err(e) => count_writes(after) == count_writes(before) && result == Err::<
                (),
                Error<E>,
            >(Error::I2c(e)),
            Ok(current) => (count_writes(after) == count_writes(before) <==> spliced(
                current,
                clear,
                set,
            ) == current),
        },
        count_writes(after) == count_writes(before) + 1 ==> (after.last() matches Exchange::Write {
            ack,
            ..
        } && match ack {
            Ok(_) => result == Ok::<(), Error<E>>(()),
            Err(e) => result == Err::<(), Error<E>>(Error::I2c(e)),
        }),
{
    let n = before.len() as int;
    let first = after.subrange(0, n + 1);
    assert(first.drop_last() =~= before);
    assert(first.last() == after[n]);
    reveal_with_fuel(count_reads, 2);
    reveal_with_fuel(count_writes, 2);
    if after.len() == n + 1 {
        assert(after =~= first);
    } else {
        assert(after.drop_last() =~= first);
    }
}

} // verus!
