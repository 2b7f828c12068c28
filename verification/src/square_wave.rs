//! Square-wave output on the INT/SQW pin: rate selection and the switch
//! between interrupt mode and square-wave mode.

use vstd::prelude::*;
use crate::bus::{count_reads, count_writes, Exchange, RegisterBus};
use crate::ds3231::{lemma_read_modify_write_counts, read_modify_write, spliced, Ds3231};
use crate::error::Error;
use crate::registers::{Register, INTCN_BIT, RS_MASK};

verus! {

/// The frequencies a real-time clock may be asked for. The INT/SQW pin of
/// this device produces the first four; 32.768 kHz is not among them.
#[derive(Debug, Clone, Copy, PartialEq, Eq, Structural)]
pub enum SquareWaveFreq {
    Hz1,
    Hz1024,
    Hz4096,
    Hz8192,
    Hz32768,
}

/// The rate-select pattern for `freq`, in place within the control byte, or
/// `None` for a frequency the pin cannot produce.
pub open spec fn rate_select_bits(freq: SquareWaveFreq) -> Option<u8> {
    match freq {
        SquareWaveFreq::Hz1 => Some(0b0000_0000u8),
        SquareWaveFreq::Hz1024 => Some(0b0000_1000u8),
        SquareWaveFreq::Hz4096 => Some(0b0001_0000u8),
        SquareWaveFreq::Hz8192 => Some(0b0001_1000u8),
        SquareWaveFreq::Hz32768 => None,
    }
}

/// Looks up the rate-select bits for `freq`.
pub fn freq_to_bits<E>(freq: SquareWaveFreq) -> (r: Result<u8, Error<E>>)
    ensures
        match rate_select_bits(freq) {
            Some(bits) => r == Ok::<u8, Error<E>>(bits),
            None => r == Err::<u8, Error<E>>(Error::UnsupportedSqwFrequency),
        },
{
    match freq {
        SquareWaveFreq::Hz1 => Ok(0b0000_0000),
        SquareWaveFreq::Hz1024 => Ok(0b0000_1000),
        SquareWaveFreq::Hz4096 => Ok(0b0001_0000),
        SquareWaveFreq::Hz8192 => Ok(0b0001_1000),
        SquareWaveFreq::Hz32768 => Err(Error::UnsupportedSqwFrequency),
    }
}

/// The control byte after selecting the rate `bits`: only the rate field
/// changes.
pub open spec fn with_rate(current: u8, bits: u8) -> u8 {
    spliced(current, RS_MASK, bits)
}

/// The control byte after selecting the rate `bits` and switching the pin to
/// square-wave mode.
pub open spec fn started(current: u8, bits: u8) -> u8 {
    spliced(current, RS_MASK | INTCN_BIT, bits)
}

impl<B: RegisterBus> Ds3231<B> {
    /// Switches the pin to square-wave mode by clearing INTCN. The rate is
    /// whatever was configured last.
    pub fn enable_square_wave(&mut self) -> (r: Result<(), Error<B::Error>>)
        ensures
            read_modify_write(
                old(self).sent(),
                final(self).sent(),
                r,
                Register::Control,
                INTCN_BIT,
                0,
            ),
    {
        self.clear_register_bits(Register::Control, INTCN_BIT)
    }

    /// Switches the pin to interrupt mode by setting INTCN. The rate bits
    /// stay as they are.
    pub fn disable_square_wave(&mut self) -> (r: Result<(), Error<B::Error>>)
        ensures
            read_modify_write(
                old(self).sent(),
                final(self).sent(),
                r,
                Register::Control,
                0,
                INTCN_BIT,
            ),
    {
        self.set_register_bits(Register::Control, INTCN_BIT)
    }

    /// Selects the rate for `freq` without touching INTCN. An unsupported
    /// frequency is refused before the bus is used.
    pub fn set_square_wave_frequency(&mut self, freq: SquareWaveFreq) -> (r: Result<
        (),
        Error<B::Error>,
    >)
        ensures
            match rate_select_bits(freq) {
                None => r == Err::<(), Error<B::Error>>(Error::UnsupportedSqwFrequency)
                    && final(self).sent() == old(self).sent(),
                Some(bits) => read_modify_write(
                    old(self).sent(),
                    final(self).sent(),
                    r,
                    Register::Control,
                    RS_MASK,
                    bits,
                ),
            },
    {
        let rs_bits = match freq_to_bits::<B::Error>(freq) {
            Ok(bits) => bits,
            Err(e) => {
                return Err(e);
            },
        };
        self.modify_register(Register::Control, RS_MASK, rs_bits)
    }

    /// Selects the rate for `freq` and switches the pin to square-wave mode
    /// in one read and at most one write. An unsupported frequency is
    /// refused before the bus is used.
    pub fn start_square_wave(&mut self, freq: SquareWaveFreq) -> (r: Result<(), Error<B::Error>>)
        ensures
            match rate_select_bits(freq) {
                None => r == Err::<(), Error<B::Error>>(Error::UnsupportedSqwFrequency)
                    && final(self).sent() == old(self).sent(),
                Some(bits) => read_modify_write(
                    old(self).sent(),
                    final(self).sent(),
                    r,
                    Register::Control,
                    RS_MASK | INTCN_BIT,
                    bits,
                ),
            },
    {
        let rs_bits = match freq_to_bits::<B::Error>(freq) {
            Ok(bits) => bits,
            Err(e) => {
                return Err(e);
            },
        };
        self.modify_register(Register::Control, RS_MASK | INTCN_BIT, rs_bits)
    }
}

/// Exactly the four rates of the pin have a pattern; the patterns lie inside
/// the rate field, away from INTCN, and no two rates share one.
pub proof fn lemma_rate_patterns(a: SquareWaveFreq, b: SquareWaveFreq)
    ensures
        rate_select_bits(a) is Some <==> a != SquareWaveFreq::Hz32768,
        rate_select_bits(a) matches Some(bits) ==> bits & !RS_MASK == 0 && bits & INTCN_BIT == 0,
        rate_select_bits(a) is Some && rate_select_bits(a) == rate_select_bits(b) ==> a == b,
{
    if let Some(bits) = rate_select_bits(a) {
        assert(bits & !0x18u8 == 0 && bits & 0x04u8 == 0) by (bit_vector)
            requires
                bits == 0x00u8 || bits == 0x08u8 || bits == 0x10u8 || bits == 0x18u8,
        ;
    }
}

/// Selecting a supported rate puts exactly its pattern into the rate field
/// and keeps every other bit; the byte changes if and only if the rate field
/// held another pattern.
pub proof fn lemma_with_rate(current: u8, freq: SquareWaveFreq)
    requires
        rate_select_bits(freq) is Some,
    ensures
        with_rate(current, rate_select_bits(freq)->Some_0) & RS_MASK == rate_select_bits(
            freq,
        )->Some_0,
        with_rate(current, rate_select_bits(freq)->Some_0) & !RS_MASK == current & !RS_MASK,
        with_rate(current, rate_select_bits(freq)->Some_0) == current <==> current & RS_MASK
            == rate_select_bits(freq)->Some_0,
{
    let bits = rate_select_bits(freq)->Some_0;
    assert(bits & !0x18u8 == 0) by (bit_vector)
        requires
            bits == 0x00u8 || bits == 0x08u8 || bits == 0x10u8 || bits == 0x18u8,
    ;
    assert(((current & !0x18u8) | bits) & 0x18u8 == bits) by (bit_vector)
        requires
            bits & !0x18u8 == 0,
    ;
    assert(((current & !0x18u8) | bits) & !0x18u8 == current & !0x18u8) by (bit_vector)
        requires
            bits & !0x18u8 == 0,
    ;
    assert(((current & !0x18u8) | bits) == current <==> current & 0x18u8 == bits) by (bit_vector)
        requires
            bits & !0x18u8 == 0,
    ;
}

/// Starting the output is selecting the rate and then clearing INTCN, done
/// in one step: the rate field holds the new pattern, INTCN is clear, and
/// all other bits are as before.
pub proof fn lemma_started(current: u8, freq: SquareWaveFreq)
    requires
        rate_select_bits(freq) is Some,
    ensures
        started(current, rate_select_bits(freq)->Some_0) == spliced(
            with_rate(current, rate_select_bits(freq)->Some_0),
            INTCN_BIT,
            0,
        ),
        started(current, rate_select_bits(freq)->Some_0) & RS_MASK == rate_select_bits(
            freq,
        )->Some_0,
        started(current, rate_select_bits(freq)->Some_0) & INTCN_BIT == 0,
        started(current, rate_select_bits(freq)->Some_0) & !(RS_MASK | INTCN_BIT) == current & !(
        RS_MASK | INTCN_BIT),
{
    let bits = rate_select_bits(freq)->Some_0;
    assert(bits & !0x18u8 == 0) by (bit_vector)
        requires
            bits == 0x00u8 || bits == 0x08u8 || bits == 0x10u8 || bits == 0x18u8,
    ;
    assert((current & !(0x18u8 | 0x04u8)) | bits == ((((current & !0x18u8) | bits) & !0x04u8)
        | 0u8)) by (bit_vector)
        requires
            bits & !0x18u8 == 0,
    ;
    assert(((current & !(0x18u8 | 0x04u8)) | bits) & 0x18u8 == bits) by (bit_vector)
        requires
            bits & !0x18u8 == 0,
    ;
    assert(((current & !(0x18u8 | 0x04u8)) | bits) & 0x04u8 == 0) by (bit_vector)
        requires
            bits & !0x18u8 == 0,
    ;
    assert(((current & !(0x18u8 | 0x04u8)) | bits) & !(0x18u8 | 0x04u8) == current & !(0x18u8
        | 0x04u8)) by (bit_vector)
        requires
            bits & !0x18u8 == 0,
    ;
}

/// Enabling and disabling touch INTCN alone: every other bit, the rate field
/// included, is as before.
pub proof fn lemma_intcn_only(current: u8)
    ensures
        spliced(current, INTCN_BIT, 0) & !INTCN_BIT == current & !INTCN_BIT,
        spliced(current, INTCN_BIT, 0) & INTCN_BIT == 0,
        spliced(current, 0, INTCN_BIT) & !INTCN_BIT == current & !INTCN_BIT,
        spliced(current, 0, INTCN_BIT) & INTCN_BIT == INTCN_BIT,
{
    assert(((current & !0x04u8) | 0u8) & !0x04u8 == current & !0x04u8) by (bit_vector);
    assert(((current & !0x04u8) | 0u8) & 0x04u8 == 0) by (bit_vector);
    assert(((current & !0u8) | 0x04u8) & !0x04u8 == current & !0x04u8) by (bit_vector);
    assert(((current & !0u8) | 0x04u8) & 0x04u8 == 0x04u8) by (bit_vector);
}

/// What selecting a supported rate costs and does. There is exactly one
/// read. If it succeeds, there is a write exactly when the rate field read
/// differs from the pattern asked for; the byte written then holds that
/// pattern and equals the byte read in every bit outside the rate field.
/// With no write, the call succeeds with the one read.
pub proof fn lemma_set_frequency_cost<E>(
    before: Seq<Exchange<E>>,
    after: Seq<Exchange<E>>,
    result: Result<(), Error<E>>,
    freq: SquareWaveFreq,
)
    requires
        rate_select_bits(freq) is Some,
        read_modify_write(
            before,
            after,
            result,
            Register::Control,
            RS_MASK,
            rate_select_bits(freq)->Some_0,
        ),
    ensures
        count_reads(after) == count_reads(before) + 1,
        after[before.len() as int] matches Exchange::Read { answer: Ok(current), .. } ==> {
            let bits = rate_select_bits(freq)->Some_0;
            &&& count_writes(after) == count_writes(before) + (if current & RS_MASK != bits {
                1nat
            } else {
                0nat
            })
            &&& current & RS_MASK == bits ==> after.len() == before.len() + 1 && result == Ok::<
                (),
                Error<E>,
            >(())
            &&& current & RS_MASK != bits ==> (after.last() matches Exchange::Write { value, .. }
                && value & RS_MASK == bits && value & !RS_MASK == current & !RS_MASK)
        },
{
    lemma_read_modify_write_counts(
        before,
        after,
        result,
        Register::Control,
        RS_MASK,
        rate_select_bits(freq)->Some_0,
    );
    match after[before.len() as int] {
        Exchange::Read { answer: Ok(current), .. } => {
            lemma_with_rate(current, freq);
        },
        _ => {},
    }
}

/// What starting the output at a supported rate costs and does. There is
/// exactly one read. If it succeeds and the byte read already has the rate
/// pattern and a clear INTCN, nothing is written; otherwise one byte is
/// written, which holds the pattern, has INTCN clear and equals the byte
/// read in every other bit.
pub proof fn lemma_start_cost<E>(
    before: Seq<Exchange<E>>,
    after: Seq<Exchange<E>>,
    result: Result<(), Error<E>>,
    freq: SquareWaveFreq,
)
    requires
        rate_select_bits(freq) is Some,
        read_modify_write(
            before,
            after,
            result,
            Register::Control,
            RS_MASK | INTCN_BIT,
            rate_select_bits(freq)->Some_0,
        ),
    ensures
        count_reads(after) == count_reads(before) + 1,
        count_writes(after) <= count_writes(before) + 1,
        after[before.len() as int] matches Exchange::Read { answer: Ok(current), .. } ==> {
            let bits = rate_select_bits(freq)->Some_0;
            let unchanged = current & RS_MASK == bits && current & INTCN_BIT == 0;
            &&& unchanged <==> count_writes(after) == count_writes(before)
            &&& unchanged ==> after.len() == before.len() + 1 && result == Ok::<(), Error<E>>(())
            &&& !unchanged ==> (after.last() matches Exchange::Write { value, .. } && value
                & RS_MASK == bits && value & INTCN_BIT == 0 && value & !(RS_MASK | INTCN_BIT)
                == current & !(RS_MASK | INTCN_BIT))
        },
{
    let bits = rate_select_bits(freq)->Some_0;
    lemma_read_modify_write_counts(before, after, result, Register::Control, RS_MASK | INTCN_BIT, bits);
    match after[before.len() as int] {
        Exchange::Read { answer: Ok(current), .. } => {
            lemma_started(current, freq);
            assert(((current & !(0x18u8 | 0x04u8)) | bits) == current <==> (current & 0x18u8 == bits
                && current & 0x04u8 == 0)) by (bit_vector)
                requires
                    bits == 0x00u8 || bits == 0x08u8 || bits == 0x10u8 || bits == 0x18u8,
            ;
        },
        _ => {},
    }
}

} // verus!
