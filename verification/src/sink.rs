//! An in-memory model of the process's output stream.
//!
//! A [`Sink`] records what a typewriter-style print made visible: the
//! characters written (each one is flushed the moment it is written, so the
//! recorded sequence is exactly what a terminal would have shown) and the
//! total time slept between characters, in milliseconds.  A sink can be
//! closed, in which case every further write fails with [`WriteError`].

use vstd::prelude::*;

verus! {

/// Failure to write to the output stream, for example because it was closed.
#[derive(Clone, Copy, Debug, PartialEq, Eq, Structural)]
pub struct WriteError;

/// The output stream, modelled as the characters it has shown and the time
/// slept while showing them.
pub struct Sink {
    /// Characters written and flushed so far, in order of emission.
    pub out: Vec<char>,
    /// Whether the stream is closed; writes to a closed stream fail.
    pub closed: bool,
    /// Total milliseconds slept after emitted characters, saturating at
    /// `u128::MAX`.
    pub slept_ms: u128,
}

/// The sleep clock after one more pause of `delay_ms`, saturating at
/// `u128::MAX`.
pub open spec fn tick(start: u128, delay_ms: u64) -> u128 {
    if start as int + delay_ms as int <= u128::MAX as int {
        (start as int + delay_ms as int) as u128
    } else {
        u128::MAX
    }
}

/// The sleep clock after `count` more pauses of `delay_ms` each, saturating
/// at `u128::MAX`.
pub open spec fn advanced_by(start: u128, delay_ms: u64, count: nat) -> u128 {
    if start as int + delay_ms as int * count as int <= u128::MAX as int {
        (start as int + delay_ms as int * count as int) as u128
    } else {
        u128::MAX
    }
}

/// One further pause advances the clock from `count` pauses to `count + 1`.
pub proof fn lemma_advanced_by_step(start: u128, delay_ms: u64, count: nat)
    ensures
        tick(advanced_by(start, delay_ms, count), delay_ms) == advanced_by(
            start,
            delay_ms,
            count + 1,
        ),
{
    assert(delay_ms as int * ((count + 1) as int) == delay_ms as int * count as int
        + delay_ms as int) by (nonlinear_arith);
    assert(delay_ms as int * count as int >= 0) by (nonlinear_arith);
}

impl Sink {
    /// A fresh, open stream that has shown nothing and slept for no time.
    pub fn new() -> (s: Sink)
        ensures
            s.out@ == Seq::<char>::empty(),
            !s.closed,
            s.slept_ms == 0,
    {
        Sink { out: Vec::new(), closed: false, slept_ms: 0 }
    }

    /// A stream that is already closed: every write to it fails.
    pub fn new_closed() -> (s: Sink)
        ensures
            s.out@ == Seq::<char>::empty(),
            s.closed,
            s.slept_ms == 0,
    {
        Sink { out: Vec::new(), closed: true, slept_ms: 0 }
    }

    /// Write and flush a single character, so that it becomes visible at the
    /// end of the stream; fails exactly when the stream is closed, in which
    /// case nothing is emitted.
    pub fn write_char(&mut self, c: char) -> (r: Result<(), WriteError>)
        ensures
            r is Ok <==> !old(self).closed,
            final(self).closed == old(self).closed,
            final(self).slept_ms == old(self).slept_ms,
            r is Ok ==> final(self).out@ == old(self).out@.push(c),
            r is Err ==> final(self).out@ == old(self).out@,
    {
        if self.closed {
            Err(WriteError)
        } else {
            self.out.push(c);
            Ok(())
        }
    }

    /// Suspend the caller for `delay_ms` milliseconds, advancing the sleep
    /// clock by that much (saturating at `u128::MAX`).
    pub fn sleep(&mut self, delay_ms: u64)
        ensures
            final(self).out@ == old(self).out@,
            final(self).closed == old(self).closed,
            final(self).slept_ms == tick(old(self).slept_ms, delay_ms),
    {
        if delay_ms as u128 <= u128::MAX - self.slept_ms {
            self.slept_ms = self.slept_ms + delay_ms as u128;
        } else {
            self.slept_ms = u128::MAX;
        }
    }
}

} // verus!
