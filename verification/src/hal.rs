//! Abstract hardware capabilities the transport is built on: a synchronous
//! serial bus and digital input/output lines.
//!
//! Each capability carries a ghost model of the device. An output line
//! remembers the sequence of levels driven on it, and a bus remembers a
//! transcript of its completed operations. The transport's contracts are
//! stated over these models, so a caller can read off exactly which bus
//! traffic and line toggles a call produced. Implementations decide for
//! themselves when an operation fails; the contracts only pin down what each
//! outcome means for the model.

use vstd::prelude::*;

verus! {

/// One completed bus operation, as recorded in a bus's transcript.
pub enum BusOp {
    /// A one-directional write: the bytes driven onto the bus.
    Write(Seq<u8>),
    /// A bidirectional transfer: first the bytes driven out, then the bytes
    /// clocked back in over the same wires.
    Transfer(Seq<u8>, Seq<u8>),
}

/// A synchronous serial bus: blocking multi-byte write and bidirectional
/// transfer, each either completing as a whole or reporting an error and
/// leaving no trace in the transcript.
pub trait Bus: Sized {
    /// The communication-layer error a failed operation reports.
    type BusError;

    /// The operations completed so far, oldest first.
    spec fn transcript(&self) -> Seq<BusOp>;

    /// Drive `data` onto the bus; whatever the peripheral answers during the
    /// write is discarded.
    fn write(&mut self, data: &[u8]) -> (r: Result<(), Self::BusError>)
        ensures
            r is Ok ==> final(self).transcript() == old(self).transcript().push(
                BusOp::Write(data@),
            ),
            r is Err ==> final(self).transcript() == old(self).transcript(),
    ;

    /// Drive `data[start..end]` onto the bus while clocking the peripheral's
    /// answer back into the same region; the rest of `data` is untouched.
    /// (The region is named by its bounds because the transfer works in
    /// place: the whole buffer travels with the call.)
    fn transfer(&mut self, data: &mut [u8], start: usize, end: usize) -> (r: Result<
        (),
        Self::BusError,
    >)
        requires
            start <= end <= old(data)@.len(),
        ensures
            final(data)@.len() == old(data)@.len(),
            forall|i: int|
                0 <= i < old(data)@.len() && !(start <= i < end) ==> final(data)@[i] == old(
                    data,
                )@[i],
            r is Ok ==> final(self).transcript() == old(self).transcript().push(
                BusOp::Transfer(
                    old(data)@.subrange(start as int, end as int),
                    final(data)@.subrange(start as int, end as int),
                ),
            ),
            r is Err ==> final(self).transcript() == old(self).transcript() && final(data)@ == old(
                data,
            )@,
    ;
}

/// A digital output line: each successful call drives one more level onto the
/// line; a failed call drives nothing.
pub trait OutputLine: Sized {
    /// The line-layer error a failed drive reports.
    type LineError;

    /// The levels driven so far, oldest first; `true` is high.
    spec fn driven(&self) -> Seq<bool>;

    fn set_low(&mut self) -> (r: Result<(), Self::LineError>)
        ensures
            r is Ok ==> final(self).driven() == old(self).driven().push(false),
            r is Err ==> final(self).driven() == old(self).driven(),
    ;

    fn set_high(&mut self) -> (r: Result<(), Self::LineError>)
        ensures
            r is Ok ==> final(self).driven() == old(self).driven().push(true),
            r is Err ==> final(self).driven() == old(self).driven(),
    ;
}

/// A digital input line, read-only for the host.
pub trait InputLine: Sized {
    /// The line-layer error a failed read reports.
    type LineError;

    /// What reading the line yields: `None` when the read fails, otherwise
    /// `Some(b)` where `b` says whether the line reads low.
    spec fn poll_low(&self) -> Option<bool>;

    fn is_low(&self) -> (r: Result<bool, Self::LineError>)
        ensures
            r is Ok <==> self.poll_low() is Some,
            r matches Ok(b) ==> self.poll_low() == Some(b),
    ;
}

} // verus!
