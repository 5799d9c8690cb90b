//! Transport for length-prefixed packets over a half-duplex synchronous
//! serial bus, coordinated by three control lines: chip select (asserted low
//! around every bus transaction), data-ready (peripheral-driven, low when a
//! packet is queued) and wake (driven high once during setup).
//!
//! The bus and line primitives are abstract capabilities, declared in [`hal`]
//! and supplied by the caller; their contracts speak of a ghost transcript of
//! completed operations, so every promise the transport makes about its bus
//! activity is stated and proved over that transcript.

use vstd::prelude::*;

pub mod hal;
pub mod interface;
pub mod sim;
pub mod spi;

verus! {

/// The error a transport surfaces: a tagged union of the two ways a
/// transaction can fail, each wrapping the underlying device error.
#[derive(Debug)]
pub enum Error<CommE, PinE> {
    /// A bus write or transfer failed.
    Comm(CommE),
    /// A control line could not be read or driven.
    Pin(PinE),
}

} // verus!
