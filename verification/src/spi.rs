//! The serial-bus transport: binds the transport contract to a synchronous
//! serial bus plus three control lines (select, data-ready, wake), owning all
//! four for its lifetime.
//!
//! The select line is asserted low to bracket every bus transaction and
//! restored high when the transaction completes. When a device fails midway,
//! the error is surfaced at once and the remaining steps are skipped, so the
//! select line is left low; the contracts state this outcome exactly, and a
//! caller must treat such an error as leaving the bus in an indeterminate
//! line state.

use vstd::prelude::*;

use crate::Error;
use crate::hal::{Bus, BusOp, InputLine, OutputLine};
use crate::interface::{
    SensorInterface, SensorCommon, PACKET_HEADER_LENGTH, MAX_PACKET_LENGTH, spec_packet_length,
};

verus! {

/// A run of `n` zero bytes: what the host drives out while it clocks a
/// reply in.
pub open spec fn zero_bytes(n: int) -> Seq<u8> {
    Seq::new(n as nat, |i: int| 0u8)
}

/// A candidate total length after the sanity check: anything above the
/// ceiling is garbage from an idle or miswired bus and clamps to zero.
pub open spec fn sanitized_length(raw: int) -> int {
    if raw > MAX_PACKET_LENGTH {
        0
    } else {
        raw
    }
}

/// Combines the serial bus peripheral with its chip-select output, data-ready
/// ("host interrupt") input and wake output, plus a count of the non-empty
/// packets received so far.
pub struct SpiInterface<SPI, CS, IN, WN> {
    /// The serial bus.
    pub spi: SPI,
    /// Chip select: driven low while a bus transaction is in flight.
    pub cs: CS,
    /// Data-ready input: reads low when the peripheral has a packet queued.
    pub hintn: IN,
    /// Wake output: driven high during setup to leave the low-power state.
    pub waken: WN,
    /// Successfully received non-empty packets; diagnostics only.
    pub received_packet_count: usize,
}

impl<SPI, CS, IN, WN, CommE, PinE> SpiInterface<SPI, CS, IN, WN> where
    SPI: Bus<BusError = CommE>,
    CS: OutputLine<LineError = PinE>,
    IN: InputLine<LineError = PinE>,
    WN: OutputLine<LineError = PinE>,
 {
    pub fn new(spi: SPI, cs: CS, hintn: IN, waken: WN) -> (s: Self)
        ensures
            s == (SpiInterface { spi, cs, hintn, waken, received_packet_count: 0 }),
    {
        Self { spi, cs, hintn, waken, received_packet_count: 0 }
    }

    /// Whether the peripheral signals a queued packet: true exactly when the
    /// data-ready line reads as low. A failed read counts as "not available"
    /// rather than as an error: the poll is advisory and must never itself
    /// fail the caller.
    pub fn data_available(&self) -> (r: bool)
        ensures
            r == (self.hintn.poll_low() == Some(true)),
    {
        match self.hintn.is_low() {
            Ok(b) => b,
            Err(_) => false,
        }
    }

    /// `read_packet` and `send_packet` never touch the data-ready or wake
    /// lines.
    pub open spec fn lines_framed(pre: Self, post: Self) -> bool {
        &&& post.hintn == pre.hintn
        &&& post.waken == pre.waken
    }

    /// Nothing was signaled as available: the transport is exactly as it was,
    /// the buffer untouched, and the call reports zero bytes.
    pub open spec fn read_idle(pre: Self, post: Self, buf_pre: Seq<u8>, buf_post: Seq<u8>, r: Result<
        usize,
        Error<CommE, PinE>,
    >) -> bool {
        &&& post == pre
        &&& buf_post == buf_pre
        &&& r matches Ok(n) && n == 0
    }

    /// Chip select could not be asserted: no bus activity, nothing changed.
    pub open spec fn read_select_failed(
        pre: Self,
        post: Self,
        buf_pre: Seq<u8>,
        buf_post: Seq<u8>,
        r: Result<usize, Error<CommE, PinE>>,
    ) -> bool {
        &&& r matches Err(e) && e is Pin
        &&& post.cs.driven() == pre.cs.driven()
        &&& post.spi.transcript() == pre.spi.transcript()
        &&& post.received_packet_count == pre.received_packet_count
        &&& buf_post == buf_pre
    }

    /// The header transfer failed: the buffer had already been zeroed for use
    /// as dummy output, nothing was recorded on the bus, and the select line
    /// was left low.
    pub open spec fn read_header_failed(
        pre: Self,
        post: Self,
        buf_pre: Seq<u8>,
        buf_post: Seq<u8>,
        r: Result<usize, Error<CommE, PinE>>,
    ) -> bool {
        &&& r matches Err(e) && e is Comm
        &&& post.cs.driven() == pre.cs.driven().push(false)
        &&& post.spi.transcript() == pre.spi.transcript()
        &&& post.received_packet_count == pre.received_packet_count
        &&& buf_post == zero_bytes(buf_pre.len() as int)
    }

    /// The header arrived and called for a body, but the body transfer
    /// failed: only the header transfer stands in the transcript, the body
    /// region still holds the zeroed dummy bytes, and the select line was
    /// left low.
    pub open spec fn read_body_failed(
        pre: Self,
        post: Self,
        buf_pre: Seq<u8>,
        buf_post: Seq<u8>,
        r: Result<usize, Error<CommE, PinE>>,
    ) -> bool {
        let header = buf_post.subrange(0, PACKET_HEADER_LENGTH as int);
        let plen = sanitized_length(spec_packet_length(header));
        &&& r matches Err(e) && e is Comm
        &&& plen > PACKET_HEADER_LENGTH
        &&& post.cs.driven() == pre.cs.driven().push(false)
        &&& post.spi.transcript() == pre.spi.transcript().push(
            BusOp::Transfer(zero_bytes(PACKET_HEADER_LENGTH as int), header),
        )
        &&& post.received_packet_count == pre.received_packet_count
        &&& buf_post.len() == buf_pre.len()
        &&& forall|i: int| PACKET_HEADER_LENGTH <= i < buf_post.len() ==> buf_post[i] == 0
    }

    /// The bus work and bookkeeping of a receive whose transfers all
    /// completed. The header stands at the front of the buffer; the length it
    /// encodes, after the sanity check, decides whether a body transfer
    /// followed the header transfer, which bytes of the buffer were filled,
    /// and whether the received-packet counter moved.
    pub open spec fn read_transfers_done(pre: Self, post: Self, buf_pre: Seq<u8>, buf_post: Seq<
        u8,
    >) -> bool {
        let header = buf_post.subrange(0, PACKET_HEADER_LENGTH as int);
        let plen = sanitized_length(spec_packet_length(header));
        &&& buf_post.len() == buf_pre.len()
        &&& post.received_packet_count == pre.received_packet_count + (if plen > 0 {
            1int
        } else {
            0int
        })
        &&& if plen > PACKET_HEADER_LENGTH {
            &&& post.spi.transcript() == pre.spi.transcript().push(
                BusOp::Transfer(zero_bytes(PACKET_HEADER_LENGTH as int), header),
            ).push(
                BusOp::Transfer(
                    zero_bytes(plen - PACKET_HEADER_LENGTH),
                    buf_post.subrange(PACKET_HEADER_LENGTH as int, plen),
                ),
            )
            &&& forall|i: int| plen <= i < buf_post.len() ==> buf_post[i] == 0
        } else {
            &&& post.spi.transcript() == pre.spi.transcript().push(
                BusOp::Transfer(zero_bytes(PACKET_HEADER_LENGTH as int), header),
            )
            &&& forall|i: int| PACKET_HEADER_LENGTH <= i < buf_post.len() ==> buf_post[i] == 0
        }
    }

    /// Every transfer completed but chip select could not be restored high:
    /// the packet (and the counter move) are in place, the select line was
    /// left low, and the pin error is surfaced.
    pub open spec fn read_release_failed(
        pre: Self,
        post: Self,
        buf_pre: Seq<u8>,
        buf_post: Seq<u8>,
        r: Result<usize, Error<CommE, PinE>>,
    ) -> bool {
        &&& r matches Err(e) && e is Pin
        &&& post.cs.driven() == pre.cs.driven().push(false)
        &&& Self::read_transfers_done(pre, post, buf_pre, buf_post)
    }

    /// The receive ran to completion: the result is the sanitized length, and
    /// the select line saw exactly one low/high bracket.
    pub open spec fn read_success(
        pre: Self,
        post: Self,
        buf_pre: Seq<u8>,
        buf_post: Seq<u8>,
        r: Result<usize, Error<CommE, PinE>>,
    ) -> bool {
        let header = buf_post.subrange(0, PACKET_HEADER_LENGTH as int);
        let plen = sanitized_length(spec_packet_length(header));
        &&& r matches Ok(n) && n == plen
        &&& post.cs.driven() == pre.cs.driven().push(false).push(true)
        &&& Self::read_transfers_done(pre, post, buf_pre, buf_post)
    }

    /// Law: when the data-ready poll says nothing is queued — the line reads
    /// high, or the read itself fails — a receive does nothing at all: no bus
    /// operation, no select toggle, an untouched buffer, and a zero result.
    pub proof fn lemma_unavailable_receive_is_silent(
        pre: Self,
        post: Self,
        buf_pre: Seq<u8>,
        buf_post: Seq<u8>,
        r: Result<usize, Error<CommE, PinE>>,
    )
        requires
            Self::read_post(pre, post, buf_pre, buf_post, r),
            pre.hintn.poll_low() != Some(true),
        ensures
            post == pre,
            buf_post == buf_pre,
            r matches Ok(n) && n == 0,
            post.spi.transcript() == pre.spi.transcript(),
            post.cs.driven() == pre.cs.driven(),
    {
    }

    /// Law: a header whose candidate length exceeds the ceiling never reaches
    /// the caller as a length, and never causes a body transfer: at most the
    /// single header transfer is added to the transcript.
    pub proof fn lemma_oversize_length_rejected(
        pre: Self,
        post: Self,
        buf_pre: Seq<u8>,
        buf_post: Seq<u8>,
        r: Result<usize, Error<CommE, PinE>>,
    )
        requires
            Self::read_post(pre, post, buf_pre, buf_post, r),
            spec_packet_length(buf_post.subrange(0, PACKET_HEADER_LENGTH as int))
                > MAX_PACKET_LENGTH,
        ensures
            r matches Ok(n) ==> n == 0,
            post.spi.transcript().len() <= pre.spi.transcript().len() + 1,
    {
    }

    /// Law: the received-packet counter counts exactly the receives that
    /// yielded a non-empty packet; a zero-byte yield — nothing available, or
    /// a clamped garbage header — leaves it alone, and no outcome ever
    /// decreases it.
    pub proof fn lemma_counter_counts_nonempty_receives(
        pre: Self,
        post: Self,
        buf_pre: Seq<u8>,
        buf_post: Seq<u8>,
        r: Result<usize, Error<CommE, PinE>>,
    )
        requires
            Self::read_post(pre, post, buf_pre, buf_post, r),
        ensures
            (r matches Ok(n) && n > 0) ==> post.received_packet_count
                == pre.received_packet_count + 1,
            (r matches Ok(n) && n == 0) ==> post.received_packet_count
                == pre.received_packet_count,
            post.received_packet_count >= pre.received_packet_count,
    {
    }

    /// Law: a send that reports success drove the caller's bytes verbatim
    /// and in order, in a single bus write, inside exactly one
    /// select-low/select-high bracket, and left the counter alone.
    pub proof fn lemma_send_transmits_verbatim(
        pre: Self,
        post: Self,
        packet: Seq<u8>,
        r: Result<(), Error<CommE, PinE>>,
    )
        requires
            Self::send_post(pre, post, packet, r),
            r is Ok,
        ensures
            post.spi.transcript() == pre.spi.transcript().push(BusOp::Write(packet)),
            post.cs.driven() == pre.cs.driven().push(false).push(true),
            post.received_packet_count == pre.received_packet_count,
    {
    }
}

impl<SPI, CS, IN, WN, CommE, PinE> SensorInterface for SpiInterface<SPI, CS, IN, WN> where
    SPI: Bus<BusError = CommE>,
    CS: OutputLine<LineError = PinE>,
    IN: InputLine<LineError = PinE>,
    WN: OutputLine<LineError = PinE>,
 {
    type SensorError = Error<CommE, PinE>;

    /// `setup` drives the wake line high, touches nothing else, and surfaces
    /// a pin error when the line cannot be driven; it never reports a
    /// communication error.
    open spec fn setup_post(pre: Self, post: Self, r: Result<(), Error<CommE, PinE>>) -> bool {
        &&& post.spi == pre.spi
        &&& post.cs == pre.cs
        &&& post.hintn == pre.hintn
        &&& post.received_packet_count == pre.received_packet_count
        &&& r is Ok ==> post.waken.driven() == pre.waken.driven().push(true)
        &&& r matches Err(e) ==> post.waken.driven() == pre.waken.driven() && e is Pin
    }

    /// `send_packet` may always be called.
    open spec fn send_pre(pre: Self, packet: Seq<u8>) -> bool {
        true
    }

    /// On success the caller's bytes went out verbatim, in order, in a single
    /// bus write, inside exactly one select-low/select-high bracket. On a pin
    /// error either nothing happened (select could not be asserted) or the
    /// write completed and only the release failed; on a communication error
    /// the write left no trace. On either failure after the assert, the
    /// select line is left low.
    open spec fn send_post(pre: Self, post: Self, packet: Seq<u8>, r: Result<
        (),
        Error<CommE, PinE>,
    >) -> bool {
        &&& Self::lines_framed(pre, post)
        &&& post.received_packet_count == pre.received_packet_count
        &&& {
            ||| {
                &&& r matches Err(e) && e is Pin
                &&& post.cs.driven() == pre.cs.driven()
                &&& post.spi.transcript() == pre.spi.transcript()
            }
            ||| {
                &&& r matches Err(e) && e is Comm
                &&& post.cs.driven() == pre.cs.driven().push(false)
                &&& post.spi.transcript() == pre.spi.transcript()
            }
            ||| {
                &&& r matches Err(e) && e is Pin
                &&& post.cs.driven() == pre.cs.driven().push(false)
                &&& post.spi.transcript() == pre.spi.transcript().push(BusOp::Write(packet))
            }
            ||| {
                &&& r is Ok
                &&& post.cs.driven() == pre.cs.driven().push(false).push(true)
                &&& post.spi.transcript() == pre.spi.transcript().push(BusOp::Write(packet))
            }
        }
    }

    /// The buffer must be able to hold any packet the sanity check admits,
    /// and the diagnostic counter must have room to move.
    open spec fn read_pre(pre: Self, buf: Seq<u8>) -> bool {
        &&& buf.len() >= MAX_PACKET_LENGTH
        &&& pre.received_packet_count < usize::MAX
    }

    /// A receive is exactly one of: nothing available (a plain zero result
    /// with no activity at all), or — with data signaled — one of the five
    /// outcomes spelled out by the `read_*` relations on the select-line
    /// history, the bus transcript, the buffer and the counter.
    open spec fn read_post(
        pre: Self,
        post: Self,
        buf_pre: Seq<u8>,
        buf_post: Seq<u8>,
        r: Result<usize, Error<CommE, PinE>>,
    ) -> bool {
        &&& Self::lines_framed(pre, post)
        &&& if pre.hintn.poll_low() == Some(true) {
            ||| Self::read_select_failed(pre, post, buf_pre, buf_post, r)
            ||| Self::read_header_failed(pre, post, buf_pre, buf_post, r)
            ||| Self::read_body_failed(pre, post, buf_pre, buf_post, r)
            ||| Self::read_release_failed(pre, post, buf_pre, buf_post, r)
            ||| Self::read_success(pre, post, buf_pre, buf_post, r)
        } else {
            Self::read_idle(pre, post, buf_pre, buf_post, r)
        }
    }

    fn setup(&mut self) -> (r: Result<(), Error<CommE, PinE>>) {
        match self.waken.set_high() {
            Ok(()) => Ok(()),
            Err(e) => Err(Error::Pin(e)),
        }
    }

    fn send_packet(&mut self, packet: &[u8]) -> (r: Result<(), Error<CommE, PinE>>) {
        match self.cs.set_low() {
            Ok(()) => (),
            Err(e) => {
                return Err(Error::Pin(e));
            },
        }
        match self.spi.write(packet) {
            Ok(()) => (),
            Err(e) => {
                return Err(Error::Comm(e));
            },
        }
        match self.cs.set_high() {
            Ok(()) => (),
            Err(e) => {
                return Err(Error::Pin(e));
            },
        }
        Ok(())
    }

    fn read_packet(&mut self, recv_buf: &mut [u8]) -> (r: Result<usize, Error<CommE, PinE>>) {
        if !self.data_available() {
            return Ok(0);
        }
        match self.cs.set_low() {
            Ok(()) => (),
            Err(e) => {
                return Err(Error::Pin(e));
            },
        }
        // The buffer doubles as the outgoing dummy bytes of the transfers, so
        // stale content must not leak onto the bus.
        let buf_len = recv_buf.len();
        let mut i: usize = 0;
        while i < buf_len
            invariant
                i <= buf_len,
                recv_buf@.len() == buf_len,
                forall|k: int| 0 <= k < i ==> recv_buf@[k] == 0,
            decreases buf_len - i,
        {
            recv_buf[i] = 0;
            i += 1;
        }
        proof {
            assert(recv_buf@ =~= zero_bytes(buf_len as int));
        }
        match self.spi.transfer(recv_buf, 0, PACKET_HEADER_LENGTH) {
            Ok(()) => (),
            Err(e) => {
                return Err(Error::Comm(e));
            },
        }
        proof {
            assert(zero_bytes(buf_len as int).subrange(0, PACKET_HEADER_LENGTH as int)
                =~= zero_bytes(PACKET_HEADER_LENGTH as int));
        }
        let header = vstd::slice::slice_subrange(&*recv_buf, 0, PACKET_HEADER_LENGTH);
        let mut packet_len: usize = SensorCommon::parse_packet_header(header);
        if packet_len > MAX_PACKET_LENGTH {
            // An idle bus reads back all-ones; treat such a header as garbage.
            packet_len = 0;
        }
        let ghost buf_after_header = recv_buf@;
        if packet_len > PACKET_HEADER_LENGTH {
            match self.spi.transfer(recv_buf, PACKET_HEADER_LENGTH, packet_len) {
                Ok(()) => (),
                Err(e) => {
                    return Err(Error::Comm(e));
                },
            }
            proof {
                assert(recv_buf@.subrange(0, PACKET_HEADER_LENGTH as int) =~= buf_after_header
                    .subrange(0, PACKET_HEADER_LENGTH as int));
                assert(buf_after_header.subrange(
                    PACKET_HEADER_LENGTH as int,
                    packet_len as int,
                ) =~= zero_bytes(packet_len - PACKET_HEADER_LENGTH));
            }
        }
        if packet_len > 0 {
            self.received_packet_count += 1;
        }
        match self.cs.set_high() {
            Ok(()) => (),
            Err(e) => {
                return Err(Error::Pin(e));
            },
        }
        Ok(packet_len)
    }
}

} // verus!
