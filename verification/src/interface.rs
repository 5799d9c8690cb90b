//! The transport contract and the packet framing shared by every transport:
//! the fixed-size header and the length it encodes.

use vstd::prelude::*;

verus! {

/// Number of bytes in the fixed packet header.
pub const PACKET_HEADER_LENGTH: usize = 4;

/// Ceiling on a credible total packet length. An idle or miswired bus reads
/// back all-ones, which would decode to an implausibly large length; anything
/// above this ceiling is treated as garbage and clamped to zero.
pub const MAX_PACKET_LENGTH: usize = 300;

/// The total packet length (header plus body) a header region encodes: the
/// first two bytes, least significant first. A region shorter than a full
/// header encodes no packet at all.
pub open spec fn spec_packet_length(header: Seq<u8>) -> int {
    if header.len() < PACKET_HEADER_LENGTH {
        0
    } else {
        header[0] + 256 * header[1]
    }
}

/// A full header region encoding the total length `len`: the length's low and
/// high bytes, then zero padding up to the header size.
pub open spec fn spec_packet_header(len: int) -> Seq<u8> {
    seq![(len % 256) as u8, (len / 256) as u8, 0u8, 0u8]
}

/// Framing helpers shared between the transports and the layers above them.
pub struct SensorCommon;

impl SensorCommon {
    /// Decode the total packet length from the leading header region of
    /// `packet`; zero if `packet` does not hold a full header.
    pub fn parse_packet_header(packet: &[u8]) -> (len: usize)
        ensures
            len == spec_packet_length(packet@),
    {
        if packet.len() >= PACKET_HEADER_LENGTH {
            (packet[0] as usize) + 256 * (packet[1] as usize)
        } else {
            0
        }
    }

    /// Build the header region that encodes the total length `len`.
    pub fn encode_packet_header(len: u16) -> (header: Vec<u8>)
        ensures
            header@ == spec_packet_header(len as int),
    {
        let mut header: Vec<u8> = Vec::new();
        header.push((len % 256) as u8);
        header.push((len / 256) as u8);
        header.push(0u8);
        header.push(0u8);
        proof {
            assert(header@ =~= spec_packet_header(len as int));
        }
        header
    }
}

/// Law: every candidate length the sanity ceiling admits survives a round
/// trip through header encoding and decoding unchanged.
pub proof fn lemma_packet_length_round_trip(len: int)
    requires
        0 <= len <= MAX_PACKET_LENGTH,
    ensures
        spec_packet_length(spec_packet_header(len)) == len,
{
}

/// The transport contract: one-time setup, fire-and-forget packet send, and
/// poll-based packet receive into a caller-supplied buffer.
///
/// What each operation does is left to the implementing transport, which
/// states it by defining the `*_pre` admissibility conditions and the
/// `*_post` relations between the transport before and after a call.
pub trait SensorInterface: Sized {
    /// The error surfaced by a failed operation.
    type SensorError;

    /// How a completed `setup` call relates the transport after it (`post`)
    /// to the one before it (`pre`), with its outcome `r`.
    spec fn setup_post(pre: Self, post: Self, r: Result<(), Self::SensorError>) -> bool;

    /// When `send_packet` may be called.
    spec fn send_pre(pre: Self, packet: Seq<u8>) -> bool;

    /// How a completed `send_packet` call relates the transport after it to
    /// the one before it, given the packet sent and the outcome.
    spec fn send_post(pre: Self, post: Self, packet: Seq<u8>, r: Result<
        (),
        Self::SensorError,
    >) -> bool;

    /// When `read_packet` may be called.
    spec fn read_pre(pre: Self, buf: Seq<u8>) -> bool;

    /// How a completed `read_packet` call relates the transport after it to
    /// the one before it, given the receive buffer before (`buf_pre`) and
    /// after (`buf_post`) the call, and the outcome.
    spec fn read_post(
        pre: Self,
        post: Self,
        buf_pre: Seq<u8>,
        buf_post: Seq<u8>,
        r: Result<usize, Self::SensorError>,
    ) -> bool;

    /// One-time initialization: bring the peripheral to an active state.
    fn setup(&mut self) -> (r: Result<(), Self::SensorError>)
        ensures
            Self::setup_post(*old(self), *final(self), r),
    ;

    /// Transmit an already-framed packet (header plus body) verbatim; no
    /// framing is added here.
    fn send_packet(&mut self, packet: &[u8]) -> (r: Result<(), Self::SensorError>)
        requires
            Self::send_pre(*old(self), packet@),
        ensures
            Self::send_post(*old(self), *final(self), packet@, r),
    ;

    /// Non-blocking attempt to receive one packet into `recv_buf`; returns
    /// the number of bytes received, `0` when nothing was available or the
    /// parsed length was invalid.
    fn read_packet(&mut self, recv_buf: &mut [u8]) -> (r: Result<usize, Self::SensorError>)
        requires
            Self::read_pre(*old(self), old(recv_buf)@),
        ensures
            Self::read_post(*old(self), *final(self), old(recv_buf)@, final(recv_buf)@, r),
    ;
}

} // verus!
