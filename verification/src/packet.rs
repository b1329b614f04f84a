//! The fixed-size wire frame exchanged with the keypad and its codec.
//!
//! An outbound frame is exactly [`FRAME_LEN`] (32) bytes: two sync bytes
//! [`PACKET_INIT`], one command code, and a [`PAYLOAD_LEN`] (29) byte
//! payload, zero-padded on the right. An inbound frame carries no sync
//! prefix: its first received byte is the command code and the remaining
//! bytes form the payload.

use vstd::prelude::*;

use crate::error::ErrorKind;
use crate::error::HidError;

verus! {

/// The sync byte; an outbound frame starts with two of them.
pub const PACKET_INIT: u8 = 0x69;

/// Total length of an encoded outbound frame.
pub const FRAME_LEN: usize = 32;

/// Fixed capacity of a packet payload.
pub const PAYLOAD_LEN: usize = 29;

/// The command tag of a packet, one byte on the wire.
///
/// `Unknown` stands for any unrecognized wire code. It is never legitimately
/// sent, and a well-formed packet never carries it.
#[derive(Clone, Copy, Debug, PartialEq, Eq, Structural)]
pub enum PacketHeader {
    /// Step or force the volume of a mapped application (fire-and-forget).
    ChangeVolume,
    /// Query the volume of a mapped application; answered with a packet
    /// of the same header.
    GetVolume,
    /// Like `ChangeVolume`, but jumps straight to 0% or 100%.
    ForceVolume,
    /// Telemetry push from host to keypad.
    Stats,
    /// Sentinel for an unrecognized wire code; never a valid send target.
    Unknown,
}

/// The wire code assigned to each command tag.
pub open spec fn spec_header_code(h: PacketHeader) -> u8 {
    match h {
        PacketHeader::ChangeVolume => 0x04,
        PacketHeader::GetVolume => 0x05,
        PacketHeader::ForceVolume => 0x06,
        PacketHeader::Stats => 0x08,
        PacketHeader::Unknown => 0xFF,
    }
}

/// The command tag a wire code decodes to; anything unassigned is `Unknown`.
pub open spec fn spec_header_of(byte: u8) -> PacketHeader {
    if byte == 0x04 {
        PacketHeader::ChangeVolume
    } else if byte == 0x05 {
        PacketHeader::GetVolume
    } else if byte == 0x06 {
        PacketHeader::ForceVolume
    } else if byte == 0x08 {
        PacketHeader::Stats
    } else {
        PacketHeader::Unknown
    }
}

impl PacketHeader {
    /// Decode one wire byte to its command tag.
    pub fn from_u8(byte: u8) -> (h: PacketHeader)
        ensures
            h == spec_header_of(byte),
    {
        match byte {
            0x04 => PacketHeader::ChangeVolume,
            0x05 => PacketHeader::GetVolume,
            0x06 => PacketHeader::ForceVolume,
            0x08 => PacketHeader::Stats,
            _ => PacketHeader::Unknown,
        }
    }

    /// Encode the command tag to its wire byte.
    pub fn into_u8(&self) -> (b: u8)
        ensures
            b == spec_header_code(*self),
    {
        match self {
            PacketHeader::ChangeVolume => 0x04,
            PacketHeader::GetVolume => 0x05,
            PacketHeader::ForceVolume => 0x06,
            PacketHeader::Stats => 0x08,
            PacketHeader::Unknown => 0xFF,
        }
    }
}

/// The tag-to-code mapping is a bijection over the known tags: decoding the
/// code of any known tag gives that tag back, and `Unknown`'s reserved code
/// is not the code of any known tag.
pub proof fn lemma_header_code_bijection()
    ensures
        forall|h: PacketHeader|
            h != PacketHeader::Unknown ==> #[trigger] spec_header_of(spec_header_code(h)) == h,
        forall|b: u8|
            spec_header_of(b) != PacketHeader::Unknown ==> #[trigger] spec_header_code(
                spec_header_of(b),
            ) == b,
        forall|h: PacketHeader|
            h != PacketHeader::Unknown ==> #[trigger] spec_header_code(h) != 0xFF,
{
}

/// The payload region a byte sequence fills: left-aligned, zero-padded on
/// the right to [`PAYLOAD_LEN`] bytes, and cut there if longer.
pub open spec fn pad_payload(data: Seq<u8>) -> Seq<u8> {
    Seq::new(PAYLOAD_LEN as nat, |i: int| if i < data.len() { data[i] } else { 0u8 })
}

/// One wire unit: a command tag and its fixed-capacity payload.
pub struct Packet {
    pub header: PacketHeader,
    pub data: Vec<u8>,
}

/// The bytes of an encoded outbound frame:
/// two sync bytes, the command code, then the payload.
pub open spec fn spec_frame_bytes(p: Packet) -> Seq<u8> {
    seq![PACKET_INIT, PACKET_INIT, spec_header_code(p.header)] + p.payload()
}

/// The command tag an inbound byte sequence decodes to.
pub open spec fn spec_decoded_header(data: Seq<u8>) -> PacketHeader {
    spec_header_of(data[0])
}

/// The payload an inbound byte sequence of `received` meaningful bytes
/// decodes to: everything after the command code, padded to the fixed
/// payload region.
pub open spec fn spec_decoded_payload(received: int, data: Seq<u8>) -> Seq<u8> {
    pad_payload(data.subrange(1, received))
}

impl Packet {
    /// The payload, always exactly [`PAYLOAD_LEN`] bytes in a well-formed
    /// packet.
    pub open spec fn payload(&self) -> Seq<u8> {
        self.data@
    }

    /// A packet is well-formed when its payload fills the fixed region
    /// exactly and its header is a known command.
    pub open spec fn wf(&self) -> bool {
        &&& self.payload().len() == PAYLOAD_LEN
        &&& self.header != PacketHeader::Unknown
    }

    /// Build an outbound packet: the payload bytes are copied left-aligned
    /// into a zero-filled region of [`PAYLOAD_LEN`] bytes. A payload over
    /// capacity or the reserved `Unknown` header is a contract violation.
    pub fn new(header: PacketHeader, data: Vec<u8>) -> (p: Self)
        requires
            data@.len() <= PAYLOAD_LEN,
            header != PacketHeader::Unknown,
        ensures
            p.wf(),
            p.header == header,
            p.payload() == pad_payload(data@),
    {
        let mut sized_vec: Vec<u8> = Vec::new();
        let mut i: usize = 0;
        while i < data.len()
            invariant
                i <= data@.len(),
                data@.len() <= PAYLOAD_LEN,
                sized_vec@ =~= data@.subrange(0, i as int),
            decreases data@.len() - i,
        {
            sized_vec.push(data[i]);
            i += 1;
        }
        while i < PAYLOAD_LEN
            invariant
                data@.len() <= i <= PAYLOAD_LEN,
                sized_vec@.len() == i,
                sized_vec@.subrange(0, data@.len() as int) =~= data@,
                forall|j: int| data@.len() <= j < i ==> sized_vec@[j] == 0u8,
            decreases PAYLOAD_LEN - i,
        {
            sized_vec.push(0u8);
            i += 1;
        }
        let p = Self { header, data: sized_vec };
        proof {
            assert(p.payload() =~= pad_payload(data@));
        }
        p
    }

    /// Decode an inbound read of `received` bytes sitting at the front of
    /// `data`. A zero-length read fails with `EmptyRead`; a first byte that
    /// is not a known command code fails with `UnknownHeader`; otherwise the
    /// first byte is the header and the rest, padded to the fixed region,
    /// is the payload.
    pub fn from(received: usize, data: &[u8]) -> (r: Result<Self, HidError>)
        requires
            received <= data@.len(),
        ensures
            received == 0 ==> (r matches Err(e) && e.kind == ErrorKind::EmptyRead),
            received > 0 && spec_decoded_header(data@) == PacketHeader::Unknown ==> (r matches Err(
                e,
            ) && e.kind == ErrorKind::UnknownHeader),
            received > 0 && spec_decoded_header(data@) != PacketHeader::Unknown ==> (r matches Ok(p)
                && p.wf() && p.header == spec_decoded_header(data@) && p.payload()
                == spec_decoded_payload(received as int, data@)),
    {
        if received == 0 {
            return Err(
                HidError::with_kind(ErrorKind::EmptyRead, "Packet not > 0 len!".to_owned()),
            );
        }
        let packet_header = PacketHeader::from_u8(data[0]);
        if packet_header == PacketHeader::Unknown {
            return Err(
                HidError::with_kind(
                    ErrorKind::UnknownHeader,
                    "Packet header is unknown!".to_owned(),
                ),
            );
        }
        let mut payload: Vec<u8> = Vec::new();
        let mut i: usize = 1;
        while i < received && payload.len() < PAYLOAD_LEN
            invariant
                received <= data@.len(),
                1 <= i <= received,
                payload@.len() == i - 1,
                payload@.len() <= PAYLOAD_LEN,
                payload@ =~= data@.subrange(1, i as int),
            decreases received - i,
        {
            payload.push(data[i]);
            i += 1;
        }
        let p = Self::new(packet_header, payload);
        proof {
            assert(p.payload() =~= spec_decoded_payload(received as int, data@));
        }
        Ok(p)
    }

    /// A copy of the payload bytes.
    pub fn raw(&self) -> (r: Vec<u8>)
        ensures
            r@ == self.payload(),
    {
        let mut vec_clone: Vec<u8> = Vec::new();
        let mut i: usize = 0;
        while i < self.data.len()
            invariant
                i <= self.data@.len(),
                vec_clone@ =~= self.data@.subrange(0, i as int),
            decreases self.data@.len() - i,
        {
            vec_clone.push(self.data[i]);
            i += 1;
        }
        proof {
            assert(vec_clone@ =~= self.payload());
        }
        vec_clone
    }

    /// Encode the packet as an outbound frame: always exactly [`FRAME_LEN`]
    /// bytes, the first two [`PACKET_INIT`], the third the header's wire
    /// code, the rest the payload.
    pub fn to_packet_bytes(&self) -> (r: Vec<u8>)
        requires
            self.wf(),
        ensures
            r@ == spec_frame_bytes(*self),
            r@.len() == FRAME_LEN,
            r@[0] == PACKET_INIT,
            r@[1] == PACKET_INIT,
            r@[2] == spec_header_code(self.header),
            r@.subrange(3, FRAME_LEN as int) == self.payload(),
    {
        let mut frame: Vec<u8> = Vec::new();
        frame.push(PACKET_INIT);
        frame.push(PACKET_INIT);
        frame.push(self.header.into_u8());
        let mut i: usize = 0;
        while i < self.data.len()
            invariant
                i <= self.data@.len(),
                frame@.len() == 3 + i,
                frame@.subrange(0, 3)
                    =~= seq![PACKET_INIT, PACKET_INIT, spec_header_code(self.header)],
                frame@.subrange(3, frame@.len() as int) =~= self.data@.subrange(0, i as int),
            decreases self.data@.len() - i,
        {
            frame.push(self.data[i]);
            i += 1;
        }
        proof {
            assert forall|k: int| 0 <= k < frame@.len() implies frame@[k] == spec_frame_bytes(
                *self,
            )[k] by {
                if k < 3 {
                    assert(frame@[k] == frame@.subrange(0, 3)[k]);
                } else {
                    assert(frame@[k] == frame@.subrange(3, frame@.len() as int)[k - 3]);
                }
            }
            assert(frame@ =~= spec_frame_bytes(*self));
            assert(frame@.subrange(3, FRAME_LEN as int) =~= self.payload());
        }
        frame
    }
}

/// Round trip: for any well-formed packet, decoding the encoded frame
/// without its two-byte sync prefix recovers the header and the payload
/// exactly.
pub proof fn lemma_encode_decode_roundtrip(p: Packet)
    requires
        p.wf(),
    ensures
        ({
            let inbound = spec_frame_bytes(p).subrange(2, FRAME_LEN as int);
            &&& spec_decoded_header(inbound) == p.header
            &&& spec_decoded_payload(inbound.len() as int, inbound) == p.payload()
        }),
{
    let inbound = spec_frame_bytes(p).subrange(2, FRAME_LEN as int);
    lemma_header_code_bijection();
    assert(inbound[0] == spec_header_code(p.header));
    assert(inbound.subrange(1, inbound.len() as int) =~= p.payload());
    assert(spec_decoded_payload(inbound.len() as int, inbound) =~= p.payload());
}

} // verus!
