//! The multiplex frame: a logical connection's number, a datagram
//! destination and a payload, carried on a byte stream.
//!
//! On the wire, all numbers big-endian: two bytes of connection number, two
//! of flags, two of address length, the address, two of port, then the
//! payload up to the end of the chunk.

use vstd::prelude::*;
use crate::bytes::{
    append_bytes, be16, copy_range, high_byte, low_byte, read_be16, write_be16,
};

verus! {

/// The least number of bytes of a frame, before its address is counted.
pub const MIN_FRAME_LEN: usize = 12;

/// The length of the address that reply frames carry.
pub const REPLY_ADDRESS_LEN: u16 = 4;

/// Why a chunk is no frame.
#[derive(Clone, Copy, Debug, PartialEq, Eq, Structural)]
pub enum FrameError {
    /// Fewer bytes than the least frame with the declared address.
    TooShort,
    /// The address field does not hold an IPv4 address.
    Malformed,
}

/// A datagram destination: an IPv4 address and a port.
#[derive(Clone, Copy, Debug, PartialEq, Eq)]
pub struct Destination {
    pub ip: (u8, u8, u8, u8),
    pub port: u16,
}

/// A frame as it is read from the stream.
#[derive(Debug)]
pub struct MultiplexFrame {
    pub connection_id: u16,
    pub flags: u16,
    pub address: Vec<u8>,
    pub port: u16,
    pub payload: Vec<u8>,
}

/// A frame's contents as mathematical values.
pub struct FrameView {
    pub connection_id: u16,
    pub flags: u16,
    pub address: Seq<u8>,
    pub port: u16,
    pub payload: Seq<u8>,
}

impl View for MultiplexFrame {
    type V = FrameView;

    open spec fn view(&self) -> FrameView {
        FrameView {
            connection_id: self.connection_id,
            flags: self.flags,
            address: self.address@,
            port: self.port,
            payload: self.payload@,
        }
    }
}

impl FrameView {
    /// The address length fits its two-byte field.
    pub open spec fn wf(self) -> bool {
        self.address.len() <= 0xffff
    }

    /// The frame survives a trip over the wire: it is well formed and as long
    /// as the least frame with its address.
    pub open spec fn readable(self) -> bool {
        self.wf() && self.payload.len() >= 4
    }
}

/// The address length that a chunk of at least six bytes declares.
pub open spec fn declared_address_len(bytes: Seq<u8>) -> int {
    be16(bytes[4], bytes[5]) as int
}

/// The frame that a chunk holds. A chunk is a frame only if it has at least
/// `MIN_FRAME_LEN` bytes and that many again beyond its declared address
/// length; the payload is whatever follows the port.
pub open spec fn parse_spec(bytes: Seq<u8>) -> Result<FrameView, FrameError> {
    if bytes.len() < 12 {
        Err(FrameError::TooShort)
    } else if bytes.len() < 12 + declared_address_len(bytes) {
        Err(FrameError::TooShort)
    } else {
        let n = declared_address_len(bytes);
        Ok(
            FrameView {
                connection_id: be16(bytes[0], bytes[1]),
                flags: be16(bytes[2], bytes[3]),
                address: bytes.subrange(6, 6 + n),
                port: be16(bytes[6 + n], bytes[7 + n]),
                payload: bytes.subrange(8 + n, bytes.len() as int),
            },
        )
    }
}

/// The six bytes before the address.
pub open spec fn header_spec(frame: FrameView) -> Seq<u8> {
    seq![
        high_byte(frame.connection_id),
        low_byte(frame.connection_id),
        high_byte(frame.flags),
        low_byte(frame.flags),
        high_byte(frame.address.len() as u16),
        low_byte(frame.address.len() as u16),
    ]
}

/// The bytes of a frame on the wire.
pub open spec fn encode_spec(frame: FrameView) -> Seq<u8> {
    header_spec(frame) + frame.address + seq![high_byte(frame.port), low_byte(frame.port)]
        + frame.payload
}

/// The destination that a frame names: its address field read as the four
/// octets of an IPv4 address, with its port.
pub open spec fn destination_spec(frame: FrameView) -> Result<Destination, FrameError> {
    if frame.address.len() == 4 {
        Ok(
            Destination {
                ip: (frame.address[0], frame.address[1], frame.address[2], frame.address[3]),
                port: frame.port,
            },
        )
    } else {
        Err(FrameError::Malformed)
    }
}

/// The frame that carries a datagram's reply back: the request's connection
/// number, no flags, the destination the request went to, and the reply.
pub open spec fn reply_spec(connection_id: u16, destination: Destination, payload: Seq<u8>)
    -> FrameView {
    FrameView {
        connection_id,
        flags: 0,
        address: seq![destination.ip.0, destination.ip.1, destination.ip.2, destination.ip.3],
        port: destination.port,
        payload,
    }
}

impl MultiplexFrame {
    /// Reads one chunk as a frame. The chunk is refused as too short where
    /// it has fewer than `MIN_FRAME_LEN` bytes, or fewer than that beyond the
    /// address length it declares; nothing of a refused chunk is kept.
    pub fn parse(bytes: &[u8]) -> (parsed: Result<MultiplexFrame, FrameError>)
        ensures
            match parsed {
                Ok(frame) => parse_spec(bytes@) == Ok::<FrameView, FrameError>(frame@)
                    && frame@.readable(),
                Err(error) => parse_spec(bytes@) == Err::<FrameView, FrameError>(error),
            },
    {
        if bytes.len() < MIN_FRAME_LEN {
            return Err(FrameError::TooShort);
        }
        let n: usize = read_be16(bytes[4], bytes[5]) as usize;
        if bytes.len() - MIN_FRAME_LEN < n {
            return Err(FrameError::TooShort);
        }
        let frame = MultiplexFrame {
            connection_id: read_be16(bytes[0], bytes[1]),
            flags: read_be16(bytes[2], bytes[3]),
            address: copy_range(bytes, 6, 6 + n),
            port: read_be16(bytes[6 + n], bytes[7 + n]),
            payload: copy_range(bytes, 8 + n, bytes.len()),
        };
        Ok(frame)
    }

    /// The destination that the frame names. A frame whose address field is
    /// not four bytes long is malformed.
    pub fn destination(&self) -> (found: Result<Destination, FrameError>)
        ensures
            found == destination_spec(self@),
    {
        if self.address.len() == 4 {
            Ok(
                Destination {
                    ip: (self.address[0], self.address[1], self.address[2], self.address[3]),
                    port: self.port,
                },
            )
        } else {
            Err(FrameError::Malformed)
        }
    }

    /// The frame that carries `payload` back as the reply to a request of
    /// connection `connection_id` that went to `destination`.
    pub fn reply(connection_id: u16, destination: Destination, payload: Vec<u8>) -> (frame:
        MultiplexFrame)
        ensures
            frame@ == reply_spec(connection_id, destination, payload@),
            frame@.address.len() == REPLY_ADDRESS_LEN,
            frame@.wf(),
    {
        let mut address: Vec<u8> = Vec::new();
        address.push(destination.ip.0);
        address.push(destination.ip.1);
        address.push(destination.ip.2);
        address.push(destination.ip.3);
        assert(address@ =~= seq![
            destination.ip.0,
            destination.ip.1,
            destination.ip.2,
            destination.ip.3,
        ]);
        MultiplexFrame { connection_id, flags: 0, address, port: destination.port, payload }
    }

    /// The value of the frame's address-length field.
    pub fn address_length(&self) -> (length: u16)
        requires
            self@.wf(),
        ensures
            length == self@.address.len(),
    {
        self.address.len() as u16
    }

    /// The frame's bytes on the wire.
    pub fn encode(&self) -> (bytes: Vec<u8>)
        requires
            self@.wf(),
        ensures
            bytes@ == encode_spec(self@),
    {
        let id = write_be16(self.connection_id);
        let flags = write_be16(self.flags);
        let n = write_be16(self.address_length());
        let port = write_be16(self.port);
        let mut bytes: Vec<u8> = Vec::new();
        bytes.push(id.0);
        bytes.push(id.1);
        bytes.push(flags.0);
        bytes.push(flags.1);
        bytes.push(n.0);
        bytes.push(n.1);
        assert(bytes@ =~= header_spec(self@));
        append_bytes(&mut bytes, self.address.as_slice());
        bytes.push(port.0);
        bytes.push(port.1);
        assert(bytes@ =~= header_spec(self@) + self.address@ + seq![
            high_byte(self.port),
            low_byte(self.port),
        ]);
        append_bytes(&mut bytes, self.payload.as_slice());
        bytes
    }
}

/// A chunk with fewer bytes than the least frame with its declared address
/// is no frame.
pub proof fn short_chunk_is_no_frame(bytes: Seq<u8>)
    requires
        bytes.len() < 12 || bytes.len() < 12 + declared_address_len(bytes),
    ensures
        parse_spec(bytes) == Err::<FrameView, FrameError>(FrameError::TooShort),
{
}

/// A readable frame that is written out and read back is the same frame.
pub proof fn parse_inverts_encode(frame: FrameView)
    requires
        frame.readable(),
    ensures
        parse_spec(encode_spec(frame)) == Ok::<FrameView, FrameError>(frame),
{
    let bytes = encode_spec(frame);
    let n = frame.address.len() as int;
    crate::bytes::be16_of_bytes(frame.connection_id);
    crate::bytes::be16_of_bytes(frame.flags);
    crate::bytes::be16_of_bytes(frame.address.len() as u16);
    crate::bytes::be16_of_bytes(frame.port);
    assert(bytes.len() == 8 + n + frame.payload.len());
    assert(bytes[4] == high_byte(frame.address.len() as u16));
    assert(bytes[5] == low_byte(frame.address.len() as u16));
    assert(declared_address_len(bytes) == n);
    assert(bytes.subrange(6, 6 + n) =~= frame.address);
    assert(bytes.subrange(8 + n, bytes.len() as int) =~= frame.payload);
    assert(bytes[6 + n] == high_byte(frame.port));
    assert(bytes[7 + n] == low_byte(frame.port));
}

/// A reply of at least four bytes, written out and read back, shows the
/// request's connection number, no flags, the request's destination and the
/// reply's bytes.
pub proof fn reply_round_trip(connection_id: u16, destination: Destination, payload: Seq<u8>)
    requires
        payload.len() >= 4,
    ensures
        parse_spec(encode_spec(reply_spec(connection_id, destination, payload))) is Ok,
        ({
            let read = parse_spec(
                encode_spec(reply_spec(connection_id, destination, payload)),
            )->Ok_0;
            &&& read.connection_id == connection_id
            &&& read.flags == 0
            &&& read.payload == payload
            &&& destination_spec(read) == Ok::<Destination, FrameError>(destination)
        }),
{
    parse_inverts_encode(reply_spec(connection_id, destination, payload));
}

} // verus!
