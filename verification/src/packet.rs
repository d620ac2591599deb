//! The frame codec: one frame of the serial protocol, its bytes on the wire
//! and its checksum.
//!
//! On the wire a frame is the start marker `0xfc`, the type, two further
//! header bytes, the payload length, the payload and a checksum. The checksum
//! is `0xfc` minus the sum of every byte before it, with wraparound at 256.

use crate::misc::{byte_sum, checksum_for_sum, lemma_byte_sum_push};
use vstd::prelude::*;

verus! {

/// First byte of every frame.
pub const START_MARKER: u8 = 0xfc;

/// Second header byte of the frames that the controller builds.
pub const DEFAULT_H2: u8 = 0x01;

/// Third header byte of the frames that the controller builds.
pub const DEFAULT_H3: u8 = 0x30;

/// Type of the handshake that opens the link.
pub const TYPE_CONNECT: u8 = 0x5a;

/// Type of the appliance's answer to the handshake.
pub const TYPE_CONNECT_ACK: u8 = 0x7a;

/// Type of a frame that changes settings.
pub const TYPE_SET: u8 = 0x41;

/// Type of the appliance's answer to a change of settings.
pub const TYPE_SET_ACK: u8 = 0x61;

/// Type of a frame that asks for one category of status.
pub const TYPE_STATUS_REQUEST: u8 = 0x42;

/// Type of the appliance's answer to a status request.
pub const TYPE_STATUS_REPLY: u8 = 0x62;

/// Least number of bytes in a frame: five header bytes and the checksum.
pub const MIN_PACKET_SIZE: usize = 6;

/// Why a byte string is not a frame.
#[derive(Clone, Copy, Debug, PartialEq, Eq, Structural)]
pub enum PacketError {
    /// Fewer than six bytes.
    TooShort,
    /// The first byte is not the start marker.
    BadMarker,
    /// The header announces more payload than there are bytes.
    LengthMismatch,
    /// The checksum byte is not the checksum of the bytes before it.
    ChecksumMismatch,
}

impl PacketError {
    /// What went wrong, in words.
    pub fn message(&self) -> (text: &'static str)
        ensures
            text@ == match *self {
                PacketError::TooShort => "Packet too short to be a valid packet"@,
                PacketError::BadMarker => "Packet does not start with 0xfc"@,
                PacketError::LengthMismatch => "Packet length in header does not match received data"@,
                PacketError::ChecksumMismatch => "Packet checksum does not match"@,
            },
    {
        match self {
            PacketError::TooShort => "Packet too short to be a valid packet",
            PacketError::BadMarker => "Packet does not start with 0xfc",
            PacketError::LengthMismatch => "Packet length in header does not match received data",
            PacketError::ChecksumMismatch => "Packet checksum does not match",
        }
    }
}

/// A frame as a mathematical value: what a `Packet` stands for.
pub ghost struct Frame {
    pub packet_type: u8,
    pub h2: u8,
    pub h3: u8,
    pub data: Seq<u8>,
    pub checksum: u8,
}

impl Frame {
    /// The length byte: the payload's length, modulo 256.
    pub open spec fn length_byte(self) -> u8 {
        (self.data.len() % 256) as u8
    }

    /// The five bytes before the payload.
    pub open spec fn header(self) -> Seq<u8> {
        seq![START_MARKER, self.packet_type, self.h2, self.h3, self.length_byte()]
    }

    /// The checksum that belongs to the frame: that of header and payload.
    pub open spec fn expected_checksum(self) -> u8 {
        checksum_for_sum(byte_sum(self.header() + self.data))
    }

    /// The payload's length fits the length byte.
    pub open spec fn fits(self) -> bool {
        self.data.len() <= 255
    }

    /// The frame can travel: its length fits and its checksum is right.
    pub open spec fn valid(self) -> bool {
        self.fits() && self.checksum == self.expected_checksum()
    }

    /// The frame with the checksum that belongs to it.
    pub open spec fn sealed(self) -> Frame {
        Frame { checksum: self.expected_checksum(), ..self }
    }

    /// The frame's bytes on the wire.
    pub open spec fn encoding(self) -> Seq<u8> {
        (self.header() + self.data).push(self.checksum)
    }
}

/// What a byte string reads as: the frame at its start, or the reason why
/// there is none. Bytes behind the frame are ignored.
pub open spec fn decode(bytes: Seq<u8>) -> Result<Frame, PacketError> {
    if bytes.len() < 6 {
        Err(PacketError::TooShort)
    } else if bytes[0] != START_MARKER {
        Err(PacketError::BadMarker)
    } else if bytes.len() < 6 + bytes[4] {
        Err(PacketError::LengthMismatch)
    } else {
        let frame = Frame {
            packet_type: bytes[1],
            h2: bytes[2],
            h3: bytes[3],
            data: bytes.subrange(5, 5 + bytes[4]),
            checksum: bytes[5 + bytes[4]],
        };
        if frame.checksum == frame.expected_checksum() {
            Ok(frame)
        } else {
            Err(PacketError::ChecksumMismatch)
        }
    }
}

/// The sum of a concatenation is the sum of the sums.
pub proof fn lemma_byte_sum_concat(a: Seq<u8>, b: Seq<u8>)
    ensures
        byte_sum(a + b) == byte_sum(a) + byte_sum(b),
    decreases b.len(),
{
    if b.len() == 0 {
        assert(a + b =~= a);
    } else {
        lemma_byte_sum_concat(a, b.drop_last());
        assert((a + b).drop_last() =~= a + b.drop_last());
    }
}

/// Replacing one byte changes the sum by the difference of the two bytes.
pub proof fn lemma_byte_sum_update(s: Seq<u8>, i: int, b: u8)
    requires
        0 <= i < s.len(),
    ensures
        byte_sum(s.update(i, b)) == byte_sum(s) - s[i] + b,
    decreases s.len(),
{
    if i == s.len() - 1 {
        assert(s.update(i, b).drop_last() =~= s.drop_last());
    } else {
        lemma_byte_sum_update(s.drop_last(), i, b);
        assert(s.update(i, b).drop_last() =~= s.drop_last().update(i, b));
    }
}

/// The sum of the five header bytes.
pub proof fn lemma_header_sum(f: Frame)
    ensures
        byte_sum(f.header()) == START_MARKER + f.packet_type + f.h2 + f.h3 + f.length_byte(),
{
    let h = f.header();
    let h0 = Seq::<u8>::empty();
    let h1 = h0.push(h[0]);
    let h2 = h1.push(h[1]);
    let h3 = h2.push(h[2]);
    let h4 = h3.push(h[3]);
    lemma_byte_sum_push(h0, h[0]);
    lemma_byte_sum_push(h1, h[1]);
    lemma_byte_sum_push(h2, h[2]);
    lemma_byte_sum_push(h3, h[3]);
    lemma_byte_sum_push(h4, h[4]);
    assert(h4.push(h[4]) =~= h);
}

/// One frame of the serial protocol.
#[derive(Clone, Debug, PartialEq, Eq)]
pub struct Packet {
    pub packet_type: u8,
    pub h2: u8,
    pub h3: u8,
    pub data: Vec<u8>,
    pub checksum: u8,
}

impl View for Packet {
    type V = Frame;

    open spec fn view(&self) -> Frame {
        Frame {
            packet_type: self.packet_type,
            h2: self.h2,
            h3: self.h3,
            data: self.data@,
            checksum: self.checksum,
        }
    }
}

impl Packet {
    /// An empty frame of type 0 with the usual header bytes. Its checksum
    /// field is 0 and not yet set.
    pub fn new() -> (packet: Self)
        ensures
            packet@ == (Frame {
                packet_type: 0,
                h2: DEFAULT_H2,
                h3: DEFAULT_H3,
                data: Seq::<u8>::empty(),
                checksum: 0,
            }),
    {
        Self { packet_type: 0, h2: DEFAULT_H2, h3: DEFAULT_H3, data: Vec::new(), checksum: 0 }
    }

    /// A frame of the given type whose payload is `size` zero bytes. Its
    /// checksum field is 0 and not yet set.
    pub fn new_type_size(ptype: u8, size: usize) -> (packet: Self)
        ensures
            packet@ == (Frame {
                packet_type: ptype,
                h2: DEFAULT_H2,
                h3: DEFAULT_H3,
                data: Seq::new(size as nat, |i: int| 0u8),
                checksum: 0,
            }),
    {
        let mut data: Vec<u8> = Vec::new();
        let mut i: usize = 0;
        while i < size
            invariant
                i <= size,
                data@ == Seq::new(i as nat, |j: int| 0u8),
            decreases size - i,
        {
            data.push(0);
            i += 1;
        }
        Self { packet_type: ptype, h2: DEFAULT_H2, h3: DEFAULT_H3, data, checksum: 0 }
    }

    /// Reads the frame at the start of `bytes`. The result is `decode` of the
    /// bytes: the frame, or the first of the four faults that applies.
    pub fn from_bytes(bytes: &[u8]) -> (result: Result<Self, PacketError>)
        ensures
            match result {
                Ok(packet) => decode(bytes@) == Ok::<Frame, PacketError>(packet@),
                Err(e) => decode(bytes@) == Err::<Frame, PacketError>(e),
            },
    {
        if bytes.len() < MIN_PACKET_SIZE {
            return Err(PacketError::TooShort);
        }
        if bytes[0] != START_MARKER {
            return Err(PacketError::BadMarker);
        }
        let len: usize = bytes[4] as usize;
        if bytes.len() - MIN_PACKET_SIZE < len {
            return Err(PacketError::LengthMismatch);
        }
        let mut data: Vec<u8> = Vec::new();
        let mut i: usize = 0;
        while i < len
            invariant
                i <= len <= 255,
                5 + len < bytes@.len(),
                data@ == bytes@.subrange(5, 5 + i),
            decreases len - i,
        {
            data.push(bytes[5 + i]);
            i += 1;
        }
        let packet = Self {
            packet_type: bytes[1],
            h2: bytes[2],
            h3: bytes[3],
            data,
            checksum: bytes[5 + len],
        };
        if !packet.check_checksum() {
            return Err(PacketError::ChecksumMismatch);
        }
        Ok(packet)
    }

    /// Number of bytes of the frame on the wire.
    pub fn packet_size(&self) -> (size: usize)
        requires
            self@.data.len() + 6 <= usize::MAX,
        ensures
            size == self@.encoding().len(),
    {
        MIN_PACKET_SIZE + self.data.len()
    }

    /// The frame's bytes on the wire, with the checksum field as it stands.
    pub fn to_bytes(&self) -> (bytes: Vec<u8>)
        ensures
            bytes@ == self@.encoding(),
    {
        let mut bytes: Vec<u8> = Vec::new();
        bytes.push(START_MARKER);
        bytes.push(self.packet_type);
        bytes.push(self.h2);
        bytes.push(self.h3);
        bytes.push((self.data.len() % 256) as u8);
        assert(bytes@ =~= self@.header());
        let mut i: usize = 0;
        while i < self.data.len()
            invariant
                i <= self.data.len(),
                bytes@ == self@.header() + self.data@.take(i as int),
            decreases self.data.len() - i,
        {
            bytes.push(self.data[i]);
            i += 1;
        }
        assert(self.data@.take(i as int) =~= self.data@);
        bytes.push(self.checksum);
        bytes
    }

    /// The frame's bytes on the wire with the checksum that belongs to them,
    /// whatever the checksum field holds.
    pub fn encode(&self) -> (bytes: Vec<u8>)
        ensures
            bytes@ == self@.sealed().encoding(),
    {
        let mut bytes = self.to_bytes();
        let last = bytes.len() - 1;
        bytes.set(last, self.compute_checksum());
        assert(bytes@ =~= self@.sealed().encoding());
        bytes
    }

    /// The checksum that belongs to header and payload, whatever the checksum
    /// field holds.
    pub fn compute_checksum(&self) -> (sum: u8)
        ensures
            sum == self@.expected_checksum(),
    {
        let mut acc: u8 = START_MARKER;
        acc = acc.wrapping_add(self.packet_type);
        acc = acc.wrapping_add(self.h2);
        acc = acc.wrapping_add(self.h3);
        acc = acc.wrapping_add((self.data.len() % 256) as u8);
        proof {
            lemma_header_sum(self@);
            assert(self@.header() + self.data@.take(0) =~= self@.header());
        }
        let mut i: usize = 0;
        while i < self.data.len()
            invariant
                i <= self.data.len(),
                acc as int == byte_sum(self@.header() + self.data@.take(i as int)) % 256,
            decreases self.data.len() - i,
        {
            proof {
                let before = self@.header() + self.data@.take(i as int);
                lemma_byte_sum_push(before, self.data@[i as int]);
                assert(before.push(self.data@[i as int]) =~= self@.header() + self.data@.take(
                    i as int + 1,
                ));
            }
            acc = acc.wrapping_add(self.data[i]);
            i += 1;
        }
        assert(self.data@.take(i as int) =~= self.data@);
        START_MARKER.wrapping_sub(acc)
    }

    /// Whether the checksum field holds the checksum that belongs to the frame.
    pub fn check_checksum(&self) -> (ok: bool)
        ensures
            ok == (self@.checksum == self@.expected_checksum()),
    {
        self.checksum == self.compute_checksum()
    }

    /// Writes the checksum that belongs to the frame into its checksum field.
    pub fn set_checksum(&mut self)
        ensures
            final(self)@ == old(self)@.sealed(),
    {
        self.checksum = self.compute_checksum();
    }
}

/// A frame whose length fits and whose checksum is set reads back from its
/// own bytes as itself.
pub proof fn lemma_encode_decode(f: Frame)
    requires
        f.valid(),
    ensures
        decode(f.encoding()) == Ok::<Frame, PacketError>(f),
{
    let bytes = f.encoding();
    assert(bytes.subrange(5, 5 + bytes[4]) =~= f.data);
}

/// The bytes that `encode` gives for a frame whose length fits read back as
/// the frame with its checksum set, whatever its checksum field held.
pub proof fn lemma_sealed_round_trip(f: Frame)
    requires
        f.fits(),
    ensures
        f.sealed().valid(),
        decode(f.sealed().encoding()) == Ok::<Frame, PacketError>(f.sealed()),
{
    assert(f.sealed().header() =~= f.header());
    lemma_encode_decode(f.sealed());
}

/// What reads as a frame is that frame's bytes, followed by whatever was
/// ignored; and the frame read is valid.
pub proof fn lemma_decode_encode(bytes: Seq<u8>)
    requires
        decode(bytes) is Ok,
    ensures
        decode(bytes)->Ok_0.valid(),
        decode(bytes)->Ok_0.encoding() == bytes.take(6 + bytes[4]),
{
    let f = decode(bytes)->Ok_0;
    assert(f.encoding() =~= bytes.take(6 + bytes[4]));
}

/// Changing one byte of a valid frame's bytes makes them unreadable, with
/// one exception: a length byte made smaller, which moves the place where the
/// checksum is looked for. A changed marker is a bad marker, a length byte
/// made larger a length mismatch, any other change a checksum mismatch.
pub proof fn lemma_corruption_rejected(f: Frame, i: int, b: u8)
    requires
        f.valid(),
        0 <= i < f.encoding().len(),
        b != f.encoding()[i],
        i == 4 ==> b > f.encoding()[4],
    ensures
        decode(f.encoding().update(i, b)) == Err::<Frame, PacketError>(
            if i == 0 {
                PacketError::BadMarker
            } else if i == 4 {
                PacketError::LengthMismatch
            } else {
                PacketError::ChecksumMismatch
            },
        ),
{
    let bytes = f.encoding();
    let bad = bytes.update(i, b);
    let n = f.data.len() as int;
    if i == 0 || i == 4 {
    } else {
        let g = Frame {
            packet_type: bad[1],
            h2: bad[2],
            h3: bad[3],
            data: bad.subrange(5, 5 + n),
            checksum: bad[5 + n],
        };
        let body = f.header() + f.data;
        if i == 5 + n {
            assert(g.data =~= f.data);
            assert(g.header() =~= f.header());
        } else {
            assert(g.header() + g.data =~= body.update(i, b));
            lemma_byte_sum_update(body, i, b);
            let s = byte_sum(body);
            let d = b - body[i];
            assert(((0xfc - s) % 256) != ((0xfc - (s + d)) % 256)) by {
                assert(-256 < d < 256 && d != 0);
                if (0xfc - s) % 256 == (0xfc - (s + d)) % 256 {
                    let x = 0xfc - s;
                    assert(x == 256 * (x / 256) + x % 256);
                    assert(x - d == 256 * ((x - d) / 256) + (x - d) % 256);
                    assert(d == 256 * (x / 256 - (x - d) / 256));
                }
            }
        }
    }
}

} // verus!
