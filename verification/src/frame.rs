//! The frame codec: a fixed header of fourteen bytes, then the payload.
//!
//! The two numbers of the header are written in the byte order of the host.
//! Every function here exists in two forms: one that takes the byte order,
//! and one that uses that of the machine it runs on.

use crate::error::IpcError;
use crate::text::result_view;
use vstd::prelude::*;

verus! {

/// The six bytes that open every frame: `i3-ipc`.
pub const SWAY_MAGIC_STRING: [u8; 6] = [0x69u8, 0x33u8, 0x2du8, 0x69u8, 0x70u8, 0x63u8];

/// The length of a frame header: the magic and two 32-bit numbers.
pub const HEADER_LENGTH: usize = 14;

/// The payload length beyond which a header is not believed, unless the
/// caller sets another limit: 64 MiB.
pub const DEFAULT_PAYLOAD_LIMIT: u32 = 0x0400_0000u32;

pub open spec fn magic() -> Seq<u8> {
    seq![0x69u8, 0x33u8, 0x2du8, 0x69u8, 0x70u8, 0x63u8]
}

/// The order in which the bytes of a number follow each other.
#[derive(Clone, Copy, Debug, PartialEq, Eq, Hash, Structural)]
pub enum ByteOrder {
    /// Least significant byte first.
    LittleEndian,
    /// Most significant byte first.
    BigEndian,
}

/// The four bytes of a 32-bit number.
pub open spec fn spec_word_bytes(order: ByteOrder, x: u32) -> Seq<u8> {
    let b0 = (x & 0xff) as u8;
    let b1 = ((x >> 8) & 0xff) as u8;
    let b2 = ((x >> 16) & 0xff) as u8;
    let b3 = ((x >> 24) & 0xff) as u8;
    match order {
        ByteOrder::LittleEndian => seq![b0, b1, b2, b3],
        ByteOrder::BigEndian => seq![b3, b2, b1, b0],
    }
}

/// The 32-bit number that four bytes write.
pub open spec fn spec_word(order: ByteOrder, s: Seq<u8>) -> u32
    recommends
        s.len() == 4,
{
    match order {
        ByteOrder::LittleEndian => (s[0] as u32) | (s[1] as u32) << 8 | (s[2] as u32) << 16 | (
        s[3] as u32) << 24,
        ByteOrder::BigEndian => (s[3] as u32) | (s[2] as u32) << 8 | (s[1] as u32) << 16 | (
        s[0] as u32) << 24,
    }
}

/// Four bytes written and read in one order give the number back.
pub proof fn lemma_word_round_trip(order: ByteOrder, x: u32)
    ensures
        spec_word_bytes(order, x).len() == 4,
        spec_word(order, spec_word_bytes(order, x)) == x,
{
    let b0 = (x & 0xff) as u8;
    let b1 = ((x >> 8) & 0xff) as u8;
    let b2 = ((x >> 16) & 0xff) as u8;
    let b3 = ((x >> 24) & 0xff) as u8;
    assert(x == (((x & 0xff) as u8) as u32) | ((((x >> 8) & 0xff) as u8) as u32) << 8 | ((((x
        >> 16) & 0xff) as u8) as u32) << 16 | ((((x >> 24) & 0xff) as u8) as u32) << 24)
        by (bit_vector);
}

/// Four bytes read and written in one order give the bytes back.
pub proof fn lemma_bytes_round_trip(order: ByteOrder, s: Seq<u8>)
    requires
        s.len() == 4,
    ensures
        spec_word_bytes(order, spec_word(order, s)) == s,
{
    let a = s[0];
    let b = s[1];
    let c = s[2];
    let d = s[3];
    assert({
        let x = (a as u32) | (b as u32) << 8 | (c as u32) << 16 | (d as u32) << 24;
        &&& (x & 0xff) as u8 == a
        &&& ((x >> 8) & 0xff) as u8 == b
        &&& ((x >> 16) & 0xff) as u8 == c
        &&& ((x >> 24) & 0xff) as u8 == d
    }) by (bit_vector);
    assert({
        let x = (d as u32) | (c as u32) << 8 | (b as u32) << 16 | (a as u32) << 24;
        &&& (x & 0xff) as u8 == d
        &&& ((x >> 8) & 0xff) as u8 == c
        &&& ((x >> 16) & 0xff) as u8 == b
        &&& ((x >> 24) & 0xff) as u8 == a
    }) by (bit_vector);
}

/// `u32::to_ne_bytes`: the bytes of a number as they lie in memory.
///
/// Claims only what holds on every machine: the bytes are those of the
/// number in one of the two byte orders.
#[verifier::external_body]
fn native_bytes(x: u32) -> (b: [u8; 4])
    ensures
        b@ == spec_word_bytes(ByteOrder::LittleEndian, x) || b@ == spec_word_bytes(
            ByteOrder::BigEndian,
            x,
        ),
{
    x.to_ne_bytes()
}

impl ByteOrder {
    /// The byte order of the machine that this runs on, as `told_by` reads
    /// it from the bytes of a one in memory.
    /// Which of the two it is depends on the machine, so nothing is stated
    /// of the result. What is proved of the functions that take a byte order
    /// holds for either.
    pub fn native() -> (order: ByteOrder) {
        let probe = native_bytes(1);
        ByteOrder::told_by(&probe)
    }

    /// The byte order that the four bytes of the number one tell of: least
    /// significant byte first where the one comes first.
    pub open spec fn spec_told_by(probe: Seq<u8>) -> ByteOrder
        recommends
            probe.len() == 4,
    {
        if probe[0] == 1 {
            ByteOrder::LittleEndian
        } else {
            ByteOrder::BigEndian
        }
    }

    /// Written in either byte order, the number one tells of that order.
    pub proof fn lemma_one_tells(order: ByteOrder)
        ensures
            ByteOrder::spec_told_by(spec_word_bytes(order, 1)) == order,
    {
        assert((1u32 & 0xff) as u8 == 1 && ((1u32 >> 24) & 0xff) as u8 == 0) by (bit_vector);
    }

    /// The byte order in which `probe` writes the number one. This is how
    /// the order of a machine is found from the bytes of a one in its
    /// memory.
    pub fn told_by(probe: &[u8; 4]) -> (order: ByteOrder)
        ensures
            order == ByteOrder::spec_told_by(probe@),
            probe@ == spec_word_bytes(ByteOrder::LittleEndian, 1) ==> order
                == ByteOrder::LittleEndian,
            probe@ == spec_word_bytes(ByteOrder::BigEndian, 1) ==> order == ByteOrder::BigEndian,
    {
        proof {
            ByteOrder::lemma_one_tells(ByteOrder::LittleEndian);
            ByteOrder::lemma_one_tells(ByteOrder::BigEndian);
        }
        if probe[0] == 1 {
            ByteOrder::LittleEndian
        } else {
            ByteOrder::BigEndian
        }
    }
}

/// Appends the four bytes of `x` to `out`.
fn put_word(out: &mut Vec<u8>, order: ByteOrder, x: u32)
    ensures
        final(out)@ == old(out)@ + spec_word_bytes(order, x),
{
    let b0 = (x & 0xff) as u8;
    let b1 = ((x >> 8) & 0xff) as u8;
    let b2 = ((x >> 16) & 0xff) as u8;
    let b3 = ((x >> 24) & 0xff) as u8;
    match order {
        ByteOrder::LittleEndian => {
            out.push(b0);
            out.push(b1);
            out.push(b2);
            out.push(b3);
        },
        ByteOrder::BigEndian => {
            out.push(b3);
            out.push(b2);
            out.push(b1);
            out.push(b0);
        },
    }
}

/// Reads the number that the four bytes of `bytes` from `at` on write.
fn get_word(bytes: &[u8], at: usize, order: ByteOrder) -> (x: u32)
    requires
        at + 4 <= bytes@.len(),
    ensures
        x == spec_word(order, bytes@.subrange(at as int, at + 4)),
{
    let a = bytes[at] as u32;
    let b = bytes[at + 1] as u32;
    let c = bytes[at + 2] as u32;
    let d = bytes[at + 3] as u32;
    match order {
        ByteOrder::LittleEndian => a | b << 8 | c << 16 | d << 24,
        ByteOrder::BigEndian => d | c << 8 | b << 16 | a << 24,
    }
}

/// The bytes of a request frame: the magic, the length of the payload, the
/// type code, the payload.
pub open spec fn spec_encode_request(order: ByteOrder, type_code: u32, payload: Seq<u8>) -> Seq<u8>
    recommends
        payload.len() <= u32::MAX,
{
    magic() + spec_word_bytes(order, payload.len() as u32) + spec_word_bytes(order, type_code)
        + payload
}

/// Builds the frame of a request in the given byte order.
pub fn encode_request_in(order: ByteOrder, type_code: u32, payload: &[u8]) -> (frame: Vec<u8>)
    requires
        payload@.len() <= u32::MAX,
    ensures
        frame@ == spec_encode_request(order, type_code, payload@),
{
    let mut frame: Vec<u8> = Vec::new();
    let mut i: usize = 0;
    while i < 6
        invariant
            i <= 6,
            frame@ == magic().take(i as int),
        decreases 6 - i,
    {
        frame.push(SWAY_MAGIC_STRING[i]);
        i += 1;
    }
    put_word(&mut frame, order, payload.len() as u32);
    put_word(&mut frame, order, type_code);
    let ghost head = frame@;
    let mut k: usize = 0;
    while k < payload.len()
        invariant
            k <= payload.len(),
            frame@ == head + payload@.take(k as int),
        decreases payload.len() - k,
    {
        frame.push(payload[k]);
        k += 1;
    }
    frame
}

/// Builds the frame of a request in the byte order of this machine.
///
/// Writing the frame to the transport, and flushing, is left to the caller.
pub fn encode_request(type_code: u32, payload: &[u8]) -> (frame: Vec<u8>)
    requires
        payload@.len() <= u32::MAX,
    ensures
        frame@ == spec_encode_request(ByteOrder::LittleEndian, type_code, payload@) || frame@
            == spec_encode_request(ByteOrder::BigEndian, type_code, payload@),
{
    encode_request_in(ByteOrder::native(), type_code, payload)
}

/// Builds the frame of a request where the payload is short enough to be
/// framed, and `None` where its length does not fit in 32 bits.
pub fn try_encode_request(type_code: u32, payload: &[u8]) -> (r: Option<Vec<u8>>)
    ensures
        payload@.len() > u32::MAX ==> r is None,
        payload@.len() <= u32::MAX ==> r is Some && (r.unwrap()@ == spec_encode_request(
            ByteOrder::LittleEndian,
            type_code,
            payload@,
        ) || r.unwrap()@ == spec_encode_request(ByteOrder::BigEndian, type_code, payload@)),
{
    if payload.len() > u32::MAX as usize {
        None
    } else {
        Some(encode_request(type_code, payload))
    }
}

/// What a frame header says of the frame.
#[derive(Clone, Copy, Debug, PartialEq, Eq, Hash, Structural)]
pub struct FrameHeader {
    /// The number of payload bytes that follow the header.
    pub payload_length: u32,
    /// The type of the message; see the registry.
    pub type_code: u32,
}

impl DeepView for FrameHeader {
    type V = FrameHeader;

    open spec fn deep_view(&self) -> FrameHeader {
        *self
    }
}

/// What the first bytes of a stream say, read as a frame header.
///
/// A wrong magic is a desynchronised stream, whatever follows it. A stream
/// that ends before the fourteenth byte is a failed transport.
pub open spec fn spec_decode_frame_header(order: ByteOrder, bytes: Seq<u8>) -> Result<
    FrameHeader,
    IpcError,
> {
    if bytes.len() < 6 {
        Err(IpcError::TransportError)
    } else if bytes.subrange(0, 6) != magic() {
        Err(IpcError::ProtocolDesync)
    } else if bytes.len() < 14 {
        Err(IpcError::TransportError)
    } else {
        Ok(
            FrameHeader {
                payload_length: spec_word(order, bytes.subrange(6, 10)),
                type_code: spec_word(order, bytes.subrange(10, 14)),
            },
        )
    }
}

/// Whether `bytes` begins with the magic.
fn has_magic(bytes: &[u8]) -> (r: bool)
    requires
        bytes@.len() >= 6,
    ensures
        r == (bytes@.subrange(0, 6) == magic()),
{
    let mut i: usize = 0;
    while i < 6
        invariant
            i <= 6,
            bytes@.len() >= 6,
            forall|k: int| 0 <= k < i ==> bytes@[k] == magic()[k],
        decreases 6 - i,
    {
        if bytes[i] != SWAY_MAGIC_STRING[i] {
            return false;
        }
        i += 1;
    }
    assert(bytes@.subrange(0, 6) =~= magic());
    true
}

/// Reads a frame header, written in the given byte order, from the bytes
/// that the transport gave for it.
pub fn decode_frame_header_in(order: ByteOrder, bytes: &[u8]) -> (r: Result<FrameHeader, IpcError>)
    ensures
        r == spec_decode_frame_header(order, bytes@),
{
    if bytes.len() < 6 {
        return Err(IpcError::TransportError);
    }
    if !has_magic(bytes) {
        return Err(IpcError::ProtocolDesync);
    }
    if bytes.len() < 14 {
        return Err(IpcError::TransportError);
    }
    let payload_length = get_word(bytes, 6, order);
    let type_code = get_word(bytes, 10, order);
    Ok(FrameHeader { payload_length, type_code })
}

/// Reads a frame header, written in the byte order of this machine, from the
/// bytes that the transport gave for it.
pub fn decode_frame_header(bytes: &[u8]) -> (r: Result<FrameHeader, IpcError>)
    ensures
        r == spec_decode_frame_header(ByteOrder::LittleEndian, bytes@) || r
            == spec_decode_frame_header(ByteOrder::BigEndian, bytes@),
        bytes@.len() >= 6 && bytes@.subrange(0, 6) != magic() ==> r == Err::<
            FrameHeader,
            IpcError,
        >(IpcError::ProtocolDesync),
{
    decode_frame_header_in(ByteOrder::native(), bytes)
}

/// How many payload bytes to read after a header: the length that the header
/// gives, unless it is beyond the limit.
pub open spec fn spec_payload_size(header: FrameHeader, limit: u32) -> Result<usize, IpcError> {
    if header.payload_length > limit {
        Err(IpcError::ProtocolDesync)
    } else {
        Ok(header.payload_length as usize)
    }
}

/// Checks the length that a header gives against the limit, before anything
/// is allocated for the payload.
pub fn payload_size(header: &FrameHeader, limit: u32) -> (r: Result<usize, IpcError>)
    ensures
        r == spec_payload_size(*header, limit),
        r matches Ok(n) ==> n == header.payload_length,
{
    if header.payload_length > limit {
        Err(IpcError::ProtocolDesync)
    } else {
        Ok(header.payload_length as usize)
    }
}

/// Takes what the transport gave for a payload of `length` bytes: the
/// payload, or a failed transport where the stream ended early.
pub fn read_payload(received: Vec<u8>, length: usize) -> (r: Result<Vec<u8>, IpcError>)
    ensures
        received@.len() >= length ==> r is Ok && r.unwrap()@ == received@.take(length as int),
        received@.len() < length ==> r == Err::<Vec<u8>, IpcError>(IpcError::TransportError),
{
    let mut received = received;
    if received.len() < length {
        Err(IpcError::TransportError)
    } else {
        received.truncate(length);
        Ok(received)
    }
}

/// One message off the stream.
#[derive(Clone, Debug, PartialEq, Eq)]
pub struct Frame {
    pub type_code: u32,
    pub payload: Vec<u8>,
}

pub struct FrameView {
    pub type_code: u32,
    pub payload: Seq<u8>,
}

impl View for Frame {
    type V = FrameView;

    open spec fn view(&self) -> FrameView {
        FrameView { type_code: self.type_code, payload: self.payload@ }
    }
}

impl DeepView for Frame {
    type V = FrameView;

    open spec fn deep_view(&self) -> FrameView {
        self@
    }
}

/// The first frame of a stream: its header, then as many bytes as the header
/// says, if that is within the limit and the stream holds them.
pub open spec fn spec_decode_frame(order: ByteOrder, limit: u32, bytes: Seq<u8>) -> Result<
    FrameView,
    IpcError,
> {
    match spec_decode_frame_header(order, bytes) {
        Err(e) => Err(e),
        Ok(header) => {
            if header.payload_length > limit {
                Err(IpcError::ProtocolDesync)
            } else if bytes.len() < 14 + header.payload_length {
                Err(IpcError::TransportError)
            } else {
                Ok(
                    FrameView {
                        type_code: header.type_code,
                        payload: bytes.subrange(14, 14 + header.payload_length),
                    },
                )
            }
        },
    }
}

/// Reads the first frame of `bytes`, written in the given byte order.
pub fn decode_frame_in(order: ByteOrder, limit: u32, bytes: &[u8]) -> (r: Result<Frame, IpcError>)
    ensures
        result_view(r) == spec_decode_frame(order, limit, bytes@),
{
    let header = decode_frame_header_in(order, bytes)?;
    let size = payload_size(&header, limit)?;
    if bytes.len() - 14 < size {
        return Err(IpcError::TransportError);
    }
    let mut payload: Vec<u8> = Vec::new();
    let mut i: usize = 0;
    while i < size
        invariant
            i <= size,
            14 + size <= bytes@.len() <= usize::MAX,
            payload@ == bytes@.subrange(14, 14 + i),
        decreases size - i,
    {
        payload.push(bytes[14 + i]);
        i += 1;
    }
    Ok(Frame { type_code: header.type_code, payload })
}

/// Reads the first frame of `bytes`, written in the byte order of this
/// machine.
pub fn decode_frame(limit: u32, bytes: &[u8]) -> (r: Result<Frame, IpcError>)
    ensures
        result_view(r) == spec_decode_frame(ByteOrder::LittleEndian, limit, bytes@) || result_view(
            r,
        ) == spec_decode_frame(ByteOrder::BigEndian, limit, bytes@),
{
    decode_frame_in(ByteOrder::native(), limit, bytes)
}

/// A frame that was encoded decodes to its type code and payload, whatever
/// follows it on the stream, as long as one byte order is used for both and
/// the payload is within the limit.
pub proof fn lemma_frame_round_trip(
    order: ByteOrder,
    limit: u32,
    type_code: u32,
    payload: Seq<u8>,
    rest: Seq<u8>,
)
    requires
        payload.len() <= limit,
    ensures
        spec_decode_frame(order, limit, spec_encode_request(order, type_code, payload) + rest)
            == Ok::<FrameView, IpcError>(FrameView { type_code, payload }),
{
    let length = payload.len() as u32;
    let frame = spec_encode_request(order, type_code, payload);
    let bytes = frame + rest;
    lemma_word_round_trip(order, length);
    lemma_word_round_trip(order, type_code);
    assert(bytes.subrange(0, 6) =~= magic());
    assert(bytes.subrange(14, 14 + length) =~= payload);
}

/// A frame that decodes is there on the stream as it would be encoded: the
/// stream begins with the encoding of what was decoded.
pub proof fn lemma_decoded_frame_is_encoded(order: ByteOrder, limit: u32, bytes: Seq<u8>)
    requires
        spec_decode_frame(order, limit, bytes) is Ok,
    ensures
        ({
            let frame = spec_decode_frame(order, limit, bytes).unwrap();
            &&& frame.payload.len() <= limit
            &&& 14 + frame.payload.len() <= bytes.len()
            &&& spec_encode_request(order, frame.type_code, frame.payload) == bytes.take(
                14 + frame.payload.len() as int,
            )
        }),
{
    let frame = spec_decode_frame(order, limit, bytes).unwrap();
    let header = spec_decode_frame_header(order, bytes).unwrap();
    let length = header.payload_length;
    lemma_bytes_round_trip(order, bytes.subrange(6, 10));
    lemma_bytes_round_trip(order, bytes.subrange(10, 14));
    let encoded = spec_encode_request(order, frame.type_code, frame.payload);
    let taken = bytes.take(14 + frame.payload.len() as int);
    assert forall|i: int| 0 <= i < encoded.len() implies encoded[i] == taken[i] by {
        if i < 6 {
            assert(bytes.subrange(0, 6)[i] == magic()[i]);
        } else if i < 10 {
            assert(bytes.subrange(6, 10)[i - 6] == bytes[i]);
        } else if i < 14 {
            assert(bytes.subrange(10, 14)[i - 10] == bytes[i]);
        } else {
            assert(bytes.subrange(14, 14 + length)[i - 14] == bytes[i]);
        }
    }
    assert(encoded =~= taken);
}

/// A frame is fourteen bytes longer than its payload.
pub proof fn lemma_frame_length(order: ByteOrder, type_code: u32, payload: Seq<u8>)
    ensures
        spec_encode_request(order, type_code, payload).len() == 14 + payload.len(),
{
}

/// A stream that does not begin with the magic is desynchronised, whatever
/// else it holds.
pub proof fn lemma_wrong_magic_desyncs(order: ByteOrder, limit: u32, bytes: Seq<u8>)
    requires
        bytes.len() >= 6,
        bytes.subrange(0, 6) != magic(),
    ensures
        spec_decode_frame_header(order, bytes) == Err::<FrameHeader, IpcError>(
            IpcError::ProtocolDesync,
        ),
        spec_decode_frame(order, limit, bytes) == Err::<FrameView, IpcError>(
            IpcError::ProtocolDesync,
        ),
{
}

} // verus!
