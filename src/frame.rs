//! Wire framing of the sensor protocol.
//!
//! A frame travels as `header(3) ++ size_le(2) ++ payload(size) ++ checksum(1)`,
//! where the header is a fixed magic value and the checksum is the XOR of the
//! two size bytes and every payload byte.
use vstd::prelude::*;

verus! {

/// First byte of the frame header.
pub const MAGIC_0: u8 = 0x5A;

/// Second byte of the frame header.
pub const MAGIC_1: u8 = 0x77;

/// Third byte of the frame header.
pub const MAGIC_2: u8 = 0xFF;

/// Bytes a frame adds around its payload: header, size field and checksum.
pub const FRAME_OVERHEAD: u16 = 6;

/// Ways in which encoding or validating a frame can fail.
#[derive(Debug, Clone, Copy, PartialEq, Eq, Structural)]
pub enum FrameError {
    /// The payload is longer than the 16-bit size field can describe.
    PayloadTooLarge,
    /// The first three bytes are not the magic header.
    BadMagic,
    /// The frame does not carry the payload size that the caller expects.
    BadSize,
    /// The trailing byte is not the XOR of the size field and the payload.
    BadChecksum,
}

/// One protocol message.
#[derive(Debug, Clone, PartialEq, Eq)]
pub struct Frame {
    pub header: [u8; 3],
    pub size: u16,
    pub payload: Vec<u8>,
    pub checksum: u8,
}

/// The magic header as a sequence.
pub open spec fn magic() -> Seq<u8> {
    seq![MAGIC_0, MAGIC_1, MAGIC_2]
}

/// The little-endian encoding of a 16-bit size.
pub open spec fn size_bytes(n: u16) -> Seq<u8> {
    seq![(n % 256) as u8, (n / 256) as u8]
}

/// The 16-bit value that two little-endian bytes encode.
pub open spec fn le_u16(lo: u8, hi: u8) -> int {
    lo as int + 256 * hi as int
}

/// XOR of all bytes of `s` (zero for the empty sequence).
pub open spec fn xor_all(s: Seq<u8>) -> u8
    decreases s.len(),
{
    if s.len() == 0 {
        0u8
    } else {
        xor_all(s.drop_last()) ^ s.last()
    }
}

/// The checksum of a frame with the given size field and payload.
pub open spec fn frame_checksum(size: u16, payload: Seq<u8>) -> u8 {
    xor_all(size_bytes(size) + payload)
}

/// The bytes that a frame with these fields occupies on the wire.
pub open spec fn wire_of(f: Frame) -> Seq<u8> {
    f.header@ + size_bytes(f.size) + f.payload@ + seq![f.checksum]
}

/// The wire image of the frame that encodes `p`.
pub open spec fn wire_for(p: Seq<u8>) -> Seq<u8> {
    magic() + size_bytes(p.len() as u16) + p + seq![frame_checksum(p.len() as u16, p)]
}

/// What validating `b` against an expected payload size yields: the payload,
/// or the first violation found. The header is checked first, then the
/// checksum over the bytes between header and trailing byte, then the size.
pub open spec fn decode_spec(b: Seq<u8>, expected: u16) -> Result<Seq<u8>, FrameError> {
    if b.len() < 3 || b.subrange(0, 3) != magic() {
        Err(FrameError::BadMagic)
    } else if b.len() < 6 {
        Err(FrameError::BadSize)
    } else if xor_all(b.subrange(3, b.len() - 1)) != b.last() {
        Err(FrameError::BadChecksum)
    } else if le_u16(b[3], b[4]) != expected as int || b.len() != expected as int + 6 {
        Err(FrameError::BadSize)
    } else {
        Ok(b.subrange(5, b.len() - 1))
    }
}

impl Frame {
    /// A frame is well formed when its header is the magic value, its size
    /// field is the payload length and its checksum matches.
    pub open spec fn wf(&self) -> bool {
        &&& self.header@ == magic()
        &&& self.size as int == self.payload@.len()
        &&& self.checksum == frame_checksum(self.size, self.payload@)
    }

    /// The checksum that the size field and payload of this frame call for.
    pub fn calculate_checksum(&self) -> (r: u8)
        ensures
            r == frame_checksum(self.size, self.payload@),
    {
        checksum(self.size, self.payload.as_slice())
    }

    /// Serializes the frame: header, little-endian size, payload, checksum.
    pub fn as_bytes(&self) -> (r: Vec<u8>)
        ensures
            r@ == wire_of(*self),
            self.wf() ==> r@.len() == self.size as int + 6,
    {
        let mut out: Vec<u8> = Vec::new();
        out.push(self.header[0]);
        out.push(self.header[1]);
        out.push(self.header[2]);
        out.push((self.size % 256) as u8);
        out.push((self.size / 256) as u8);
        let ghost prefix = out@;
        let mut i: usize = 0;
        while i < self.payload.len()
            invariant
                i <= self.payload@.len(),
                out@ == prefix + self.payload@.subrange(0, i as int),
            decreases self.payload@.len() - i,
        {
            out.push(self.payload[i]);
            i = i + 1;
            assert(out@ =~= prefix + self.payload@.subrange(0, i as int));
        }
        out.push(self.checksum);
        assert(self.payload@.subrange(0, i as int) =~= self.payload@);
        assert(out@ =~= wire_of(*self));
        out
    }
}

/// XOR of the two size bytes and every byte of `payload`.
pub fn checksum(size: u16, payload: &[u8]) -> (r: u8)
    ensures
        r == frame_checksum(size, payload@),
{
    let lo = (size % 256) as u8;
    let hi = (size / 256) as u8;
    let ghost sb = size_bytes(size);
    proof {
        assert(sb.drop_last() =~= seq![lo]);
        assert(seq![lo].drop_last() =~= Seq::<u8>::empty());
        assert(0u8 ^ lo == lo) by (bit_vector);
        reveal_with_fuel(xor_all, 3);
    }
    let mut acc: u8 = lo ^ hi;
    let mut i: usize = 0;
    while i < payload.len()
        invariant
            i <= payload@.len(),
            sb == size_bytes(size),
            acc == xor_all(sb + payload@.subrange(0, i as int)),
        decreases payload@.len() - i,
    {
        proof {
            let s = sb + payload@.subrange(0, i as int + 1);
            assert(s.drop_last() =~= sb + payload@.subrange(0, i as int));
        }
        acc = acc ^ payload[i];
        i = i + 1;
    }
    assert(payload@.subrange(0, i as int) =~= payload@);
    acc
}

/// XOR of all bytes of a slice.
pub fn xor_fold(bytes: &[u8]) -> (r: u8)
    ensures
        r == xor_all(bytes@),
{
    let mut acc: u8 = 0;
    let mut i: usize = 0;
    while i < bytes.len()
        invariant
            i <= bytes@.len(),
            acc == xor_all(bytes@.subrange(0, i as int)),
        decreases bytes@.len() - i,
    {
        proof {
            let s = bytes@.subrange(0, i as int + 1);
            assert(s.drop_last() =~= bytes@.subrange(0, i as int));
        }
        acc = acc ^ bytes[i];
        i = i + 1;
    }
    assert(bytes@.subrange(0, i as int) =~= bytes@);
    acc
}

/// Encodes `payload` into a frame: magic header, size equal to the payload
/// length, and the XOR checksum. Fails exactly when the payload does not fit
/// the 16-bit size field.
pub fn new(payload: Vec<u8>) -> (r: Result<Frame, FrameError>)
    ensures
        payload@.len() > u16::MAX ==> r == Err::<Frame, FrameError>(FrameError::PayloadTooLarge),
        payload@.len() <= u16::MAX ==> (r matches Ok(f) && f.wf() && f.payload@ == payload@),
{
    if payload.len() > 65535 {
        return Err(FrameError::PayloadTooLarge);
    }
    let size = payload.len() as u16;
    let c = checksum(size, payload.as_slice());
    let f = Frame { header: [MAGIC_0, MAGIC_1, MAGIC_2], size, payload, checksum: c };
    assert(f.header@ =~= magic());
    Ok(f)
}

/// Validates received bytes against the payload size the caller expects and
/// returns the frame they carry. The input is only read.
pub fn decode(bytes: &[u8], expected: u16) -> (r: Result<Frame, FrameError>)
    ensures
        match r {
            Ok(f) => decode_spec(bytes@, expected) == Ok::<Seq<u8>, FrameError>(f.payload@)
                && f.wf() && f.size == expected,
            Err(e) => decode_spec(bytes@, expected) == Err::<Seq<u8>, FrameError>(e),
        },
{
    let n = bytes.len();
    if n < 3 || bytes[0] != MAGIC_0 || bytes[1] != MAGIC_1 || bytes[2] != MAGIC_2 {
        proof {
            if n >= 3 {
                assert(bytes@.subrange(0, 3)[0] == bytes@[0]);
                assert(bytes@.subrange(0, 3)[1] == bytes@[1]);
                assert(bytes@.subrange(0, 3)[2] == bytes@[2]);
            }
        }
        return Err(FrameError::BadMagic);
    }
    assert(bytes@.subrange(0, 3) =~= magic());
    if n < 6 {
        return Err(FrameError::BadSize);
    }
    let body = vstd::slice::slice_subrange(bytes, 3, n - 1);
    if xor_fold(body) != bytes[n - 1] {
        return Err(FrameError::BadChecksum);
    }
    let size: u16 = bytes[3] as u16 + 256 * (bytes[4] as u16);
    if size != expected || n != expected as usize + 6 {
        return Err(FrameError::BadSize);
    }
    let payload = vstd::slice::slice_to_vec(vstd::slice::slice_subrange(bytes, 5, n - 1));
    let f = Frame { header: [MAGIC_0, MAGIC_1, MAGIC_2], size, payload, checksum: bytes[n - 1] };
    proof {
        assert(f.header@ =~= magic());
        assert(size % 256 == bytes@[3] && size / 256 == bytes@[4]);
        assert(size_bytes(size) + f.payload@ =~= bytes@.subrange(3, n - 1));
    }
    Ok(f)
}

/// Flipping the bits `m` of one byte flips the same bits of the XOR of all bytes.
proof fn lemma_xor_all_update(s: Seq<u8>, j: int, m: u8)
    requires
        0 <= j < s.len(),
    ensures
        xor_all(s.update(j, s[j] ^ m)) == xor_all(s) ^ m,
    decreases s.len(),
{
    let t = s.update(j, s[j] ^ m);
    let a = xor_all(s.drop_last());
    let l = s.last();
    if j == s.len() - 1 {
        assert(t.drop_last() =~= s.drop_last());
        assert(a ^ (l ^ m) == (a ^ l) ^ m) by (bit_vector);
    } else {
        assert(t.drop_last() =~= s.drop_last().update(j, s[j] ^ m));
        lemma_xor_all_update(s.drop_last(), j, m);
        assert((a ^ m) ^ l == (a ^ l) ^ m) by (bit_vector);
    }
}

/// The bytes of a well-formed frame's wire image, past the header.
proof fn lemma_wire_layout(f: Frame)
    requires
        f.wf(),
    ensures
        wire_of(f).len() == f.size as int + 6,
        wire_of(f).subrange(0, 3) == magic(),
        wire_of(f).subrange(3, wire_of(f).len() - 1) == size_bytes(f.size) + f.payload@,
        wire_of(f).subrange(5, wire_of(f).len() - 1) == f.payload@,
        wire_of(f).last() == f.checksum,
        le_u16(wire_of(f)[3], wire_of(f)[4]) == f.size as int,
{
    let w = wire_of(f);
    assert(w.subrange(0, 3) =~= magic());
    assert(w.subrange(3, w.len() - 1) =~= size_bytes(f.size) + f.payload@);
    assert(w.subrange(5, w.len() - 1) =~= f.payload@);
}

/// Round trip: the wire image of a well-formed frame, such as `new` returns,
/// decodes, with its own length as the expected size, to the same payload.
pub proof fn lemma_round_trip(f: Frame)
    requires
        f.wf(),
    ensures
        wire_of(f) == wire_for(f.payload@),
        decode_spec(wire_of(f), f.payload@.len() as u16) == Ok::<Seq<u8>, FrameError>(f.payload@),
{
    lemma_wire_layout(f);
    assert(wire_of(f) =~= wire_for(f.payload@));
}

/// Flipping any one bit of the size field or of the payload in the wire image
/// of a well-formed frame makes decoding fail with `BadChecksum`, whatever
/// size is expected.
pub proof fn lemma_bit_flip_bad_checksum(f: Frame, i: int, bit: u8, expected: u16)
    requires
        f.wf(),
        3 <= i < wire_of(f).len() - 1,
        bit < 8,
    ensures
        decode_spec(wire_of(f).update(i, wire_of(f)[i] ^ (1u8 << bit)), expected)
            == Err::<Seq<u8>, FrameError>(FrameError::BadChecksum),
{
    lemma_wire_layout(f);
    let w = wire_of(f);
    let m: u8 = 1u8 << bit;
    let b = w.update(i, w[i] ^ m);
    let inner = w.subrange(3, w.len() - 1);
    assert(b.subrange(0, 3) =~= w.subrange(0, 3));
    assert(b.subrange(3, b.len() - 1) =~= inner.update(i - 3, inner[i - 3] ^ m));
    lemma_xor_all_update(inner, i - 3, m);
    let x = xor_all(inner);
    assert(bit < 8 ==> (1u8 << bit) != 0u8) by (bit_vector);
    assert(m != 0u8 ==> x ^ m != x) by (bit_vector);
    assert(xor_all(inner) == f.checksum);
    assert(b.last() == w.last());
}

/// Any wrong header byte makes decoding fail with `BadMagic`, whatever the
/// rest of the bytes hold and whatever size is expected.
pub proof fn lemma_bad_magic(b: Seq<u8>, i: int, v: u8, expected: u16)
    requires
        b.len() >= 3,
        0 <= i < 3,
        v != magic()[i],
    ensures
        decode_spec(b.update(i, v), expected) == Err::<Seq<u8>, FrameError>(FrameError::BadMagic),
{
    assert(b.update(i, v).subrange(0, 3)[i] == v);
}

/// The wire image of a well-formed frame fails with `BadSize` when decoded
/// against any other expected size.
pub proof fn lemma_size_mismatch(f: Frame, expected: u16)
    requires
        f.wf(),
        f.size != expected,
    ensures
        decode_spec(wire_of(f), expected) == Err::<Seq<u8>, FrameError>(FrameError::BadSize),
{
    lemma_wire_layout(f);
}

} // verus!
