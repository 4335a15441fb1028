//! The fixed 21-byte frame header and its codec.
//!
//! Layout, multi-byte integers big-endian:
//! magic (2) | version (1) | message type (1) | flags (1) | device id (8) | counter (8)
use vstd::prelude::*;
use crate::error::DecodeError;
use crate::flags::{flags_valid, Flags};
use crate::msg_type::{msg_type_of, tag_of, MsgType};

verus! {

/// The marker that opens every header: "PP".
pub const MAGIC: [u8; 2] = [0x50, 0x50];

/// The one protocol version this codec decodes.
pub const VERSION_V1: u8 = 0x01;

/// The length of an encoded header.
pub const HEADER_LEN_V1: usize = 21;

/// A frame header.
#[derive(Clone, Debug, PartialEq, Eq)]
pub struct FrameHeaderV1 {
    pub version: u8,
    pub msg_type: MsgType,
    pub flags: Flags,
    pub device_id: [u8; 8],
    pub counter: u64,
}

/// A header as plain values: the flags as their byte, the device
/// identifier as a sequence.
pub struct HeaderView {
    pub version: u8,
    pub msg_type: MsgType,
    pub flags: u8,
    pub device_id: Seq<u8>,
    pub counter: u64,
}

impl View for FrameHeaderV1 {
    type V = HeaderView;

    open spec fn view(&self) -> HeaderView {
        HeaderView {
            version: self.version,
            msg_type: self.msg_type,
            flags: self.flags@,
            device_id: self.device_id@,
            counter: self.counter,
        }
    }
}

/// The eight bytes of `v`, most significant first.
pub open spec fn u64_be_bytes(v: u64) -> Seq<u8> {
    seq![
        (v >> 56u64) as u8,
        (v >> 48u64) as u8,
        (v >> 40u64) as u8,
        (v >> 32u64) as u8,
        (v >> 24u64) as u8,
        (v >> 16u64) as u8,
        (v >> 8u64) as u8,
        v as u8,
    ]
}

/// The integer whose big-endian bytes are `b[0..8]`.
pub open spec fn u64_from_be(b: Seq<u8>) -> u64
    recommends
        b.len() == 8,
{
    (b[0] as u64) << 56u64
        | (b[1] as u64) << 48u64
        | (b[2] as u64) << 40u64
        | (b[3] as u64) << 32u64
        | (b[4] as u64) << 24u64
        | (b[5] as u64) << 16u64
        | (b[6] as u64) << 8u64
        | (b[7] as u64)
}

/// The bytes that encode a header.
pub open spec fn encode_header_spec(h: HeaderView) -> Seq<u8> {
    seq![MAGIC[0], MAGIC[1], h.version, tag_of(h.msg_type), h.flags] + h.device_id
        + u64_be_bytes(h.counter)
}

/// What decoding `b` gives: the first rule broken, in wire order, or the
/// header that the first 21 bytes hold.
pub open spec fn decode_header_spec(b: Seq<u8>) -> Result<HeaderView, DecodeError> {
    if b.len() < HEADER_LEN_V1 {
        Err(DecodeError::TooShort)
    } else if b[0] != MAGIC[0] || b[1] != MAGIC[1] {
        Err(DecodeError::BadMagic)
    } else if b[2] != VERSION_V1 {
        Err(DecodeError::BadVersion(b[2]))
    } else if msg_type_of(b[3]) is None {
        Err(DecodeError::UnknownMsgType(b[3]))
    } else if !flags_valid(b[4]) {
        Err(DecodeError::ReservedFlags(b[4]))
    } else {
        Ok(
            HeaderView {
                version: b[2],
                msg_type: msg_type_of(b[3])->Some_0,
                flags: b[4],
                device_id: b.subrange(5, 13),
                counter: u64_from_be(b.subrange(13, 21)),
            },
        )
    }
}

/// Reading back the big-endian bytes of a `u64` gives that `u64`.
pub proof fn lemma_u64_be_round_trip(v: u64)
    ensures
        u64_from_be(u64_be_bytes(v)) == v,
{
    assert(((v >> 56u64) as u8 as u64) << 56u64
        | ((v >> 48u64) as u8 as u64) << 48u64
        | ((v >> 40u64) as u8 as u64) << 40u64
        | ((v >> 32u64) as u8 as u64) << 32u64
        | ((v >> 24u64) as u8 as u64) << 24u64
        | ((v >> 16u64) as u8 as u64) << 16u64
        | ((v >> 8u64) as u8 as u64) << 8u64
        | (v as u8 as u64) == v) by (bit_vector);
}

/// Decoding the encoding of a header gives that header back, for every
/// header with the supported version: whatever header the decoder builds
/// from those bytes is the one that was encoded.
pub proof fn lemma_header_round_trip(h: FrameHeaderV1)
    requires
        h.version == VERSION_V1,
        flags_valid(h.flags@),
    ensures
        decode_header_spec(encode_header_spec(h@)) == Ok::<HeaderView, DecodeError>(h@),
        forall|g: FrameHeaderV1|
            decode_header_spec(encode_header_spec(h@)) == Ok::<HeaderView, DecodeError>(#[trigger] g@)
                ==> g == h,
{
    let b = encode_header_spec(h@);
    lemma_u64_be_round_trip(h.counter);
    assert(b.subrange(5, 13) =~= h.device_id@);
    assert(b.subrange(13, 21) =~= u64_be_bytes(h.counter));
    crate::msg_type::lemma_tag_bijective();
    assert forall|g: FrameHeaderV1|
        decode_header_spec(b) == Ok::<HeaderView, DecodeError>(#[trigger] g@) implies g == h by {
        h.lemma_view_injective(g);
    }
}

/// Appends the big-endian bytes of `v` to `out`.
fn push_u64_be(out: &mut Vec<u8>, v: u64)
    ensures
        final(out)@ == old(out)@ + u64_be_bytes(v),
{
    out.push((v >> 56u64) as u8);
    out.push((v >> 48u64) as u8);
    out.push((v >> 40u64) as u8);
    out.push((v >> 32u64) as u8);
    out.push((v >> 24u64) as u8);
    out.push((v >> 16u64) as u8);
    out.push((v >> 8u64) as u8);
    out.push(v as u8);
    assert(final(out)@ =~= old(out)@ + u64_be_bytes(v));
}

impl FrameHeaderV1 {
    /// The 21 bytes of this header. The version is written as it is.
    pub fn encode(&self) -> (r: Vec<u8>)
        ensures
            r@ == encode_header_spec(self@),
            r@.len() == HEADER_LEN_V1,
    {
        let mut out: Vec<u8> = Vec::with_capacity(HEADER_LEN_V1);
        out.push(MAGIC[0]);
        out.push(MAGIC[1]);
        out.push(self.version);
        out.push(self.msg_type.to_u8());
        out.push(self.flags.bits());
        let mut i: usize = 0;
        while i < 8
            invariant
                i <= 8,
                out@ == seq![MAGIC[0], MAGIC[1], self.version, tag_of(self.msg_type), self.flags@]
                    + self.device_id@.take(i as int),
            decreases 8 - i,
        {
            out.push(self.device_id[i]);
            assert(self.device_id@.take(i + 1) =~= self.device_id@.take(i as int).push(
                self.device_id@[i as int],
            ));
            i = i + 1;
        }
        assert(self.device_id@.take(8) =~= self.device_id@);
        push_u64_be(&mut out, self.counter);
        out
    }

    /// Decodes a header from the start of `input`. The checks run in wire
    /// order (length, magic, version, message type, flags) and the first
    /// that fails is reported; bytes past the header are not read.
    pub fn decode(input: &[u8]) -> (r: Result<Self, DecodeError>)
        ensures
            match r {
                Ok(h) => decode_header_spec(input@) == Ok::<HeaderView, DecodeError>(h@),
                Err(e) => decode_header_spec(input@) == Err::<HeaderView, DecodeError>(e),
            },
    {
        if input.len() < HEADER_LEN_V1 {
            return Err(DecodeError::TooShort);
        }
        if input[0] != MAGIC[0] || input[1] != MAGIC[1] {
            return Err(DecodeError::BadMagic);
        }
        let version = input[2];
        if version != VERSION_V1 {
            return Err(DecodeError::BadVersion(version));
        }
        let msg_raw = input[3];
        let msg_type = match MsgType::from_u8(msg_raw) {
            Some(t) => t,
            None => {
                return Err(DecodeError::UnknownMsgType(msg_raw));
            },
        };
        let flags_raw = input[4];
        let flags = match Flags::new(flags_raw) {
            Ok(f) => f,
            Err(e) => {
                return Err(e);
            },
        };
        let mut device_id: [u8; 8] = [0u8; 8];
        let mut i: usize = 0;
        while i < 8
            invariant
                i <= 8,
                input@.len() >= HEADER_LEN_V1,
                forall|j: int| 0 <= j < i ==> device_id@[j] == input@[5 + j],
            decreases 8 - i,
        {
            device_id[i] = input[5 + i];
            i = i + 1;
        }
        assert(device_id@ =~= input@.subrange(5, 13));
        let counter: u64 = (input[13] as u64) << 56u64
            | (input[14] as u64) << 48u64
            | (input[15] as u64) << 40u64
            | (input[16] as u64) << 32u64
            | (input[17] as u64) << 24u64
            | (input[18] as u64) << 16u64
            | (input[19] as u64) << 8u64
            | (input[20] as u64);
        assert(counter == u64_from_be(input@.subrange(13, 21)));
        Ok(FrameHeaderV1::toggle(version, msg_type, flags, device_id, counter))
    }

    /// Builds a header from its fields.
    pub fn toggle(
        version: u8,
        msg_type: MsgType,
        flags: Flags,
        device_id: [u8; 8],
        counter: u64,
    ) -> (r: Self)
        ensures
            r.version == version,
            r.msg_type == msg_type,
            r.flags == flags,
            r.device_id == device_id,
            r.counter == counter,
    {
        Self { version, msg_type, flags, device_id, counter }
    }

    /// Two headers with the same view are the same header.
    pub proof fn lemma_view_injective(self, other: FrameHeaderV1)
        ensures
            self@ == other@ ==> self == other,
    {
        self.flags.lemma_view_injective(other.flags);
        if self@ == other@ {
            assert(self.device_id =~= other.device_id);
        }
    }
}

} // verus!
