//! A frame: a header followed by an opaque body.
use vstd::prelude::*;
use crate::error::DecodeError;
use crate::flags::flags_valid;
use crate::header::{
    decode_header_spec, encode_header_spec, lemma_header_round_trip, FrameHeaderV1, HeaderView,
    HEADER_LEN_V1, VERSION_V1,
};

verus! {

/// One protocol message: a header and the bytes that follow it.
#[derive(Clone, Debug, PartialEq, Eq)]
pub struct FrameV1 {
    pub header: FrameHeaderV1,
    pub body: Vec<u8>,
}

/// A frame as plain values.
pub struct FrameView {
    pub header: HeaderView,
    pub body: Seq<u8>,
}

impl View for FrameV1 {
    type V = FrameView;

    open spec fn view(&self) -> FrameView {
        FrameView { header: self.header@, body: self.body@ }
    }
}

/// The bytes that encode a frame: its header, then its body unchanged.
pub open spec fn encode_frame_spec(f: FrameView) -> Seq<u8> {
    encode_header_spec(f.header) + f.body
}

/// What decoding `b` as a frame gives: the header's error unchanged, or
/// the header with every byte after it as the body.
pub open spec fn decode_frame_spec(b: Seq<u8>) -> Result<FrameView, DecodeError> {
    match decode_header_spec(b) {
        Ok(h) => Ok(FrameView { header: h, body: b.subrange(HEADER_LEN_V1 as int, b.len() as int) }),
        Err(e) => Err(e),
    }
}

impl FrameV1 {
    /// The header's 21 bytes followed by the body.
    pub fn encode(&self) -> (r: Vec<u8>)
        requires
            HEADER_LEN_V1 + self.body@.len() <= usize::MAX,
        ensures
            r@ == encode_frame_spec(self@),
            r@.len() == HEADER_LEN_V1 + self.body@.len(),
    {
        let mut out = self.header.encode();
        let ghost head = out@;
        let mut i: usize = 0;
        while i < self.body.len()
            invariant
                i <= self.body@.len(),
                out@ == head + self.body@.take(i as int),
            decreases self.body@.len() - i,
        {
            out.push(self.body[i]);
            assert(self.body@.take(i + 1) =~= self.body@.take(i as int).push(self.body@[i as int]));
            i = i + 1;
        }
        assert(self.body@.take(self.body@.len() as int) =~= self.body@);
        out
    }

    /// Decodes a frame: the header from the first 21 bytes, with its error
    /// passed on unchanged, and the rest of `input` as the body, which may
    /// be empty.
    pub fn decode(input: &[u8]) -> (r: Result<Self, DecodeError>)
        ensures
            match r {
                Ok(f) => decode_frame_spec(input@) == Ok::<FrameView, DecodeError>(f@),
                Err(e) => decode_frame_spec(input@) == Err::<FrameView, DecodeError>(e),
            },
    {
        let header = match FrameHeaderV1::decode(input) {
            Ok(h) => h,
            Err(e) => {
                return Err(e);
            },
        };
        let mut body: Vec<u8> = Vec::new();
        let mut i: usize = HEADER_LEN_V1;
        while i < input.len()
            invariant
                HEADER_LEN_V1 <= i <= input@.len(),
                body@ == input@.subrange(HEADER_LEN_V1 as int, i as int),
            decreases input@.len() - i,
        {
            body.push(input[i]);
            assert(input@.subrange(HEADER_LEN_V1 as int, i + 1) =~= input@.subrange(
                HEADER_LEN_V1 as int,
                i as int,
            ).push(input@[i as int]));
            i = i + 1;
        }
        Ok(FrameV1 { header, body })
    }
}

/// Decoding the encoding of a frame gives that frame back, for every frame
/// whose header has the supported version and for every body, the empty
/// one included. A frame decoded from those bytes has the same header and
/// the same body bytes.
pub proof fn lemma_frame_round_trip(f: FrameV1)
    requires
        f.header.version == VERSION_V1,
        flags_valid(f.header.flags@),
    ensures
        decode_frame_spec(encode_frame_spec(f@)) == Ok::<FrameView, DecodeError>(f@),
        forall|g: FrameV1|
            decode_frame_spec(encode_frame_spec(f@)) == Ok::<FrameView, DecodeError>(#[trigger] g@)
                ==> g.header == f.header && g.body@ == f.body@,
{
    let hb = encode_header_spec(f.header@);
    let b = encode_frame_spec(f@);
    lemma_header_round_trip(f.header);
    assert(b.subrange(0, HEADER_LEN_V1 as int) =~= hb);
    assert(b.subrange(5, 13) =~= hb.subrange(5, 13));
    assert(b.subrange(13, 21) =~= hb.subrange(13, 21));
    assert(decode_header_spec(b) == decode_header_spec(hb));
    assert(b.subrange(HEADER_LEN_V1 as int, b.len() as int) =~= f.body@);
    assert forall|g: FrameV1|
        decode_frame_spec(b) == Ok::<FrameView, DecodeError>(#[trigger] g@) implies g.header == f.header
        && g.body@ == f.body@ by {
        f.header.lemma_view_injective(g.header);
    }
}

} // verus!
