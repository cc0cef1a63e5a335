//! The fixed-layout binary frame: a 15-byte opaque header followed by a
//! 1000-byte sample payload, decoded from a single full-size read.

use vstd::prelude::*;

verus! {

/// Length of the opaque, device-defined header that starts every frame.
pub const HEADER_LEN: usize = 15;

/// Number of one-byte waveform samples in a frame payload.
pub const PAYLOAD_LEN: usize = 1000;

/// Total size of one frame on the wire: header then payload.
pub const FRAME_LEN: usize = 1015;

/// The header segment of a raw frame: its first HEADER_LEN bytes.
pub open spec fn header_of(bytes: Seq<u8>) -> Seq<u8> {
    bytes.subrange(0, HEADER_LEN as int)
}

/// The payload segment of a raw frame: the FRAME_LEN - HEADER_LEN bytes after
/// the header.
pub open spec fn payload_of(bytes: Seq<u8>) -> Seq<u8> {
    bytes.subrange(HEADER_LEN as int, FRAME_LEN as int)
}

/// One decoded device response, its two segments held apart.
#[derive(Debug)]
pub struct Frame {
    pub header: Vec<u8>,
    pub payload: Vec<u8>,
}

impl Frame {
    /// A well-formed frame has segments of exactly the fixed wire sizes.
    pub open spec fn wf(self) -> bool {
        self.header@.len() == HEADER_LEN && self.payload@.len() == PAYLOAD_LEN
    }

    /// Whether this frame is the decoding of the raw bytes `bytes`.
    pub open spec fn decodes(self, bytes: Seq<u8>) -> bool {
        &&& bytes.len() == FRAME_LEN
        &&& self.header@ == header_of(bytes)
        &&& self.payload@ == payload_of(bytes)
    }
}

/// Decode a raw response. Exactly FRAME_LEN bytes split into header and
/// payload; any other length is a short or split frame and yields nothing.
pub fn decode_frame(bytes: &Vec<u8>) -> (r: Option<Frame>)
    ensures
        r is Some <==> bytes@.len() == FRAME_LEN,
        r matches Some(f) ==> f.wf() && f.decodes(bytes@) && bytes@ == f.header@ + f.payload@,
{
    if bytes.len() != FRAME_LEN {
        return Option::None;
    }
    let mut header: Vec<u8> = Vec::new();
    let mut i: usize = 0;
    while i < HEADER_LEN
        invariant
            i <= HEADER_LEN,
            bytes@.len() == FRAME_LEN,
            header@ == bytes@.subrange(0, i as int),
        decreases HEADER_LEN - i,
    {
        let b = bytes[i];
        header.push(b);
        proof {
            assert(header@ =~= bytes@.subrange(0, i + 1));
        }
        i = i + 1;
    }
    let mut payload: Vec<u8> = Vec::new();
    let mut j: usize = HEADER_LEN;
    while j < FRAME_LEN
        invariant
            HEADER_LEN <= j <= FRAME_LEN,
            bytes@.len() == FRAME_LEN,
            payload@ == bytes@.subrange(HEADER_LEN as int, j as int),
        decreases FRAME_LEN - j,
    {
        let b = bytes[j];
        payload.push(b);
        proof {
            assert(payload@ =~= bytes@.subrange(HEADER_LEN as int, j + 1));
        }
        j = j + 1;
    }
    let f = Frame { header, payload };
    proof {
        assert(bytes@ =~= f.header@ + f.payload@);
    }
    Option::Some(f)
}

/// Of any full-size raw frame, the header is exactly HEADER_LEN bytes, the
/// payload exactly PAYLOAD_LEN bytes, and the two segments partition the raw
/// bytes with no overlap and no truncation.
pub proof fn lemma_frame_partition(bytes: Seq<u8>)
    requires
        bytes.len() == FRAME_LEN,
    ensures
        header_of(bytes).len() == HEADER_LEN,
        payload_of(bytes).len() == PAYLOAD_LEN,
        header_of(bytes) + payload_of(bytes) == bytes,
        forall|i: int| 0 <= i < HEADER_LEN ==> header_of(bytes)[i] == bytes[i],
        forall|i: int| 0 <= i < PAYLOAD_LEN ==> payload_of(bytes)[i] == bytes[HEADER_LEN + i],
{
    assert(header_of(bytes) + payload_of(bytes) =~= bytes);
}

} // verus!
