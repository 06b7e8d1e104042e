//! The outer framing of the wire format: the 8-byte frame header, the
//! empty heartbeat frame, and the fragmentation of payloads under a
//! maximum frame size.

use vstd::prelude::*;

verus! {

/// Big-endian bytes of a 32-bit number.
pub open spec fn be32(n: u32) -> Seq<u8> {
    seq![(n >> 24) as u8, (n >> 16) as u8, (n >> 8) as u8, n as u8]
}

/// The 32-bit number read from four big-endian bytes.
pub open spec fn u32_of_be(b0: u8, b1: u8, b2: u8, b3: u8) -> u32 {
    ((b0 as u32) << 24) | ((b1 as u32) << 16) | ((b2 as u32) << 8) | (b3 as u32)
}

/// Big-endian bytes of a 64-bit number.
pub open spec fn be64(n: u64) -> Seq<u8> {
    seq![
        (n >> 56) as u8,
        (n >> 48) as u8,
        (n >> 40) as u8,
        (n >> 32) as u8,
        (n >> 24) as u8,
        (n >> 16) as u8,
        (n >> 8) as u8,
        n as u8,
    ]
}

/// The 64-bit number read from eight big-endian bytes.
pub open spec fn u64_of_be(b: Seq<u8>) -> u64
    recommends
        b.len() == 8,
{
    ((b[0] as u64) << 56) | ((b[1] as u64) << 48) | ((b[2] as u64) << 40) | ((b[3] as u64) << 32)
        | ((b[4] as u64) << 24) | ((b[5] as u64) << 16) | ((b[6] as u64) << 8) | (b[7] as u64)
}

/// Reading back the big-endian bytes of a 64-bit number gives the number.
pub proof fn lemma_be64_round_trip(n: u64)
    ensures
        u64_of_be(be64(n)) == n,
{
    assert(((((n >> 56) as u8) as u64) << 56) | ((((n >> 48) as u8) as u64) << 48) | ((((n
        >> 40) as u8) as u64) << 40) | ((((n >> 32) as u8) as u64) << 32) | ((((n
        >> 24) as u8) as u64) << 24) | ((((n >> 16) as u8) as u64) << 16) | ((((n
        >> 8) as u8) as u64) << 8) | ((n as u8) as u64) == n) by (bit_vector);
}

/// Appends the big-endian bytes of a 64-bit number.
pub fn push_be64(out: &mut Vec<u8>, n: u64)
    ensures
        final(out)@ == old(out)@ + be64(n),
{
    out.push(#[verifier::truncate] ((n >> 56) as u8));
    out.push(#[verifier::truncate] ((n >> 48) as u8));
    out.push(#[verifier::truncate] ((n >> 40) as u8));
    out.push(#[verifier::truncate] ((n >> 32) as u8));
    out.push(#[verifier::truncate] ((n >> 24) as u8));
    out.push(#[verifier::truncate] ((n >> 16) as u8));
    out.push(#[verifier::truncate] ((n >> 8) as u8));
    out.push(#[verifier::truncate] (n as u8));
    assert(final(out)@ =~= old(out)@ + be64(n));
}

/// Reads a 64-bit big-endian number at `pos`.
pub fn read_be64(b: &Vec<u8>, pos: usize) -> (r: u64)
    requires
        pos + 8 <= b@.len(),
    ensures
        r == u64_of_be(b@.subrange(pos as int, pos + 8)),
{
    // The length, read here, bounds every index below by the machine's
    // word size.
    let n = b.len();
    let r = ((b[pos] as u64) << 56) | ((b[pos + 1] as u64) << 48) | ((b[pos + 2] as u64) << 40) | ((
    b[pos + 3] as u64) << 32) | ((b[pos + 4] as u64) << 24) | ((b[pos + 5] as u64) << 16) | ((b[pos
        + 6] as u64) << 8) | (b[pos + 7] as u64);
    proof {
        let s = b@.subrange(pos as int, pos + 8);
        assert(s[0] == b@[pos as int] && s[1] == b@[pos + 1] && s[2] == b@[pos + 2] && s[3] == b@[
            pos + 3
        ] && s[4] == b@[pos + 4] && s[5] == b@[pos + 5] && s[6] == b@[pos + 6] && s[7] == b@[pos
            + 7]);
    }
    r
}

/// Big-endian bytes of a 16-bit number.
pub open spec fn be16(n: u16) -> Seq<u8> {
    seq![(n >> 8) as u8, n as u8]
}

/// The 16-bit number read from two big-endian bytes.
pub open spec fn u16_of_be(b0: u8, b1: u8) -> u16 {
    ((b0 as u16) << 8) | (b1 as u16)
}

/// Reading back the big-endian bytes of a number gives the number.
pub proof fn lemma_be32_round_trip(n: u32)
    ensures
        u32_of_be((n >> 24) as u8, (n >> 16) as u8, (n >> 8) as u8, n as u8) == n,
{
    assert(((((n >> 24) as u8) as u32) << 24) | ((((n >> 16) as u8) as u32) << 16) | ((((n
        >> 8) as u8) as u32) << 8) | ((n as u8) as u32) == n) by (bit_vector);
}

/// Reading back the big-endian bytes of a 16-bit number gives the number.
pub proof fn lemma_be16_round_trip(n: u16)
    ensures
        u16_of_be((n >> 8) as u8, n as u8) == n,
{
    assert(((((n >> 8) as u8) as u16) << 8) | ((n as u8) as u16) == n) by (bit_vector);
}

/// Appends the big-endian bytes of a 32-bit number.
pub fn push_be32(out: &mut Vec<u8>, n: u32)
    ensures
        final(out)@ == old(out)@ + be32(n),
{
    out.push(#[verifier::truncate] ((n >> 24) as u8));
    out.push(#[verifier::truncate] ((n >> 16) as u8));
    out.push(#[verifier::truncate] ((n >> 8) as u8));
    out.push(#[verifier::truncate] (n as u8));
    assert(final(out)@ =~= old(out)@ + be32(n));
}

/// Appends the big-endian bytes of a 16-bit number.
pub fn push_be16(out: &mut Vec<u8>, n: u16)
    ensures
        final(out)@ == old(out)@ + be16(n),
{
    out.push(#[verifier::truncate] ((n >> 8) as u8));
    out.push(#[verifier::truncate] (n as u8));
    assert(final(out)@ =~= old(out)@ + be16(n));
}

/// Reads a 32-bit big-endian number at `pos`.
pub fn read_be32(b: &Vec<u8>, pos: usize) -> (r: u32)
    requires
        pos + 4 <= b@.len(),
    ensures
        r == u32_of_be(b@[pos as int], b@[pos + 1], b@[pos + 2], b@[pos + 3]),
{
    // The length, read here, bounds every index below by the machine's
    // word size.
    let n = b.len();
    ((b[pos] as u32) << 24) | ((b[pos + 1] as u32) << 16) | ((b[pos + 2] as u32) << 8) | (b[pos
        + 3] as u32)
}

/// Reads a 16-bit big-endian number at `pos`.
pub fn read_be16(b: &Vec<u8>, pos: usize) -> (r: u16)
    requires
        pos + 2 <= b@.len(),
    ensures
        r == u16_of_be(b@[pos as int], b@[pos + 1]),
{
    // The length, read here, bounds every index below by the machine's
    // word size.
    let n = b.len();
    ((b[pos] as u16) << 8) | (b[pos + 1] as u16)
}

/// The type code of a protocol-tier frame.
pub const FRAME_TYPE_AMQP: u8 = 0;

/// The type code of a security-tier frame.
pub const FRAME_TYPE_SASL: u8 = 1;

/// The fixed 8-byte frame header: total size, data offset in 4-byte words,
/// frame type and the type-specific field (the channel for protocol frames).
#[derive(Debug, Clone, Copy, PartialEq, Eq, Structural)]
pub struct FrameHeader {
    pub size: u32,
    pub doff: u8,
    pub frame_type: u8,
    pub channel: u16,
}

/// The bytes of a frame header.
pub open spec fn enc_frame_header(h: FrameHeader) -> Seq<u8> {
    be32(h.size) + seq![h.doff, h.frame_type] + be16(h.channel)
}

impl FrameHeader {
    /// A well-formed header: the size covers at least the header itself and
    /// the data offset points inside the frame.
    pub open spec fn wf(self) -> bool {
        &&& self.size >= 8
        &&& self.doff >= 2
        &&& 4 * self.doff <= self.size
    }

    /// A header for a protocol frame whose body (after the plain 8-byte
    /// header) has the given length.
    pub fn amqp(channel: u16, body_len: u32) -> (r: FrameHeader)
        requires
            body_len <= u32::MAX - 8,
        ensures
            r == (FrameHeader {
                size: (8 + body_len) as u32,
                doff: 2u8,
                frame_type: FRAME_TYPE_AMQP,
                channel,
            }),
            r.wf(),
    {
        FrameHeader { size: 8 + body_len, doff: 2, frame_type: FRAME_TYPE_AMQP, channel }
    }

    /// An empty frame: a bare header used as a heartbeat.
    pub fn heartbeat(channel: u16) -> (r: FrameHeader)
        ensures
            r == (FrameHeader { size: 8u32, doff: 2u8, frame_type: FRAME_TYPE_AMQP, channel }),
            r.is_heartbeat(),
            r.wf(),
    {
        FrameHeader { size: 8, doff: 2, frame_type: FRAME_TYPE_AMQP, channel }
    }

    /// Whether this frame is an empty heartbeat frame: it carries no body
    /// and does not reach the higher layers.
    pub open spec fn is_heartbeat(self) -> bool {
        self.size == 8 && self.frame_type == FRAME_TYPE_AMQP
    }

    /// Whether this frame is an empty heartbeat frame.
    pub fn check_heartbeat(&self) -> (r: bool)
        ensures
            r == self.is_heartbeat(),
    {
        self.size == 8 && self.frame_type == FRAME_TYPE_AMQP
    }

    /// Writes the 8-byte header.
    pub fn encode(&self) -> (r: Vec<u8>)
        ensures
            r@ == enc_frame_header(*self),
            r@.len() == 8,
    {
        let mut out: Vec<u8> = Vec::new();
        push_be32(&mut out, self.size);
        out.push(self.doff);
        out.push(self.frame_type);
        push_be16(&mut out, self.channel);
        assert(out@ =~= enc_frame_header(*self));
        out
    }

    /// Reads an 8-byte header.
    pub fn decode(b: &Vec<u8>) -> (r: Option<FrameHeader>)
        ensures
            (match r {
                Some(h) => {
                    &&& b@.len() >= 8
                    &&& h.size == u32_of_be(b@[0], b@[1], b@[2], b@[3])
                    &&& h.doff == b@[4]
                    &&& h.frame_type == b@[5]
                    &&& h.channel == u16_of_be(b@[6], b@[7])
                },
                None => b@.len() < 8,
            }),
    {
        if b.len() < 8 {
            return None;
        }
        let size = read_be32(b, 0);
        let doff = b[4];
        let frame_type = b[5];
        let channel = read_be16(b, 6);
        Some(FrameHeader { size, doff, frame_type, channel })
    }
}

/// A frame header survives the trip through its eight bytes.
pub proof fn lemma_frame_header_round_trip(h: FrameHeader)
    ensures
        ({
            let b = enc_frame_header(h);
            &&& b.len() == 8
            &&& u32_of_be(b[0], b[1], b[2], b[3]) == h.size
            &&& b[4] == h.doff
            &&& b[5] == h.frame_type
            &&& u16_of_be(b[6], b[7]) == h.channel
        }),
{
    lemma_be32_round_trip(h.size);
    lemma_be16_round_trip(h.channel);
}

/// The eight bytes of the protocol header that precedes framing:
/// `AMQP` followed by the protocol id and the version 1.0.0.
pub fn protocol_header(protocol_id: u8) -> (r: Vec<u8>)
    ensures
        r@ =~= seq![65u8, 77u8, 81u8, 80u8, protocol_id, 1u8, 0u8, 0u8],
{
    let mut out: Vec<u8> = Vec::new();
    out.push(65);
    out.push(77);
    out.push(81);
    out.push(80);
    out.push(protocol_id);
    out.push(1);
    out.push(0);
    out.push(0);
    out
}

/// The concatenation of a list of byte strings.
pub open spec fn concat_bytes(s: Seq<Seq<u8>>) -> Seq<u8>
    decreases s.len(),
{
    if s.len() == 0 {
        Seq::empty()
    } else {
        concat_bytes(s.drop_last()) + s.last()
    }
}

/// The models of a list of byte strings.
pub open spec fn chunk_views(s: Seq<Vec<u8>>) -> Seq<Seq<u8>> {
    s.map_values(|c: Vec<u8>| c@)
}

/// Whether `chunks` is the fragmentation of `payload` into pieces of at
/// most `max` bytes: every piece but the last is full, the pieces cover
/// the payload in order, and an empty payload gives one empty piece.
pub open spec fn is_fragmentation(payload: Seq<u8>, max: int, chunks: Seq<Seq<u8>>) -> bool {
    &&& chunks.len() >= 1
    &&& (payload.len() == 0 ==> chunks.len() == 1)
    &&& (chunks.len() - 1) * max <= payload.len()
    &&& payload.len() <= chunks.len() * max
    &&& forall|i: int|
        0 <= i < chunks.len() ==> #[trigger] chunks[i] == payload.subrange(
            i * max,
            if (i + 1) * max <= payload.len() {
                (i + 1) * max
            } else {
                payload.len() as int
            },
        )
}

/// Splits a payload into fragments of at most `max` bytes each.
pub fn split_payload(payload: &Vec<u8>, max: usize) -> (r: Vec<Vec<u8>>)
    requires
        max >= 1,
    ensures
        is_fragmentation(payload@, max as int, chunk_views(r@)),
{
    let mut chunks: Vec<Vec<u8>> = Vec::new();
    let mut pos: usize = 0;
    while pos < payload.len()
        invariant
            max >= 1,
            pos <= payload.len(),
            pos <= chunks@.len() * max,
            chunks@.len() >= 1 ==> (chunks@.len() - 1) * max < pos,
            pos < payload.len() ==> pos == chunks@.len() * max,
            forall|i: int|
                0 <= i < chunks@.len() ==> #[trigger] chunks@[i]@ == payload@.subrange(
                    i * (max as int),
                    if (i + 1) * (max as int) <= payload@.len() {
                        (i + 1) * (max as int)
                    } else {
                        payload@.len() as int
                    },
                ),
        decreases payload.len() - pos,
    {
        let ghost t = chunks@.len() as int;
        let remaining = payload.len() - pos;
        let take = if remaining < max {
            remaining
        } else {
            max
        };
        let mut chunk: Vec<u8> = Vec::new();
        let mut j: usize = 0;
        while j < take
            invariant
                j <= take,
                pos + take <= payload.len(),
                chunk@ =~= payload@.subrange(pos as int, pos + j),
            decreases take - j,
        {
            chunk.push(payload[pos + j]);
            assert(chunk@ =~= payload@.subrange(pos as int, pos + j + 1));
            j = j + 1;
        }
        proof {
            assert((t + 1) * max == t * max + max) by (nonlinear_arith);
            assert(pos == t * max);
            assert(chunk@ == payload@.subrange(
                t * (max as int),
                if (t + 1) * (max as int) <= payload@.len() {
                    (t + 1) * (max as int)
                } else {
                    payload@.len() as int
                },
            ));
        }
        chunks.push(chunk);
        pos = pos + take;
    }
    if chunks.len() == 0 {
        let empty: Vec<u8> = Vec::new();
        assert(empty@ =~= payload@.subrange(0, 0));
        chunks.push(empty);
        assert(payload@.len() == 0);
    }
    proof {
        let cv = chunk_views(chunks@);
        assert(cv.len() == chunks@.len());
        assert(forall|i: int| 0 <= i < cv.len() ==> cv[i] == chunks@[i]@);
        assert((cv.len() - 1) * (max as int) <= payload@.len());
        assert(payload@.len() <= cv.len() * (max as int));
    }
    chunks
}

/// Joins received fragments back into the payload.
pub fn reassemble(chunks: &Vec<Vec<u8>>) -> (r: Vec<u8>)
    ensures
        r@ == concat_bytes(chunk_views(chunks@)),
{
    let mut out: Vec<u8> = Vec::new();
    let mut i: usize = 0;
    while i < chunks.len()
        invariant
            i <= chunks.len(),
            out@ =~= concat_bytes(chunk_views(chunks@.take(i as int))),
        decreases chunks.len() - i,
    {
        let mut j: usize = 0;
        let ghost before = out@;
        while j < chunks[i].len()
            invariant
                i < chunks.len(),
                j <= chunks@[i as int]@.len(),
                out@ =~= before + chunks@[i as int]@.take(j as int),
            decreases chunks@[i as int]@.len() - j,
        {
            out.push(chunks[i][j]);
            assert(out@ =~= before + chunks@[i as int]@.take(j + 1 as int));
            j = j + 1;
        }
        proof {
            assert(chunks@[i as int]@.take(chunks@[i as int]@.len() as int) =~= chunks@[
                i as int
            ]@);
            assert(chunk_views(chunks@.take(i + 1 as int)).drop_last() =~= chunk_views(
                chunks@.take(i as int),
            ));
            assert(chunk_views(chunks@.take(i + 1 as int)).last() == chunks@[i as int]@);
        }
        i = i + 1;
    }
    proof {
        assert(chunks@.take(chunks@.len() as int) =~= chunks@);
    }
    out
}

/// Joining the fragments of a payload gives back the payload: a message
/// split under a maximum frame size reassembles to identical bytes.
pub proof fn lemma_fragmentation_round_trip(payload: Seq<u8>, max: int, chunks: Seq<Seq<u8>>)
    requires
        max >= 1,
        is_fragmentation(payload, max, chunks),
    ensures
        concat_bytes(chunks) == payload,
{
    assert(chunks.take(chunks.len() as int) =~= chunks);
    if payload.len() == 0 {
        assert(chunks[0] == payload.subrange(0, 0));
        reveal_with_fuel(concat_bytes, 2);
        assert(concat_bytes(chunks) =~= payload);
    } else {
        lemma_fragment_prefix(payload, max, chunks, chunks.len() as int);
        assert(chunks.len() * max >= payload.len());
        assert(concat_bytes(chunks) =~= payload);
    }
}

/// The first `k` fragments cover the first `min(k * max, len)` bytes.
proof fn lemma_fragment_prefix(payload: Seq<u8>, max: int, chunks: Seq<Seq<u8>>, k: int)
    requires
        max >= 1,
        is_fragmentation(payload, max, chunks),
        0 <= k <= chunks.len(),
        payload.len() > 0,
    ensures
        concat_bytes(chunks.take(k)) == payload.subrange(
            0,
            if k * max <= payload.len() {
                k * max
            } else {
                payload.len() as int
            },
        ),
    decreases k,
{
    if k == 0 {
        assert(chunks.take(0) =~= Seq::<Seq<u8>>::empty());
        assert(concat_bytes(chunks.take(0)) =~= payload.subrange(0, 0));
    } else {
        lemma_fragment_prefix(payload, max, chunks, k - 1);
        assert((k - 1) * max <= payload.len()) by (nonlinear_arith)
            requires
                max >= 1,
                k <= chunks.len(),
                (chunks.len() - 1) * max <= payload.len(),
                k >= 1,
        ;
        assert(chunks.take(k).drop_last() =~= chunks.take(k - 1));
        assert(chunks.take(k).last() == chunks[k - 1]);
        assert((k - 1) * max == k * max - max) by (nonlinear_arith);
        let prev_hi = if (k - 1) * max <= payload.len() {
            (k - 1) * max
        } else {
            payload.len() as int
        };
        let hi = if k * max <= payload.len() {
            k * max
        } else {
            payload.len() as int
        };
        assert(prev_hi == (k - 1) * max);
        assert(chunks[k - 1] == payload.subrange((k - 1) * max, hi));
        assert(concat_bytes(chunks.take(k)) == payload.subrange(0, prev_hi) + payload.subrange(
            (k - 1) * max,
            hi,
        ));
        assert(concat_bytes(chunks.take(k)) =~= payload.subrange(0, hi));
    }
}

} // verus!
