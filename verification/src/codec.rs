//! The wire codec for primitive values: the canonical encodings the
//! engine writes, and a verified decoder proved to invert them.

use vstd::prelude::*;

use crate::framing::{
    be16, be32, be64, push_be16, push_be32, push_be64, read_be16, read_be32, read_be64, u16_of_be,
    u32_of_be, u64_of_be,
};
use crate::value::{Value, ValueV};
use vstd::string::StringSliceAdditionalSpecFns;

verus! {

/// The bytes of an ASCII character sequence, one byte per character.
pub open spec fn ascii_bytes(s: Seq<char>) -> Seq<u8> {
    Seq::new(s.len(), |i: int| s[i] as u8)
}

/// The characters of a byte sequence, one character per byte.
pub open spec fn chars_of_bytes(b: Seq<u8>) -> Seq<char> {
    Seq::new(b.len(), |i: int| b[i] as char)
}

/// Whether every byte is ASCII.
pub open spec fn all_ascii_bytes(b: Seq<u8>) -> bool {
    forall|i: int| 0 <= i < b.len() ==> b[i] < 128
}

/// A string the codec can carry: ASCII, with a length the wire's 32-bit
/// length fields can hold.
pub open spec fn wf_str(s: Seq<char>) -> bool {
    &&& vstd::utf8::is_ascii_chars(s)
    &&& s.len() <= u32::MAX
}

/// A value the codec can carry.
pub open spec fn wf_value(v: ValueV) -> bool {
    match v {
        ValueV::String(s) => wf_str(s),
        ValueV::Symbol(s) => wf_str(s),
        ValueV::Binary(b) => b.len() <= u32::MAX,
        ValueV::Uuid(b) => b.len() == 16,
        _ => true,
    }
}

/// A variable-width encoding: the one-byte small form when the payload
/// fits below a byte-sized count, else the four-byte large form.
pub open spec fn enc_var(code8: u8, code32: u8, payload: Seq<u8>) -> Seq<u8> {
    if payload.len() <= 254 {
        seq![code8, payload.len() as u8] + payload
    } else {
        seq![code32] + be32(payload.len() as u32) + payload
    }
}

/// The canonical encoding of a value.
pub open spec fn enc_value(v: ValueV) -> Seq<u8> {
    match v {
        ValueV::Null => seq![0x40u8],
        ValueV::Bool(b) => (if b {
            seq![0x41u8]
        } else {
            seq![0x42u8]
        }),
        ValueV::Ubyte(n) => seq![0x50u8, n],
        ValueV::Ushort(n) => seq![0x60u8] + be16(n),
        ValueV::Uint(n) => seq![0x70u8] + be32(n),
        ValueV::Ulong(n) => seq![0x80u8] + be64(n),
        ValueV::Timestamp(t) => seq![0x83u8] + be64(t as u64),
        ValueV::String(s) => enc_var(0xa1u8, 0xb1u8, ascii_bytes(s)),
        ValueV::Symbol(s) => enc_var(0xa3u8, 0xb3u8, ascii_bytes(s)),
        ValueV::Binary(b) => enc_var(0xa0u8, 0xb0u8, b),
        ValueV::Uuid(b) => seq![0x98u8] + b,
    }
}

/// What a just-read variable-width payload parses to, by its code.
pub open spec fn finish_var(tag: u8, data: Seq<u8>, end: int) -> Option<(ValueV, int)> {
    if tag == 0xa0 || tag == 0xb0 {
        Some((ValueV::Binary(data), end))
    } else if tag == 0xa1 || tag == 0xb1 {
        if all_ascii_bytes(data) {
            Some((ValueV::String(chars_of_bytes(data)), end))
        } else {
            None
        }
    } else {
        if all_ascii_bytes(data) {
            Some((ValueV::Symbol(chars_of_bytes(data)), end))
        } else {
            None
        }
    }
}

/// The parser the decoder implements: the value starting at `pos` and the
/// position after it.
pub open spec fn parse_value(b: Seq<u8>, pos: int) -> Option<(ValueV, int)> {
    if !(0 <= pos < b.len()) {
        None
    } else {
        let tag = b[pos];
        if tag == 0x40 {
            Some((ValueV::Null, pos + 1))
        } else if tag == 0x41 {
            Some((ValueV::Bool(true), pos + 1))
        } else if tag == 0x42 {
            Some((ValueV::Bool(false), pos + 1))
        } else if tag == 0x50 {
            if pos + 2 <= b.len() {
                Some((ValueV::Ubyte(b[pos + 1]), pos + 2))
            } else {
                None
            }
        } else if tag == 0x60 {
            if pos + 3 <= b.len() {
                Some((ValueV::Ushort(u16_of_be(b[pos + 1], b[pos + 2])), pos + 3))
            } else {
                None
            }
        } else if tag == 0x70 {
            if pos + 5 <= b.len() {
                Some((ValueV::Uint(u32_of_be(b[pos + 1], b[pos + 2], b[pos + 3], b[pos + 4])), pos
                    + 5))
            } else {
                None
            }
        } else if tag == 0x80 {
            if pos + 9 <= b.len() {
                Some((ValueV::Ulong(u64_of_be(b.subrange(pos + 1, pos + 9))), pos + 9))
            } else {
                None
            }
        } else if tag == 0x83 {
            if pos + 9 <= b.len() {
                Some((ValueV::Timestamp(u64_of_be(b.subrange(pos + 1, pos + 9)) as i64), pos + 9))
            } else {
                None
            }
        } else if tag == 0x98 {
            if pos + 17 <= b.len() {
                Some((ValueV::Uuid(b.subrange(pos + 1, pos + 17)), pos + 17))
            } else {
                None
            }
        } else if tag == 0xa0 || tag == 0xa1 || tag == 0xa3 {
            if pos + 2 <= b.len() && pos + 2 + b[pos + 1] <= b.len() {
                finish_var(tag, b.subrange(pos + 2, pos + 2 + b[pos + 1]), pos + 2 + b[pos + 1])
            } else {
                None
            }
        } else if tag == 0xb0 || tag == 0xb1 || tag == 0xb3 {
            if pos + 5 <= b.len() && pos + 5 + u32_of_be(b[pos + 1], b[pos + 2], b[pos + 3], b[pos
                + 4]) <= b.len() {
                finish_var(
                    tag,
                    b.subrange(
                        pos + 5,
                        pos + 5 + u32_of_be(b[pos + 1], b[pos + 2], b[pos + 3], b[pos + 4]),
                    ),
                    pos + 5 + u32_of_be(b[pos + 1], b[pos + 2], b[pos + 3], b[pos + 4]),
                )
            } else {
                None
            }
        } else {
            None
        }
    }
}

/// Appends bytes from a slice.
pub fn push_bytes(out: &mut Vec<u8>, b: &[u8])
    ensures
        final(out)@ == old(out)@ + b@,
{
    let mut i: usize = 0;
    while i < b.len()
        invariant
            i <= b@.len(),
            out@ =~= old(out)@ + b@.take(i as int),
        decreases b@.len() - i,
    {
        out.push(b[i]);
        assert(out@ =~= old(out)@ + b@.take(i + 1 as int));
        i = i + 1;
    }
    assert(b@.take(b@.len() as int) =~= b@);
}

/// Appends bytes from a byte vector.
pub fn push_byte_vec(out: &mut Vec<u8>, b: &Vec<u8>)
    ensures
        final(out)@ == old(out)@ + b@,
{
    let mut i: usize = 0;
    while i < b.len()
        invariant
            i <= b@.len(),
            out@ =~= old(out)@ + b@.take(i as int),
        decreases b@.len() - i,
    {
        out.push(b[i]);
        assert(out@ =~= old(out)@ + b@.take(i + 1 as int));
        i = i + 1;
    }
    assert(b@.take(b@.len() as int) =~= b@);
}

/// Appends a variable-width header and payload.
fn push_var(out: &mut Vec<u8>, code8: u8, code32: u8, payload: &[u8])
    requires
        payload@.len() <= u32::MAX,
    ensures
        final(out)@ == old(out)@ + enc_var(code8, code32, payload@),
{
    let n = payload.len();
    if n <= 254 {
        out.push(code8);
        out.push(n as u8);
        push_bytes(out, payload);
        assert(out@ =~= old(out)@ + enc_var(code8, code32, payload@));
    } else {
        out.push(code32);
        push_be32(out, n as u32);
        push_bytes(out, payload);
        assert(out@ =~= old(out)@ + enc_var(code8, code32, payload@));
    }
}

/// The byte length of an ASCII string equals its character count.
proof fn lemma_ascii_str_bytes(s: &str)
    requires
        vstd::utf8::is_ascii_chars(s@),
    ensures
        s.spec_bytes() == ascii_bytes(s@),
{
    broadcast use vstd::string::is_ascii_spec_bytes;

    assert(vstd::string::is_ascii(s));
    assert(s.spec_bytes() =~= ascii_bytes(s@));
}

/// Appends the canonical encoding of a value.
pub fn encode_value(out: &mut Vec<u8>, v: &Value)
    requires
        wf_value(v@),
    ensures
        final(out)@ == old(out)@ + enc_value(v@),
{
    match v {
        Value::Null => {
            out.push(0x40);
            assert(out@ =~= old(out)@ + enc_value(v@));
        },
        Value::Bool(b) => {
            if *b {
                out.push(0x41);
            } else {
                out.push(0x42);
            }
            assert(out@ =~= old(out)@ + enc_value(v@));
        },
        Value::Ubyte(n) => {
            out.push(0x50);
            out.push(*n);
            assert(out@ =~= old(out)@ + enc_value(v@));
        },
        Value::Ushort(n) => {
            out.push(0x60);
            push_be16(out, *n);
            assert(out@ =~= old(out)@ + enc_value(v@));
        },
        Value::Uint(n) => {
            out.push(0x70);
            push_be32(out, *n);
            assert(out@ =~= old(out)@ + enc_value(v@));
        },
        Value::Ulong(n) => {
            out.push(0x80);
            push_be64(out, *n);
            assert(out@ =~= old(out)@ + enc_value(v@));
        },
        Value::Timestamp(t) => {
            out.push(0x83);
            push_be64(out, *t as u64);
            assert(out@ =~= old(out)@ + enc_value(v@));
        },
        Value::String(s) => {
            let sl = s.as_str();
            proof {
                lemma_ascii_str_bytes(sl);
            }
            push_var(out, 0xa1, 0xb1, sl.as_bytes());
        },
        Value::Symbol(s) => {
            let sl = s.as_str();
            proof {
                lemma_ascii_str_bytes(sl);
            }
            push_var(out, 0xa3, 0xb3, sl.as_bytes());
        },
        Value::Binary(b) => {
            push_var(out, 0xa0, 0xb0, b.as_slice());
        },
        Value::Uuid(b) => {
            out.push(0x98);
            push_byte_vec(out, b);
            assert(out@ =~= old(out)@ + enc_value(v@));
        },
    }
}

/// Relies on `String::from_utf8`: ASCII bytes are valid UTF-8 and decode
/// to the string with one character per byte.
#[verifier::external_body]
fn string_from_ascii(v: Vec<u8>) -> (r: Option<String>)
    ensures
        all_ascii_bytes(v@) ==> (match r {
            Some(s) => s@ == chars_of_bytes(v@),
            None => false,
        }),
{
    match String::from_utf8(v) {
        Ok(s) => Some(s),
        Err(_) => None,
    }
}

/// Copies `b[pos..end]` into a fresh vector.
fn copy_range(b: &Vec<u8>, pos: usize, end: usize) -> (r: Vec<u8>)
    requires
        pos <= end <= b@.len(),
    ensures
        r@ == b@.subrange(pos as int, end as int),
{
    let mut out: Vec<u8> = Vec::new();
    let mut i: usize = pos;
    while i < end
        invariant
            pos <= i <= end <= b@.len(),
            out@ =~= b@.subrange(pos as int, i as int),
        decreases end - i,
    {
        out.push(b[i]);
        assert(out@ =~= b@.subrange(pos as int, i + 1 as int));
        i = i + 1;
    }
    out
}

/// Whether every byte of `b[pos..end]` is ASCII.
fn check_ascii_range(b: &Vec<u8>, pos: usize, end: usize) -> (r: bool)
    requires
        pos <= end <= b@.len(),
    ensures
        r == all_ascii_bytes(b@.subrange(pos as int, end as int)),
{
    let mut i: usize = pos;
    while i < end
        invariant
            pos <= i <= end <= b@.len(),
            forall|j: int| pos <= j < i ==> b@[j] < 128,
        decreases end - i,
    {
        if b[i] >= 128 {
            assert(b@.subrange(pos as int, end as int)[i - pos] == b@[i as int]);
            return false;
        }
        i = i + 1;
    }
    assert(forall|j: int|
        0 <= j < end - pos ==> #[trigger] b@.subrange(pos as int, end as int)[j] == b@[j + pos]);
    true
}

/// Reads the variable-width payload `b[data..end]` as the value its code
/// names.
fn decode_var(b: &Vec<u8>, tag: u8, data: usize, end: usize) -> (r: Option<Value>)
    requires
        data <= end <= b@.len(),
        tag == 0xa0 || tag == 0xa1 || tag == 0xa3 || tag == 0xb0 || tag == 0xb1 || tag == 0xb3,
    ensures
        (match r {
            Some(v) => finish_var(tag, b@.subrange(data as int, end as int), end as int) == Some(
                (v@, end as int),
            ),
            None => finish_var(tag, b@.subrange(data as int, end as int), end as int) is None,
        }),
{
    if tag == 0xa0 || tag == 0xb0 {
        Some(Value::Binary(copy_range(b, data, end)))
    } else {
        if !check_ascii_range(b, data, end) {
            return None;
        }
        let bytes = copy_range(b, data, end);
        match string_from_ascii(bytes) {
            Some(s) => {
                if tag == 0xa1 || tag == 0xb1 {
                    Some(Value::String(s))
                } else {
                    Some(Value::Symbol(s))
                }
            },
            None => None,
        }
    }
}

/// Reads one value at `pos`, returning it with the position after it.
pub fn decode_value(b: &Vec<u8>, pos: usize) -> (r: Option<(Value, usize)>)
    ensures
        (match r {
            Some((v, end)) => parse_value(b@, pos as int) == Some((v@, end as int)) && pos < end
                <= b@.len(),
            None => parse_value(b@, pos as int) is None,
        }),
{
    let n = b.len();
    if pos >= n {
        return None;
    }
    let tag = b[pos];
    if tag == 0x40 {
        Some((Value::Null, pos + 1))
    } else if tag == 0x41 {
        Some((Value::Bool(true), pos + 1))
    } else if tag == 0x42 {
        Some((Value::Bool(false), pos + 1))
    } else if tag == 0x50 {
        if n - pos >= 2 {
            Some((Value::Ubyte(b[pos + 1]), pos + 2))
        } else {
            None
        }
    } else if tag == 0x60 {
        if n - pos >= 3 {
            Some((Value::Ushort(read_be16(b, pos + 1)), pos + 3))
        } else {
            None
        }
    } else if tag == 0x70 {
        if n - pos >= 5 {
            Some((Value::Uint(read_be32(b, pos + 1)), pos + 5))
        } else {
            None
        }
    } else if tag == 0x80 {
        if n - pos >= 9 {
            Some((Value::Ulong(read_be64(b, pos + 1)), pos + 9))
        } else {
            None
        }
    } else if tag == 0x83 {
        if n - pos >= 9 {
            Some((Value::Timestamp(read_be64(b, pos + 1) as i64), pos + 9))
        } else {
            None
        }
    } else if tag == 0x98 {
        if n - pos >= 17 {
            Some((Value::Uuid(copy_range(b, pos + 1, pos + 17)), pos + 17))
        } else {
            None
        }
    } else if tag == 0xa0 || tag == 0xa1 || tag == 0xa3 {
        if n - pos >= 2 && b[pos + 1] as usize <= n - (pos + 2) {
            let end = pos + 2 + b[pos + 1] as usize;
            match decode_var(b, tag, pos + 2, end) {
                Some(v) => Some((v, end)),
                None => None,
            }
        } else {
            None
        }
    } else if tag == 0xb0 || tag == 0xb1 || tag == 0xb3 {
        if n - pos >= 5 {
            let len = read_be32(b, pos + 1);
            if len as usize <= n - (pos + 5) {
                let end = pos + 5 + len as usize;
                match decode_var(b, tag, pos + 5, end) {
                    Some(v) => Some((v, end)),
                    None => None,
                }
            } else {
                None
            }
        } else {
            None
        }
    } else {
        None
    }
}

/// The decoder inverts the encoder: a well-formed value's encoding,
/// wherever it stands in a byte string, parses back to the value, ending
/// right after it.
pub proof fn lemma_parse_enc_value(v: ValueV, b: Seq<u8>, pos: int)
    requires
        wf_value(v),
        0 <= pos,
        pos + enc_value(v).len() <= b.len(),
        b.subrange(pos, pos + enc_value(v).len() as int) == enc_value(v),
    ensures
        parse_value(b, pos) == Some((v, pos + enc_value(v).len())),
{
    let e = enc_value(v);
    assert forall|i: int| 0 <= i < e.len() implies #[trigger] b[pos + i] == e[i] by {
        assert(b.subrange(pos, pos + e.len() as int)[i] == b[pos + i]);
    }
    assert(b[pos + 0] == e[0]);
    assert(b[pos] == e[0]);
    match v {
        ValueV::Null => {},
        ValueV::Bool(x) => {},
        ValueV::Ubyte(n) => {},
        ValueV::Ushort(n) => {
            crate::framing::lemma_be16_round_trip(n);
        },
        ValueV::Uint(n) => {
            crate::framing::lemma_be32_round_trip(n);
        },
        ValueV::Ulong(n) => {
            crate::framing::lemma_be64_round_trip(n);
            assert forall|j: int| 0 <= j < 8 implies #[trigger] b.subrange(pos + 1, pos + 9)[j] == be64(
                n,
            )[j] by {
                assert(b[pos + (1 + j)] == e[1 + j]);
            }
            assert(b.subrange(pos + 1, pos + 9) =~= be64(n));
        },
        ValueV::Timestamp(t) => {
            crate::framing::lemma_be64_round_trip(t as u64);
            assert forall|j: int| 0 <= j < 8 implies #[trigger] b.subrange(pos + 1, pos + 9)[j] == be64(
                t as u64,
            )[j] by {
                assert(b[pos + (1 + j)] == e[1 + j]);
            }
            assert(b.subrange(pos + 1, pos + 9) =~= be64(t as u64));
            assert((t as u64) as i64 == t) by (bit_vector);
        },
        ValueV::Uuid(data) => {
            assert forall|j: int| 0 <= j < 16 implies #[trigger] b.subrange(pos + 1, pos + 17)[j]
                == data[j] by {
                assert(b[pos + (1 + j)] == e[1 + j]);
            }
            assert(b.subrange(pos + 1, pos + 17) =~= data);
        },
        ValueV::String(s) => {
            lemma_parse_enc_var(0xa1u8, 0xb1u8, ascii_bytes(s), b, pos);
            lemma_ascii_chars_bytes(s);
            assert(chars_of_bytes(ascii_bytes(s)) =~= s);
        },
        ValueV::Symbol(s) => {
            lemma_parse_enc_var(0xa3u8, 0xb3u8, ascii_bytes(s), b, pos);
            lemma_ascii_chars_bytes(s);
            assert(chars_of_bytes(ascii_bytes(s)) =~= s);
        },
        ValueV::Binary(data) => {
            lemma_parse_enc_var(0xa0u8, 0xb0u8, data, b, pos);
        },
    }
}

/// The bytes of an ASCII character sequence are ASCII.
proof fn lemma_ascii_chars_bytes(s: Seq<char>)
    requires
        vstd::utf8::is_ascii_chars(s),
    ensures
        all_ascii_bytes(ascii_bytes(s)),
{
    assert forall|i: int| 0 <= i < ascii_bytes(s).len() implies ascii_bytes(s)[i] < 128 by {
        assert('\0' <= s[i] <= '\u{7f}');
    }
}

/// A variable-width encoding parses back to its payload.
proof fn lemma_parse_enc_var(code8: u8, code32: u8, payload: Seq<u8>, b: Seq<u8>, pos: int)
    requires
        payload.len() <= u32::MAX,
        0 <= pos,
        pos + enc_var(code8, code32, payload).len() <= b.len(),
        b.subrange(pos, pos + enc_var(code8, code32, payload).len() as int) == enc_var(
            code8,
            code32,
            payload,
        ),
    ensures
        ({
            let e = enc_var(code8, code32, payload);
            (if payload.len() <= 254 {
                &&& b[pos] == code8
                &&& pos + 2 <= b.len()
                &&& b[pos + 1] == payload.len() as u8
                &&& pos + 2 + (payload.len() as u8) <= b.len()
                &&& b.subrange(pos + 2, pos + 2 + (payload.len() as u8)) == payload
            } else {
                &&& b[pos] == code32
                &&& pos + 5 <= b.len()
                &&& u32_of_be(b[pos + 1], b[pos + 2], b[pos + 3], b[pos + 4]) == payload.len()
                &&& pos + 5 + payload.len() <= b.len()
                &&& b.subrange(pos + 5, pos + 5 + payload.len() as int) == payload
            })
        }),
{
    let e = enc_var(code8, code32, payload);
    assert forall|i: int| 0 <= i < e.len() implies #[trigger] b[pos + i] == e[i] by {
        assert(b.subrange(pos, pos + e.len() as int)[i] == b[pos + i]);
    }
    if payload.len() <= 254 {
        assert(b[pos + 0] == e[0]);
        assert(b[pos + 1] == e[1]);
        assert forall|j: int| 0 <= j < payload.len() implies #[trigger] b.subrange(
            pos + 2,
            pos + 2 + (payload.len() as u8),
        )[j] == payload[j] by {
            assert(b[pos + (2 + j)] == e[2 + j]);
        }
        assert(b.subrange(pos + 2, pos + 2 + (payload.len() as u8)) =~= payload);
    } else {
        crate::framing::lemma_be32_round_trip(payload.len() as u32);
        assert(b[pos + 0] == e[0]);
        assert(b[pos + 1] == e[1] && e[1] == be32(payload.len() as u32)[0]);
        assert(b[pos + 2] == e[2] && e[2] == be32(payload.len() as u32)[1]);
        assert(b[pos + 3] == e[3] && e[3] == be32(payload.len() as u32)[2]);
        assert(b[pos + 4] == e[4] && e[4] == be32(payload.len() as u32)[3]);
        assert forall|j: int| 0 <= j < payload.len() implies #[trigger] b.subrange(
            pos + 5,
            pos + 5 + payload.len() as int,
        )[j] == payload[j] by {
            assert(b[pos + (5 + j)] == e[5 + j]);
        }
        assert(b.subrange(pos + 5, pos + 5 + payload.len() as int) =~= payload);
    }
}

} // verus!
