//! The codec for message sections and bare messages: descriptor-tagged
//! composites over the value codec, and the proof that a well-formed
//! message survives the trip through its bytes.

use vstd::prelude::*;

use crate::codec::{
    all_ascii_bytes, decode_value, enc_value, encode_value, lemma_parse_enc_value, parse_value,
    wf_str, wf_value,
};
use crate::framing::{be32, lemma_be32_round_trip, push_be32, read_be32, u32_of_be};
use crate::messaging::{
    AmqpSequence, AmqpValue, ApplicationProperties, Body, BodyV, Data, Header, Message, MessageId,
    MessageIdV, MessageV, Properties, PropertiesV,
};
use crate::value::{Value, ValueV};

verus! {

/// The concatenated encodings of a list of values.
pub open spec fn enc_values(s: Seq<ValueV>) -> Seq<u8>
    decreases s.len(),
{
    if s.len() == 0 {
        Seq::empty()
    } else {
        enc_value(s[0]) + enc_values(s.drop_first())
    }
}

/// Whether every value in a list is well formed.
pub open spec fn wf_values(s: Seq<ValueV>) -> bool {
    forall|i: int| 0 <= i < s.len() ==> wf_value(#[trigger] s[i])
}

/// Parses `n` consecutive values starting at `pos`.
pub open spec fn parse_values(b: Seq<u8>, pos: int, n: nat) -> Option<(Seq<ValueV>, int)>
    decreases n,
{
    if n == 0 {
        Some((Seq::empty(), pos))
    } else {
        match parse_value(b, pos) {
            Some((v, next)) => match parse_values(b, next, (n - 1) as nat) {
                Some((rest, end)) => Some((seq![v] + rest, end)),
                None => None,
            },
            None => None,
        }
    }
}

/// A chain of value encodings parses back to the values.
pub proof fn lemma_parse_enc_values(s: Seq<ValueV>, b: Seq<u8>, pos: int)
    requires
        wf_values(s),
        0 <= pos,
        pos + enc_values(s).len() <= b.len(),
        b.subrange(pos, pos + enc_values(s).len() as int) == enc_values(s),
    ensures
        parse_values(b, pos, s.len()) == Some((s, pos + enc_values(s).len())),
    decreases s.len(),
{
    if s.len() == 0 {
        assert(s =~= Seq::<ValueV>::empty());
    } else {
        let e0 = enc_value(s[0]);
        let rest = enc_values(s.drop_first());
        assert(enc_values(s) == e0 + rest);
        assert forall|i: int| 0 <= i < enc_values(s).len() implies #[trigger] b[pos + i]
            == enc_values(s)[i] by {
            assert(b.subrange(pos, pos + enc_values(s).len() as int)[i] == b[pos + i]);
        }
        assert(b.subrange(pos, pos + e0.len() as int) =~= e0) by {
            assert(forall|i: int|
                0 <= i < e0.len() ==> #[trigger] b.subrange(pos, pos + e0.len() as int)[i] == b[pos
                    + i]);
        }
        lemma_parse_enc_value(s[0], b, pos);
        let next = pos + e0.len();
        assert forall|i: int| 0 <= i < rest.len() implies #[trigger] b.subrange(
            next,
            next + rest.len() as int,
        )[i] == rest[i] by {
            assert(b.subrange(next, next + rest.len() as int)[i] == b[next + i]);
            assert(b[pos + (e0.len() + i)] == enc_values(s)[e0.len() + i]);
            assert(enc_values(s)[e0.len() + i] == rest[i]);
        }
        assert(b.subrange(next, next + rest.len() as int) =~= rest);
        assert(wf_values(s.drop_first())) by {
            assert(forall|i: int|
                0 <= i < s.drop_first().len() ==> #[trigger] s.drop_first()[i] == s[i + 1]);
        }
        lemma_parse_enc_values(s.drop_first(), b, next);
        assert(seq![s[0]] + s.drop_first() =~= s);
    }
}

/// The descriptor prelude of a composite: a described type whose
/// descriptor is the small unsigned code.
pub open spec fn descriptor(code: u8) -> Seq<u8> {
    seq![0x00u8, 0x53u8, code]
}

/// A described list with a 32-bit size and count.
pub open spec fn enc_list32(code: u8, count: u32, payload: Seq<u8>) -> Seq<u8> {
    descriptor(code) + seq![0xd0u8] + be32((payload.len() + 4) as u32) + be32(count) + payload
}

/// A described map with a 32-bit size and count.
pub open spec fn enc_map32(code: u8, count: u32, payload: Seq<u8>) -> Seq<u8> {
    descriptor(code) + seq![0xd1u8] + be32((payload.len() + 4) as u32) + be32(count) + payload
}

/// The list entries of a header section.
pub open spec fn header_values(h: Header) -> Seq<ValueV> {
    seq![
        ValueV::Bool(h.durable),
        ValueV::Ubyte(h.priority),
        (match h.ttl {
            Some(t) => ValueV::Uint(t),
            None => ValueV::Null,
        }),
        ValueV::Bool(h.first_acquirer),
        ValueV::Uint(h.delivery_count),
    ]
}

/// The value standing for an optional string entry.
pub open spec fn opt_str_value(s: Option<Seq<char>>) -> ValueV {
    match s {
        Some(s) => ValueV::String(s),
        None => ValueV::Null,
    }
}

/// The value standing for an optional message-id entry.
pub open spec fn opt_message_id_value(m: Option<MessageIdV>) -> ValueV {
    match m {
        Some(MessageIdV::Ulong(n)) => ValueV::Ulong(n),
        Some(MessageIdV::Uuid(b)) => ValueV::Uuid(b),
        Some(MessageIdV::Binary(b)) => ValueV::Binary(b),
        Some(MessageIdV::String(s)) => ValueV::String(s),
        None => ValueV::Null,
    }
}

/// The value standing for an optional timestamp entry.
pub open spec fn opt_timestamp_value(t: Option<i64>) -> ValueV {
    match t {
        Some(t) => ValueV::Timestamp(t),
        None => ValueV::Null,
    }
}

/// The value standing for an optional binary entry.
pub open spec fn opt_binary_value(b: Option<Seq<u8>>) -> ValueV {
    match b {
        Some(b) => ValueV::Binary(b),
        None => ValueV::Null,
    }
}

/// The value standing for an optional sequence-number entry.
pub open spec fn opt_uint_value(n: Option<u32>) -> ValueV {
    match n {
        Some(n) => ValueV::Uint(n),
        None => ValueV::Null,
    }
}

/// The thirteen list entries of a properties section.
pub open spec fn properties_values(p: PropertiesV) -> Seq<ValueV> {
    seq![
        opt_message_id_value(p.message_id),
        opt_binary_value(p.user_id),
        opt_str_value(p.to),
        opt_str_value(p.subject),
        opt_str_value(p.reply_to),
        opt_message_id_value(p.correlation_id),
        opt_str_value(p.content_type),
        opt_str_value(p.content_encoding),
        opt_timestamp_value(p.absolute_expiry_time),
        opt_timestamp_value(p.creation_time),
        opt_str_value(p.group_id),
        opt_uint_value(p.group_sequence),
        opt_str_value(p.reply_to_group_id),
    ]
}

/// The interleaved key and value entries of a map section.
pub open spec fn map_entry_values(s: Seq<(Seq<char>, ValueV)>) -> Seq<ValueV>
    decreases s.len(),
{
    if s.len() == 0 {
        Seq::empty()
    } else {
        seq![ValueV::String(s[0].0), s[0].1] + map_entry_values(s.drop_first())
    }
}

/// The bytes of a header section.
pub open spec fn enc_header_section(h: Header) -> Seq<u8> {
    enc_list32(0x70u8, 5, enc_values(header_values(h)))
}

/// The bytes of a properties section.
pub open spec fn enc_properties_section(p: PropertiesV) -> Seq<u8> {
    enc_list32(0x73u8, 13, enc_values(properties_values(p)))
}

/// The bytes of an application-properties section.
pub open spec fn enc_app_properties_section(s: Seq<(Seq<char>, ValueV)>) -> Seq<u8> {
    enc_map32(0x74u8, (2 * s.len()) as u32, enc_values(map_entry_values(s)))
}

/// The bytes of a body section.
pub open spec fn enc_body(body: BodyV) -> Seq<u8> {
    match body {
        BodyV::Value(v) => descriptor(0x77u8) + enc_value(v),
        BodyV::Data(d) => descriptor(0x75u8) + enc_value(ValueV::Binary(d)),
        BodyV::Sequence(s) => enc_list32(0x76u8, s.len() as u32, enc_values(s)),
        BodyV::DataBatch(ds) => enc_data_batch(ds),
        BodyV::SequenceBatch(ss) => enc_sequence_batch(ss),
        BodyV::Empty => Seq::empty(),
    }
}

/// The bytes of a run of data sections.
pub open spec fn enc_data_batch(ds: Seq<Seq<u8>>) -> Seq<u8>
    decreases ds.len(),
{
    if ds.len() == 0 {
        Seq::empty()
    } else {
        descriptor(0x75u8) + enc_value(ValueV::Binary(ds[0])) + enc_data_batch(ds.drop_first())
    }
}

/// The bytes of a run of sequence sections.
pub open spec fn enc_sequence_batch(ss: Seq<Seq<ValueV>>) -> Seq<u8>
    decreases ss.len(),
{
    if ss.len() == 0 {
        Seq::empty()
    } else {
        enc_list32(0x76u8, ss[0].len() as u32, enc_values(ss[0])) + enc_sequence_batch(
            ss.drop_first(),
        )
    }
}

/// The bytes of a bare message: its sections in order.
pub open spec fn enc_message(m: MessageV) -> Seq<u8> {
    (match m.header {
        Some(h) => enc_header_section(h),
        None => Seq::empty(),
    }) + (match m.properties {
        Some(p) => enc_properties_section(p),
        None => Seq::empty(),
    }) + (match m.application_properties {
        Some(s) => enc_app_properties_section(s),
        None => Seq::empty(),
    }) + enc_body(m.body)
}

/// A well-formed message identifier.
pub open spec fn wf_message_id(m: MessageIdV) -> bool {
    wf_value(opt_message_id_value(Some(m)))
}

/// A message the codec can carry and prove round trips: the annotation
/// sections are not used, strings are ASCII, and every length fits the
/// wire's 32-bit fields.
pub open spec fn wf_message(m: MessageV) -> bool {
    &&& m.delivery_annotations is None
    &&& m.message_annotations is None
    &&& m.footer is None
    &&& (match m.properties {
        Some(p) => {
            &&& wf_values(properties_values(p))
            &&& enc_values(properties_values(p)).len() + 4 <= u32::MAX
        },
        None => true,
    })
    &&& (match m.application_properties {
        Some(s) => {
            &&& wf_values(map_entry_values(s))
            &&& 2 * s.len() <= u32::MAX
            &&& enc_values(map_entry_values(s)).len() + 4 <= u32::MAX
        },
        None => true,
    })
    &&& wf_body(m.body)
}

/// A body the codec can carry: values are well formed, lengths fit the
/// wire's fields, and a batch holds at least two sections, so that one
/// section reads back as the plain form.
pub open spec fn wf_body(body: BodyV) -> bool {
    match body {
        BodyV::Value(v) => wf_value(v),
        BodyV::Data(d) => d.len() <= u32::MAX,
        BodyV::Sequence(s) => wf_sequence_section(s),
        BodyV::DataBatch(ds) => {
            &&& ds.len() >= 2
            &&& (forall|i: int| 0 <= i < ds.len() ==> (#[trigger] ds[i]).len() <= u32::MAX)
        },
        BodyV::SequenceBatch(ss) => {
            &&& ss.len() >= 2
            &&& (forall|i: int| 0 <= i < ss.len() ==> wf_sequence_section(#[trigger] ss[i]))
        },
        BodyV::Empty => true,
    }
}

/// A sequence section the codec can carry.
pub open spec fn wf_sequence_section(s: Seq<ValueV>) -> bool {
    &&& wf_values(s)
    &&& s.len() <= u32::MAX
    &&& enc_values(s).len() + 4 <= u32::MAX
}

/// Whether the bytes at `pos` begin the descriptor of the given code.
pub open spec fn has_descriptor(b: Seq<u8>, pos: int, code: u8) -> bool {
    &&& pos + 3 <= b.len()
    &&& b[pos] == 0x00u8
    &&& b[pos + 1] == 0x53u8
    &&& b[pos + 2] == code
}

/// Parses a described list32: the count and the position of the first
/// item.
pub open spec fn parse_list32_head(b: Seq<u8>, pos: int, code: u8) -> Option<(u32, int)> {
    if has_descriptor(b, pos, code) && pos + 12 <= b.len() && b[pos + 3] == 0xd0u8 {
        Some((u32_of_be(b[pos + 8], b[pos + 9], b[pos + 10], b[pos + 11]), pos + 12))
    } else {
        None
    }
}

/// Parses a described map32: the count and the position of the first
/// entry.
pub open spec fn parse_map32_head(b: Seq<u8>, pos: int, code: u8) -> Option<(u32, int)> {
    if has_descriptor(b, pos, code) && pos + 12 <= b.len() && b[pos + 3] == 0xd1u8 {
        Some((u32_of_be(b[pos + 8], b[pos + 9], b[pos + 10], b[pos + 11]), pos + 12))
    } else {
        None
    }
}

/// Builds a header back from its five list entries.
pub open spec fn header_of_values(vs: Seq<ValueV>) -> Option<Header> {
    if vs.len() == 5 {
        match (vs[0], vs[1], vs[2], vs[3], vs[4]) {
            (
                ValueV::Bool(durable),
                ValueV::Ubyte(priority),
                ttl_v,
                ValueV::Bool(first_acquirer),
                ValueV::Uint(delivery_count),
            ) => (match ttl_v {
                ValueV::Uint(t) => Some(
                    Header { durable, priority, ttl: Some(t), first_acquirer, delivery_count },
                ),
                ValueV::Null => Some(
                    Header { durable, priority, ttl: None, first_acquirer, delivery_count },
                ),
                _ => None,
            }),
            _ => None,
        }
    } else {
        None
    }
}

/// Reads back an optional string entry.
pub open spec fn opt_str_of_value(v: ValueV) -> Option<Option<Seq<char>>> {
    match v {
        ValueV::String(s) => Some(Some(s)),
        ValueV::Null => Some(None),
        _ => None,
    }
}

/// Reads back an optional message-id entry.
pub open spec fn opt_message_id_of_value(v: ValueV) -> Option<Option<MessageIdV>> {
    match v {
        ValueV::Ulong(n) => Some(Some(MessageIdV::Ulong(n))),
        ValueV::Uuid(b) => Some(Some(MessageIdV::Uuid(b))),
        ValueV::Binary(b) => Some(Some(MessageIdV::Binary(b))),
        ValueV::String(s) => Some(Some(MessageIdV::String(s))),
        ValueV::Null => Some(None),
        _ => None,
    }
}

/// Reads back an optional timestamp entry.
pub open spec fn opt_timestamp_of_value(v: ValueV) -> Option<Option<i64>> {
    match v {
        ValueV::Timestamp(t) => Some(Some(t)),
        ValueV::Null => Some(None),
        _ => None,
    }
}

/// Reads back an optional binary entry.
pub open spec fn opt_binary_of_value(v: ValueV) -> Option<Option<Seq<u8>>> {
    match v {
        ValueV::Binary(b) => Some(Some(b)),
        ValueV::Null => Some(None),
        _ => None,
    }
}

/// Reads back an optional sequence-number entry.
pub open spec fn opt_uint_of_value(v: ValueV) -> Option<Option<u32>> {
    match v {
        ValueV::Uint(n) => Some(Some(n)),
        ValueV::Null => Some(None),
        _ => None,
    }
}

/// Builds a properties section back from its thirteen list entries.
pub open spec fn properties_of_values(vs: Seq<ValueV>) -> Option<PropertiesV> {
    if vs.len() == 13 {
        match (
            opt_message_id_of_value(vs[0]),
            opt_binary_of_value(vs[1]),
            opt_str_of_value(vs[2]),
            opt_str_of_value(vs[3]),
            opt_str_of_value(vs[4]),
            opt_message_id_of_value(vs[5]),
            opt_str_of_value(vs[6]),
            opt_str_of_value(vs[7]),
            opt_timestamp_of_value(vs[8]),
            opt_timestamp_of_value(vs[9]),
            opt_str_of_value(vs[10]),
            opt_uint_of_value(vs[11]),
            opt_str_of_value(vs[12]),
        ) {
            (
                Some(message_id),
                Some(user_id),
                Some(to),
                Some(subject),
                Some(reply_to),
                Some(correlation_id),
                Some(content_type),
                Some(content_encoding),
                Some(absolute_expiry_time),
                Some(creation_time),
                Some(group_id),
                Some(group_sequence),
                Some(reply_to_group_id),
            ) => Some(
                PropertiesV {
                    message_id,
                    user_id,
                    to,
                    subject,
                    reply_to,
                    correlation_id,
                    content_type,
                    content_encoding,
                    absolute_expiry_time,
                    creation_time,
                    group_id,
                    group_sequence,
                    reply_to_group_id,
                },
            ),
            _ => None,
        }
    } else {
        None
    }
}

/// Pairs the interleaved entries of a map section back up.
pub open spec fn entries_of_values(vs: Seq<ValueV>) -> Option<Seq<(Seq<char>, ValueV)>>
    decreases vs.len(),
{
    if vs.len() == 0 {
        Some(Seq::empty())
    } else if vs.len() == 1 {
        None
    } else {
        match vs[0] {
            ValueV::String(k) => match entries_of_values(vs.skip(2)) {
                Some(rest) => Some(seq![(k, vs[1])] + rest),
                None => None,
            },
            _ => None,
        }
    }
}

/// Parses the optional header section at the front.
pub open spec fn parse_header_step(b: Seq<u8>) -> Option<(Option<Header>, int)> {
    if has_descriptor(b, 0, 0x70u8) {
        match parse_list32_head(b, 0, 0x70u8) {
            Some((count, items)) => (if count == 5 {
                match parse_values(b, items, 5) {
                    Some((vs, end)) => match header_of_values(vs) {
                        Some(h) => Some((Some(h), end)),
                        None => None,
                    },
                    None => None,
                }
            } else {
                None
            }),
            None => None,
        }
    } else {
        Some((None, 0))
    }
}

/// Parses the optional properties section at `pos`.
pub open spec fn parse_properties_step(b: Seq<u8>, pos: int) -> Option<(Option<PropertiesV>, int)> {
    if has_descriptor(b, pos, 0x73u8) {
        match parse_list32_head(b, pos, 0x73u8) {
            Some((count, items)) => (if count == 13 {
                match parse_values(b, items, 13) {
                    Some((vs, end)) => match properties_of_values(vs) {
                        Some(p) => Some((Some(p), end)),
                        None => None,
                    },
                    None => None,
                }
            } else {
                None
            }),
            None => None,
        }
    } else {
        Some((None, pos))
    }
}

/// Parses the optional application-properties section at `pos`.
pub open spec fn parse_app_step(b: Seq<u8>, pos: int) -> Option<
    (Option<Seq<(Seq<char>, ValueV)>>, int),
> {
    if has_descriptor(b, pos, 0x74u8) {
        match parse_map32_head(b, pos, 0x74u8) {
            Some((count, items)) => match parse_values(b, items, count as nat) {
                Some((vs, end)) => match entries_of_values(vs) {
                    Some(entries) => Some((Some(entries), end)),
                    None => None,
                },
                None => None,
            },
            None => None,
        }
    } else {
        Some((None, pos))
    }
}

/// The parser the message decoder implements: the sections of a bare
/// message, read in order.
pub open spec fn parse_message(b: Seq<u8>) -> Option<MessageV> {
    match parse_header_step(b) {
        Some((header, pos)) => match parse_properties_step(b, pos) {
            Some((properties, pos)) => match parse_app_step(b, pos) {
                Some((application_properties, pos)) => match parse_body(b, pos) {
                    Some(body) => Some(
                        MessageV {
                            header,
                            delivery_annotations: None,
                            message_annotations: None,
                            properties,
                            application_properties,
                            body,
                            footer: None,
                        },
                    ),
                    None => None,
                },
                None => None,
            },
            None => None,
        },
        None => None,
    }
}

/// Parses the body: a value section, a run of data sections, or a run of
/// sequence sections, reaching to the end of the bytes. A run of one
/// reads back as the plain form, a longer run as the batch form.
pub open spec fn parse_body(b: Seq<u8>, pos: int) -> Option<BodyV> {
    if pos == b.len() {
        Some(BodyV::Empty)
    } else if has_descriptor(b, pos, 0x77u8) {
        match parse_value(b, pos + 3) {
            Some((v, end)) => (if end == b.len() {
                Some(BodyV::Value(v))
            } else {
                None
            }),
            None => None,
        }
    } else if has_descriptor(b, pos, 0x75u8) {
        match parse_data_run(b, pos) {
            Some((ds, end)) => (if end == b.len() && ds.len() >= 1 {
                if ds.len() == 1 {
                    Some(BodyV::Data(ds[0]))
                } else {
                    Some(BodyV::DataBatch(ds))
                }
            } else {
                None
            }),
            None => None,
        }
    } else if has_descriptor(b, pos, 0x76u8) {
        match parse_sequence_run(b, pos) {
            Some((ss, end)) => (if end == b.len() && ss.len() >= 1 {
                if ss.len() == 1 {
                    Some(BodyV::Sequence(ss[0]))
                } else {
                    Some(BodyV::SequenceBatch(ss))
                }
            } else {
                None
            }),
            None => None,
        }
    } else {
        None
    }
}

/// Parses the maximal run of data sections starting at `pos`.
pub open spec fn parse_data_run(b: Seq<u8>, pos: int) -> Option<(Seq<Seq<u8>>, int)>
    decreases b.len() - pos,
{
    if has_descriptor(b, pos, 0x75u8) {
        match parse_value(b, pos + 3) {
            Some((v, end)) => (match v {
                ValueV::Binary(d) => {
                    if pos < end && end <= b.len() {
                        match parse_data_run(b, end) {
                            Some((rest, fin)) => Some((seq![d] + rest, fin)),
                            None => None,
                        }
                    } else {
                        None
                    }
                },
                _ => None,
            }),
            None => None,
        }
    } else {
        Some((Seq::empty(), pos))
    }
}

/// Parses the maximal run of sequence sections starting at `pos`.
pub open spec fn parse_sequence_run(b: Seq<u8>, pos: int) -> Option<(Seq<Seq<ValueV>>, int)>
    decreases b.len() - pos,
{
    if has_descriptor(b, pos, 0x76u8) {
        match parse_list32_head(b, pos, 0x76u8) {
            Some((count, items)) => match parse_values(b, items, count as nat) {
                Some((vs, end)) => {
                    if pos < end && end <= b.len() {
                        match parse_sequence_run(b, end) {
                            Some((rest, fin)) => Some((seq![vs] + rest, fin)),
                            None => None,
                        }
                    } else {
                        None
                    }
                },
                None => None,
            },
            None => None,
        }
    } else {
        Some((Seq::empty(), pos))
    }
}

/// Splitting a concatenation: the bytes of each part stand at its offset.
proof fn lemma_concat_subranges(a: Seq<u8>, c: Seq<u8>, b: Seq<u8>, pos: int)
    requires
        0 <= pos,
        pos + a.len() + c.len() <= b.len(),
        b.subrange(pos, pos + a.len() + c.len()) == a + c,
    ensures
        b.subrange(pos, pos + a.len() as int) == a,
        b.subrange(pos + a.len(), pos + a.len() + c.len()) == c,
{
    assert forall|i: int| 0 <= i < a.len() + c.len() implies #[trigger] b[pos + i] == (a + c)[i] by {
        assert(b.subrange(pos, pos + a.len() + c.len())[i] == b[pos + i]);
    }
    assert forall|i: int| 0 <= i < a.len() implies #[trigger] b.subrange(
        pos,
        pos + a.len() as int,
    )[i] == a[i] by {
        assert(b[pos + i] == (a + c)[i]);
    }
    assert(b.subrange(pos, pos + a.len() as int) =~= a);
    assert forall|i: int| 0 <= i < c.len() implies #[trigger] b.subrange(
        pos + a.len(),
        pos + a.len() + c.len(),
    )[i] == c[i] by {
        assert(b[pos + (a.len() + i)] == (a + c)[a.len() + i]);
    }
    assert(b.subrange(pos + a.len(), pos + a.len() + c.len()) =~= c);
}

/// A described list32 encoding parses back to its count and values.
pub(crate) proof fn lemma_parse_enc_list32(code: u8, vals: Seq<ValueV>, b: Seq<u8>, pos: int, is_map: bool)
    requires
        wf_values(vals),
        0 <= pos,
        ({
            let e = (if is_map {
                enc_map32(code, vals.len() as u32, enc_values(vals))
            } else {
                enc_list32(code, vals.len() as u32, enc_values(vals))
            });
            &&& pos + e.len() <= b.len()
            &&& b.subrange(pos, pos + e.len() as int) == e
        }),
        vals.len() <= u32::MAX,
    ensures
        has_descriptor(b, pos, code),
        !is_map ==> parse_list32_head(b, pos, code) == Some((vals.len() as u32, pos + 12)),
        is_map ==> parse_map32_head(b, pos, code) == Some((vals.len() as u32, pos + 12)),
        parse_values(b, pos + 12, vals.len()) == Some(
            (vals, pos + 12 + enc_values(vals).len()),
        ),
        b[pos + 3] == (if is_map {
            0xd1u8
        } else {
            0xd0u8
        }),
{
    let payload = enc_values(vals);
    let e = (if is_map {
        enc_map32(code, vals.len() as u32, payload)
    } else {
        enc_list32(code, vals.len() as u32, payload)
    });
    assert forall|i: int| 0 <= i < e.len() implies #[trigger] b[pos + i] == e[i] by {
        assert(b.subrange(pos, pos + e.len() as int)[i] == b[pos + i]);
    }
    lemma_be32_round_trip(vals.len() as u32);
    assert(b[pos + 0] == e[0] && b[pos + 1] == e[1] && b[pos + 2] == e[2] && b[pos + 3] == e[3]);
    assert(b[pos + 8] == e[8] && e[8] == be32(vals.len() as u32)[0]);
    assert(b[pos + 9] == e[9] && e[9] == be32(vals.len() as u32)[1]);
    assert(b[pos + 10] == e[10] && e[10] == be32(vals.len() as u32)[2]);
    assert(b[pos + 11] == e[11] && e[11] == be32(vals.len() as u32)[3]);
    assert(b[pos] == 0x00u8 && b[pos + 1] == 0x53u8 && b[pos + 2] == code);
    assert forall|i: int| 0 <= i < payload.len() implies #[trigger] b.subrange(
        pos + 12,
        pos + 12 + payload.len() as int,
    )[i] == payload[i] by {
        assert(b[pos + (12 + i)] == e[12 + i]);
    }
    assert(b.subrange(pos + 12, pos + 12 + payload.len() as int) =~= payload);
    lemma_parse_enc_values(vals, b, pos + 12);
}

/// The entries of a map section survive the interleaving into values.
proof fn lemma_entries_of_map_values(s: Seq<(Seq<char>, ValueV)>)
    ensures
        entries_of_values(map_entry_values(s)) == Some(s),
        map_entry_values(s).len() == 2 * s.len(),
    decreases s.len(),
{
    if s.len() == 0 {
        assert(s =~= Seq::<(Seq<char>, ValueV)>::empty());
    } else {
        lemma_entries_of_map_values(s.drop_first());
        let vs = map_entry_values(s);
        assert(vs.skip(2) =~= map_entry_values(s.drop_first()));
        assert(seq![(s[0].0, s[0].1)] + s.drop_first() =~= s);
        assert((s[0].0, s[0].1) == s[0]);
    }
}

/// A well-formed message's bytes parse back to the message: encoding and
/// decoding are mutually inverse over the wire format.
#[verifier::rlimit(100)]
pub proof fn lemma_message_round_trip(m: MessageV)
    requires
        wf_message(m),
    ensures
        parse_message(enc_message(m)) == Some(m),
{
    let e = enc_message(m);
    let p1 = message_p1(m);
    let p2 = message_p2(m);
    let p3 = message_p3(m);
    lemma_header_step_of_message(m);
    lemma_properties_step_of_message(m);
    lemma_app_step_of_message(m);
    lemma_body_of_message(m);
}

/// The offset of the properties section in a message's bytes.
pub open spec fn message_p1(m: MessageV) -> int {
    match m.header {
        Some(h) => enc_header_section(h).len() as int,
        None => 0,
    }
}

/// The offset of the application-properties section in a message's bytes.
pub open spec fn message_p2(m: MessageV) -> int {
    message_p1(m) + (match m.properties {
        Some(p) => enc_properties_section(p).len() as int,
        None => 0,
    })
}

/// The offset of the body in a message's bytes.
pub open spec fn message_p3(m: MessageV) -> int {
    message_p2(m) + (match m.application_properties {
        Some(s) => enc_app_properties_section(s).len() as int,
        None => 0,
    })
}

/// Splits the message's bytes into its sections' bytes.
proof fn lemma_message_splits(m: MessageV)
    ensures
        ({
            let e = enc_message(m);
            let hs = (match m.header {
                Some(h) => enc_header_section(h),
                None => Seq::<u8>::empty(),
            });
            let ps = (match m.properties {
                Some(p) => enc_properties_section(p),
                None => Seq::<u8>::empty(),
            });
            let aps = (match m.application_properties {
                Some(s) => enc_app_properties_section(s),
                None => Seq::<u8>::empty(),
            });
            let bs = enc_body(m.body);
            &&& e.len() == hs.len() + ps.len() + aps.len() + bs.len()
            &&& e.subrange(0, message_p1(m)) == hs
            &&& e.subrange(message_p1(m), message_p2(m)) == ps
            &&& e.subrange(message_p2(m), message_p3(m)) == aps
            &&& e.subrange(message_p3(m), e.len() as int) == bs
        }),
{
    let hs = (match m.header {
        Some(h) => enc_header_section(h),
        None => Seq::<u8>::empty(),
    });
    let ps = (match m.properties {
        Some(p) => enc_properties_section(p),
        None => Seq::<u8>::empty(),
    });
    let aps = (match m.application_properties {
        Some(s) => enc_app_properties_section(s),
        None => Seq::<u8>::empty(),
    });
    let bs = enc_body(m.body);
    let e = enc_message(m);
    assert(e == hs + ps + aps + bs);
    assert(e.subrange(0, e.len() as int) =~= e);
    lemma_concat_subranges(hs + ps + aps, bs, e, 0);
    lemma_concat_subranges(hs + ps, aps, e, 0);
    lemma_concat_subranges(hs, ps, e, 0);
}

/// The header step of the parse finds exactly the message's header.
proof fn lemma_header_step_of_message(m: MessageV)
    requires
        wf_message(m),
    ensures
        parse_header_step(enc_message(m)) == Some((m.header, message_p1(m))),
{
    let e = enc_message(m);
    lemma_message_splits(m);
    match m.header {
        Some(h) => {
            lemma_header_enc_len(h);
            lemma_parse_enc_list32(0x70u8, header_values(h), e, 0, false);
            assert(header_of_values(header_values(h)) == Some(h));
        },
        None => {
            lemma_no_descriptor(m, e, 0, 0x70u8, message_p1(m));
        },
    }
}

/// Reading back the thirteen entries gives back the properties.
#[verifier::rlimit(100)]
#[verifier::spinoff_prover]
proof fn lemma_properties_of_values(p: PropertiesV)
    ensures
        properties_of_values(properties_values(p)) == Some(p),
{
}

/// The properties step of the parse finds exactly the message's
/// properties.
#[verifier::rlimit(100)]
#[verifier::spinoff_prover]
proof fn lemma_properties_step_of_message(m: MessageV)
    requires
        wf_message(m),
    ensures
        parse_properties_step(enc_message(m), message_p1(m)) == Some(
            (m.properties, message_p2(m)),
        ),
{
    let e = enc_message(m);
    lemma_message_splits(m);
    match m.properties {
        Some(p) => {
            lemma_parse_enc_list32(0x73u8, properties_values(p), e, message_p1(m), false);
            lemma_properties_of_values(p);
        },
        None => {
            lemma_no_descriptor(m, e, message_p1(m), 0x73u8, message_p2(m));
        },
    }
}

/// The application-properties step of the parse finds exactly the
/// message's entries.
proof fn lemma_app_step_of_message(m: MessageV)
    requires
        wf_message(m),
    ensures
        parse_app_step(enc_message(m), message_p2(m)) == Some(
            (m.application_properties, message_p3(m)),
        ),
{
    let e = enc_message(m);
    lemma_message_splits(m);
    match m.application_properties {
        Some(s) => {
            lemma_entries_of_map_values(s);
            lemma_parse_enc_list32(0x74u8, map_entry_values(s), e, message_p2(m), true);
        },
        None => {
            lemma_no_descriptor(m, e, message_p2(m), 0x74u8, message_p3(m));
        },
    }
}

/// The body parse at the tail finds exactly the message's body.
proof fn lemma_body_of_message(m: MessageV)
    requires
        wf_message(m),
    ensures
        parse_body(enc_message(m), message_p3(m)) == Some(m.body),
{
    let e = enc_message(m);
    lemma_message_splits(m);
    lemma_parse_body(m, e, message_p3(m));
}

/// The header section's value list is short.
proof fn lemma_header_enc_len(h: Header)
    ensures
        enc_values(header_values(h)).len() + 4 <= u32::MAX,
        wf_values(header_values(h)),
{
    let hv = header_values(h);
    reveal_with_fuel(enc_values, 7);
    assert(hv.drop_first() =~= hv.subrange(1, 5));
    assert(hv.subrange(1, 5).drop_first() =~= hv.subrange(2, 5));
    assert(hv.subrange(2, 5).drop_first() =~= hv.subrange(3, 5));
    assert(hv.subrange(3, 5).drop_first() =~= hv.subrange(4, 5));
    assert(hv.subrange(4, 5).drop_first() =~= hv.subrange(5, 5));
    assert(hv.subrange(5, 5).len() == 0);
    assert(enc_values(hv).len() <= 25);
}

/// When a section is absent, the bytes at its place do not carry its
/// descriptor: they begin the next section, or the message ends there.
proof fn lemma_no_descriptor(m: MessageV, e: Seq<u8>, pos: int, code: u8, next_end: int)
    requires
        wf_message(m),
        e == enc_message(m),
        0 <= pos <= e.len(),
        code == 0x70u8 || code == 0x73u8 || code == 0x74u8,
        // The bytes from `pos` on are the later sections' encodings.
        (code == 0x70u8 ==> m.header is None && pos == 0),
        (code == 0x73u8 ==> m.properties is None && pos == (match m.header {
            Some(h) => enc_header_section(h).len() as int,
            None => 0,
        })),
        (code == 0x74u8 ==> m.application_properties is None && pos == (match m.header {
            Some(h) => enc_header_section(h).len() as int,
            None => 0,
        }) + (match m.properties {
            Some(p) => enc_properties_section(p).len() as int,
            None => 0,
        })),
    ensures
        !has_descriptor(e, pos, code),
{
    // The byte at pos + 2, if any, is the descriptor code of a later
    // section or part of the body, and every later code differs.
    if pos + 3 <= e.len() {
        lemma_message_tail_code(m, e, pos, code);
    }
}

/// The descriptor code found where a section is absent belongs to a later
/// section, which bears a different code.
proof fn lemma_message_tail_code(m: MessageV, e: Seq<u8>, pos: int, code: u8)
    requires
        wf_message(m),
        e == enc_message(m),
        0 <= pos,
        pos + 3 <= e.len(),
        code == 0x70u8 || code == 0x73u8 || code == 0x74u8,
        (code == 0x70u8 ==> m.header is None && pos == 0),
        (code == 0x73u8 ==> m.properties is None && pos == (match m.header {
            Some(h) => enc_header_section(h).len() as int,
            None => 0,
        })),
        (code == 0x74u8 ==> m.application_properties is None && pos == (match m.header {
            Some(h) => enc_header_section(h).len() as int,
            None => 0,
        }) + (match m.properties {
            Some(p) => enc_properties_section(p).len() as int,
            None => 0,
        })),
    ensures
        !(e[pos] == 0x00u8 && e[pos + 1] == 0x53u8 && e[pos + 2] == code),
{
    let hs = (match m.header {
        Some(h) => enc_header_section(h),
        None => Seq::<u8>::empty(),
    });
    let ps = (match m.properties {
        Some(p) => enc_properties_section(p),
        None => Seq::<u8>::empty(),
    });
    let aps = (match m.application_properties {
        Some(s) => enc_app_properties_section(s),
        None => Seq::<u8>::empty(),
    });
    let bs = enc_body(m.body);
    assert(e == hs + ps + aps + bs);
    // What stands at pos is the start of the next present section; read
    // its code byte.
    if code == 0x70u8 {
        if m.properties is Some {
            assert(e[pos + 2] == ps[2] && ps[2] == 0x73u8);
        } else if m.application_properties is Some {
            assert(e[pos + 2] == aps[2] && aps[2] == 0x74u8);
        } else {
            lemma_body_code(m, e, pos, bs);
        }
    } else if code == 0x73u8 {
        if m.application_properties is Some {
            assert(e[pos + 2] == aps[2] && aps[2] == 0x74u8);
        } else {
            lemma_body_code(m, e, pos, bs);
        }
    } else {
        lemma_body_code(m, e, pos, bs);
    }
}

/// The body's first descriptor code is a body code.
proof fn lemma_body_code(m: MessageV, e: Seq<u8>, pos: int, bs: Seq<u8>)
    requires
        wf_message(m),
        bs == enc_body(m.body),
        pos + 3 <= e.len(),
        e.len() == pos + bs.len(),
        forall|i: int| 0 <= i < bs.len() ==> #[trigger] e[pos + i] == bs[i],
    ensures
        e[pos + 2] == 0x77u8 || e[pos + 2] == 0x75u8 || e[pos + 2] == 0x76u8,
{
    match m.body {
        BodyV::Value(v) => {
            assert(e[pos + 2] == bs[2]);
        },
        BodyV::Data(d) => {
            assert(e[pos + 2] == bs[2]);
        },
        BodyV::Sequence(s) => {
            assert(e[pos + 2] == bs[2]);
        },
        BodyV::Empty => {
            assert(bs.len() == 0);
        },
        BodyV::DataBatch(ds) => {
            assert(ds.len() >= 1);
            assert(e[pos + 2] == bs[2]);
        },
        BodyV::SequenceBatch(ss) => {
            assert(ss.len() >= 1);
            assert(e[pos + 2] == bs[2]);
        },
    }
}

/// The body's encoding at the tail of the message parses back to the body.
proof fn lemma_parse_body(m: MessageV, e: Seq<u8>, pos: int)
    requires
        wf_message(m),
        e == enc_message(m),
        0 <= pos,
        e.len() == pos + enc_body(m.body).len(),
        e.subrange(pos, e.len() as int) == enc_body(m.body),
    ensures
        parse_body(e, pos) == Some(m.body),
{
    let bs = enc_body(m.body);
    assert forall|i: int| 0 <= i < bs.len() implies #[trigger] e[pos + i] == bs[i] by {
        assert(e.subrange(pos, e.len() as int)[i] == e[pos + i]);
    }
    match m.body {
        BodyV::Empty => {
            assert(pos == e.len());
        },
        BodyV::Value(v) => {
            assert(e[pos] == bs[0] && e[pos + 1] == bs[1] && e[pos + 2] == bs[2]);
            assert(has_descriptor(e, pos, 0x77u8));
            assert forall|i: int| 0 <= i < enc_value(v).len() implies #[trigger] e.subrange(
                pos + 3,
                pos + 3 + enc_value(v).len() as int,
            )[i] == enc_value(v)[i] by {
                assert(e[pos + (3 + i)] == bs[3 + i]);
            }
            assert(e.subrange(pos + 3, pos + 3 + enc_value(v).len() as int) =~= enc_value(v));
            lemma_parse_enc_value(v, e, pos + 3);
        },
        BodyV::Data(d) => {
            let ds = seq![d];
            assert(enc_data_batch(ds.drop_first()) =~= Seq::<u8>::empty());
            assert(ds.drop_first().len() == 0);
            assert(enc_data_batch(ds) =~= bs);
            assert(e.subrange(pos, pos + enc_data_batch(ds).len() as int) =~= bs);
            lemma_parse_data_run(ds, e, pos);
            assert(e[pos + 2] == bs[2]);
            assert(!(e[pos + 2] == 0x77u8));
            assert(pos < e.len());
        },
        BodyV::DataBatch(ds) => {
            assert(e.subrange(pos, pos + enc_data_batch(ds).len() as int) =~= bs);
            lemma_parse_data_run(ds, e, pos);
            assert(ds.len() >= 2);
            assert(e[pos + 2] == bs[2]);
            assert(!(e[pos + 2] == 0x77u8));
            assert(pos < e.len());
        },
        BodyV::Sequence(s) => {
            let ss = seq![s];
            assert(enc_sequence_batch(ss.drop_first()) =~= Seq::<u8>::empty());
            assert(ss.drop_first().len() == 0);
            assert(enc_sequence_batch(ss) =~= bs);
            assert(e.subrange(pos, pos + enc_sequence_batch(ss).len() as int) =~= bs);
            lemma_parse_sequence_run(ss, e, pos);
            assert(e[pos + 2] == bs[2]);
            assert(!(e[pos + 2] == 0x77u8) && !(e[pos + 2] == 0x75u8));
            assert(pos < e.len());
        },
        BodyV::SequenceBatch(ss) => {
            assert(e.subrange(pos, pos + enc_sequence_batch(ss).len() as int) =~= bs);
            lemma_parse_sequence_run(ss, e, pos);
            assert(ss.len() >= 2);
            assert(e[pos + 2] == bs[2]);
            assert(!(e[pos + 2] == 0x77u8) && !(e[pos + 2] == 0x75u8));
            assert(pos < e.len());
        },
    }
}

/// A run of encoded data sections, with nothing data-like after it,
/// parses back to its payloads.
proof fn lemma_parse_data_run(ds: Seq<Seq<u8>>, b: Seq<u8>, pos: int)
    requires
        forall|i: int| 0 <= i < ds.len() ==> (#[trigger] ds[i]).len() <= u32::MAX,
        0 <= pos,
        pos + enc_data_batch(ds).len() <= b.len(),
        b.subrange(pos, pos + enc_data_batch(ds).len() as int) == enc_data_batch(ds),
        !has_descriptor(b, pos + enc_data_batch(ds).len(), 0x75u8),
    ensures
        parse_data_run(b, pos) == Some((ds, pos + enc_data_batch(ds).len())),
    decreases ds.len(),
{
    let eb = enc_data_batch(ds);
    if ds.len() == 0 {
        assert(ds =~= Seq::<Seq<u8>>::empty());
    } else {
        let dv = ValueV::Binary(ds[0]);
        let e0 = descriptor(0x75u8) + enc_value(dv);
        let rest = enc_data_batch(ds.drop_first());
        assert(eb == e0 + rest);
        assert forall|i: int| 0 <= i < eb.len() implies #[trigger] b[pos + i] == eb[i] by {
            assert(b.subrange(pos, pos + eb.len() as int)[i] == b[pos + i]);
        }
        assert(b[pos + 0] == eb[0] && b[pos + 1] == eb[1] && b[pos + 2] == eb[2]);
        assert(b[pos] == 0x00u8 && b[pos + 1] == 0x53u8 && b[pos + 2] == 0x75u8);
        assert(has_descriptor(b, pos, 0x75u8));
        assert forall|i: int| 0 <= i < enc_value(dv).len() implies #[trigger] b.subrange(
            pos + 3,
            pos + 3 + enc_value(dv).len() as int,
        )[i] == enc_value(dv)[i] by {
            assert(b[pos + (3 + i)] == eb[3 + i]);
        }
        assert(b.subrange(pos + 3, pos + 3 + enc_value(dv).len() as int) =~= enc_value(dv));
        lemma_parse_enc_value(dv, b, pos + 3);
        let end = pos + e0.len();
        assert forall|i: int| 0 <= i < rest.len() implies #[trigger] b.subrange(
            end,
            end + rest.len() as int,
        )[i] == rest[i] by {
            assert(b.subrange(end, end + rest.len() as int)[i] == b[end + i]);
            assert(b[pos + (e0.len() + i)] == eb[e0.len() + i]);
        }
        assert(b.subrange(end, end + rest.len() as int) =~= rest);
        assert(forall|i: int|
            0 <= i < ds.drop_first().len() ==> (#[trigger] ds.drop_first()[i]).len()
                <= u32::MAX);
        lemma_parse_data_run(ds.drop_first(), b, end);
        assert(seq![ds[0]] + ds.drop_first() =~= ds);
    }
}

/// A run of encoded sequence sections, with nothing sequence-like after
/// it, parses back to its value lists.
proof fn lemma_parse_sequence_run(ss: Seq<Seq<ValueV>>, b: Seq<u8>, pos: int)
    requires
        forall|i: int| 0 <= i < ss.len() ==> wf_sequence_section(#[trigger] ss[i]),
        0 <= pos,
        pos + enc_sequence_batch(ss).len() <= b.len(),
        b.subrange(pos, pos + enc_sequence_batch(ss).len() as int) == enc_sequence_batch(ss),
        !has_descriptor(b, pos + enc_sequence_batch(ss).len(), 0x76u8),
    ensures
        parse_sequence_run(b, pos) == Some((ss, pos + enc_sequence_batch(ss).len())),
    decreases ss.len(),
{
    let eb = enc_sequence_batch(ss);
    if ss.len() == 0 {
        assert(ss =~= Seq::<Seq<ValueV>>::empty());
    } else {
        let e0 = enc_list32(0x76u8, ss[0].len() as u32, enc_values(ss[0]));
        let rest = enc_sequence_batch(ss.drop_first());
        assert(eb == e0 + rest);
        assert forall|i: int| 0 <= i < eb.len() implies #[trigger] b[pos + i] == eb[i] by {
            assert(b.subrange(pos, pos + eb.len() as int)[i] == b[pos + i]);
        }
        assert forall|i: int| 0 <= i < e0.len() implies #[trigger] b.subrange(
            pos,
            pos + e0.len() as int,
        )[i] == e0[i] by {
            assert(b[pos + i] == eb[i]);
        }
        assert(b.subrange(pos, pos + e0.len() as int) =~= e0);
        assert(wf_sequence_section(ss[0]));
        lemma_parse_enc_list32(0x76u8, ss[0], b, pos, false);
        let end = pos + e0.len();
        assert forall|i: int| 0 <= i < rest.len() implies #[trigger] b.subrange(
            end,
            end + rest.len() as int,
        )[i] == rest[i] by {
            assert(b.subrange(end, end + rest.len() as int)[i] == b[end + i]);
            assert(b[pos + (e0.len() + i)] == eb[e0.len() + i]);
        }
        assert(b.subrange(end, end + rest.len() as int) =~= rest);
        assert(forall|i: int|
            0 <= i < ss.drop_first().len() ==> wf_sequence_section(
                #[trigger] ss.drop_first()[i],
            ));
        lemma_parse_sequence_run(ss.drop_first(), b, end);
        assert(seq![ss[0]] + ss.drop_first() =~= ss);
    }
}


/// Appending one value to a list appends its encoding.
proof fn lemma_enc_values_snoc(s: Seq<ValueV>, v: ValueV)
    ensures
        enc_values(s.push(v)) == enc_values(s) + enc_value(v),
    decreases s.len(),
{
    reveal_with_fuel(enc_values, 3);
    if s.len() == 0 {
        assert(s.push(v).drop_first() =~= Seq::<ValueV>::empty());
        assert(s.push(v)[0] == v);
        assert(enc_values(s.push(v)) =~= enc_values(s) + enc_value(v));
    } else {
        assert(s.push(v).drop_first() =~= s.drop_first().push(v));
        assert(s.push(v)[0] == s[0]);
        lemma_enc_values_snoc(s.drop_first(), v);
        assert(enc_values(s.push(v)) =~= enc_values(s) + enc_value(v));
    }
}

/// Appending one entry to a map appends its key and value.
proof fn lemma_map_entry_values_snoc(s: Seq<(Seq<char>, ValueV)>, e: (Seq<char>, ValueV))
    ensures
        map_entry_values(s.push(e)) == map_entry_values(s) + seq![ValueV::String(e.0), e.1],
    decreases s.len(),
{
    reveal_with_fuel(map_entry_values, 3);
    if s.len() == 0 {
        assert(s.push(e).drop_first() =~= Seq::<(Seq<char>, ValueV)>::empty());
        assert(s.push(e)[0] == e);
        assert(map_entry_values(s.push(e)) =~= map_entry_values(s) + seq![
            ValueV::String(e.0),
            e.1,
        ]);
    } else {
        assert(s.push(e).drop_first() =~= s.drop_first().push(e));
        assert(s.push(e)[0] == s[0]);
        lemma_map_entry_values_snoc(s.drop_first(), e);
        assert(map_entry_values(s.push(e)) =~= map_entry_values(s) + seq![
            ValueV::String(e.0),
            e.1,
        ]);
    }
}

/// Appends the encodings of a list of values.
pub fn encode_value_list(out: &mut Vec<u8>, vals: &Vec<Value>)
    requires
        wf_values(crate::messaging::values_view(vals@)),
    ensures
        final(out)@ == old(out)@ + enc_values(crate::messaging::values_view(vals@)),
{
    let ghost vv = crate::messaging::values_view(vals@);
    let mut i: usize = 0;
    while i < vals.len()
        invariant
            i <= vals.len(),
            vv == crate::messaging::values_view(vals@),
            wf_values(vv),
            out@ == old(out)@ + enc_values(vv.take(i as int)),
        decreases vals.len() - i,
    {
        proof {
            assert(vv[i as int] == vals@[i as int]@);
            assert(wf_value(vv[i as int]));
            lemma_enc_values_snoc(vv.take(i as int), vv[i as int]);
            assert(vv.take(i as int).push(vv[i as int]) =~= vv.take(i + 1 as int));
        }
        encode_value(out, &vals[i]);
        i = i + 1;
    }
    proof {
        assert(vv.take(vv.len() as int) =~= vv);
    }
}

/// Appends a described list32 or map32 head.
fn push_composite_head(out: &mut Vec<u8>, code: u8, is_map: bool, count: u32, payload_len: u32)
    requires
        payload_len <= u32::MAX - 4,
    ensures
        final(out)@ == old(out)@ + descriptor(code) + seq![
            (if is_map {
                0xd1u8
            } else {
                0xd0u8
            }),
        ] + be32((payload_len + 4) as u32) + be32(count),
{
    out.push(0x00);
    out.push(0x53);
    out.push(code);
    if is_map {
        out.push(0xd1);
    } else {
        out.push(0xd0);
    }
    push_be32(out, payload_len + 4);
    push_be32(out, count);
    assert(out@ =~= old(out)@ + descriptor(code) + seq![
        (if is_map {
            0xd1u8
        } else {
            0xd0u8
        }),
    ] + be32((payload_len + 4) as u32) + be32(count));
}

/// Builds the value entries of a header section.
fn header_value_list(h: &Header) -> (r: Vec<Value>)
    ensures
        crate::messaging::values_view(r@) == header_values(*h),
{
    let mut vals: Vec<Value> = Vec::new();
    vals.push(Value::Bool(h.durable));
    vals.push(Value::Ubyte(h.priority));
    match h.ttl {
        Some(t) => vals.push(Value::Uint(t)),
        None => vals.push(Value::Null),
    }
    vals.push(Value::Bool(h.first_acquirer));
    vals.push(Value::Uint(h.delivery_count));
    assert(crate::messaging::values_view(vals@) =~= header_values(*h));
    vals
}

/// The value standing for an optional string field.
fn opt_str_to_value(s: &Option<String>) -> (r: Value)
    ensures
        r@ == opt_str_value(crate::messaging::opt_str_view(*s)),
{
    match s {
        Some(s) => Value::String(s.clone()),
        None => Value::Null,
    }
}

/// The value standing for an optional address field.
fn opt_address_to_value(a: &Option<crate::messaging::Address>) -> (r: Value)
    ensures
        r@ == opt_str_value(crate::messaging::opt_address_view(*a)),
{
    match a {
        Some(a) => Value::String(a.0.clone()),
        None => Value::Null,
    }
}

/// The value standing for an optional message-id field.
fn opt_message_id_to_value(m: &Option<MessageId>) -> (r: Value)
    ensures
        r@ == opt_message_id_value(crate::messaging::opt_message_id_view(*m)),
{
    match m {
        Some(MessageId::Ulong(n)) => Value::Ulong(*n),
        Some(MessageId::Uuid(b)) => Value::Uuid(crate::value::copy_bytes(b)),
        Some(MessageId::Binary(b)) => Value::Binary(crate::value::copy_bytes(b)),
        Some(MessageId::String(s)) => Value::String(s.clone()),
        None => Value::Null,
    }
}

/// The value standing for an optional timestamp field.
fn opt_timestamp_to_value(t: &Option<i64>) -> (r: Value)
    ensures
        r@ == opt_timestamp_value(*t),
{
    match t {
        Some(t) => Value::Timestamp(*t),
        None => Value::Null,
    }
}

/// Builds the value entries of a properties section.
fn properties_value_list(p: &Properties) -> (r: Vec<Value>)
    ensures
        crate::messaging::values_view(r@) == properties_values(p@),
{
    let mut vals: Vec<Value> = Vec::new();
    vals.push(opt_message_id_to_value(&p.message_id));
    match &p.user_id {
        Some(b) => vals.push(Value::Binary(crate::value::copy_bytes(b))),
        None => vals.push(Value::Null),
    }
    vals.push(opt_address_to_value(&p.to));
    vals.push(opt_str_to_value(&p.subject));
    vals.push(opt_address_to_value(&p.reply_to));
    vals.push(opt_message_id_to_value(&p.correlation_id));
    vals.push(opt_str_to_value(&p.content_type));
    vals.push(opt_str_to_value(&p.content_encoding));
    vals.push(opt_timestamp_to_value(&p.absolute_expiry_time));
    vals.push(opt_timestamp_to_value(&p.creation_time));
    vals.push(opt_str_to_value(&p.group_id));
    match p.group_sequence {
        Some(n) => vals.push(Value::Uint(n)),
        None => vals.push(Value::Null),
    }
    vals.push(opt_str_to_value(&p.reply_to_group_id));
    assert(crate::messaging::values_view(vals@) =~= properties_values(p@));
    vals
}

/// Builds the interleaved value entries of a map section.
fn map_entry_value_list(entries: &Vec<(String, Value)>) -> (r: Vec<Value>)
    ensures
        crate::messaging::values_view(r@) == map_entry_values(
            crate::value::fields_view(entries@),
        ),
{
    let ghost fv = crate::value::fields_view(entries@);
    let mut vals: Vec<Value> = Vec::new();
    let mut i: usize = 0;
    while i < entries.len()
        invariant
            i <= entries.len(),
            fv == crate::value::fields_view(entries@),
            crate::messaging::values_view(vals@) == map_entry_values(fv.take(i as int)),
        decreases entries.len() - i,
    {
        proof {
            lemma_map_entry_values_snoc(fv.take(i as int), fv[i as int]);
            assert(fv.take(i as int).push(fv[i as int]) =~= fv.take(i + 1 as int));
        }
        let (k, v) = &entries[i];
        vals.push(Value::String(k.clone()));
        vals.push(v.deep_copy());
        assert(crate::messaging::values_view(vals@) =~= map_entry_values(fv.take(i + 1 as int)));
        i = i + 1;
    }
    proof {
        assert(fv.take(fv.len() as int) =~= fv);
    }
    vals
}

/// Appends a whole composite section: head and encoded values.
pub(crate) fn encode_composite_section(out: &mut Vec<u8>, code: u8, is_map: bool, count: u32, vals: &Vec<
    Value,
>)
    requires
        wf_values(crate::messaging::values_view(vals@)),
        enc_values(crate::messaging::values_view(vals@)).len() + 4 <= u32::MAX,
    ensures
        final(out)@ == old(out)@ + (if is_map {
            enc_map32(code, count, enc_values(crate::messaging::values_view(vals@)))
        } else {
            enc_list32(code, count, enc_values(crate::messaging::values_view(vals@)))
        }),
{
    let mut payload: Vec<u8> = Vec::new();
    encode_value_list(&mut payload, vals);
    push_composite_head(out, code, is_map, count, payload.len() as u32);
    crate::codec::push_byte_vec(out, &payload);
    assert(out@ =~= old(out)@ + (if is_map {
        enc_map32(code, count, enc_values(crate::messaging::values_view(vals@)))
    } else {
        enc_list32(code, count, enc_values(crate::messaging::values_view(vals@)))
    }));
}

/// Writes the bytes of a bare message: its sections in order.
#[verifier::rlimit(50)]
pub fn encode_message(m: &Message) -> (r: Vec<u8>)
    requires
        wf_message(m@),
    ensures
        r@ == enc_message(m@),
{
    let mut out: Vec<u8> = Vec::new();
    match &m.header {
        Some(h) => {
            let vals = header_value_list(h);
            proof {
                lemma_header_enc_len(*h);
            }
            encode_composite_section(&mut out, 0x70, false, 5, &vals);
        },
        None => {},
    }
    match &m.properties {
        Some(p) => {
            let vals = properties_value_list(p);
            encode_composite_section(&mut out, 0x73, false, 13, &vals);
        },
        None => {},
    }
    match &m.application_properties {
        Some(ap) => {
            let vals = map_entry_value_list(&ap.0);
            proof {
                lemma_entries_of_map_values(crate::value::fields_view(ap.0@));
            }
            let count = (vals.len()) as u32;
            assert(count == 2 * crate::value::fields_view(ap.0@).len());
            encode_composite_section(&mut out, 0x74, true, count, &vals);
        },
        None => {},
    }
    encode_body_section(&mut out, &m.body);
    assert(out@ =~= enc_message(m@));
    out
}

/// Appends the body's section, if the body holds one.
fn encode_body_section(out: &mut Vec<u8>, body: &Body)
    requires
        wf_body(body@),
    ensures
        final(out)@ == old(out)@ + enc_body(body@),
{
    match body {
        Body::Empty => {
            assert(out@ =~= old(out)@ + enc_body(body@));
        },
        Body::Value(v) => {
            out.push(0x00);
            out.push(0x53);
            out.push(0x77);
            encode_value(out, &v.0);
            assert(out@ =~= old(out)@ + enc_body(body@));
        },
        Body::Data(d) => {
            out.push(0x00);
            out.push(0x53);
            out.push(0x75);
            let bin = Value::Binary(crate::value::copy_bytes(&d.0));
            encode_value(out, &bin);
            assert(out@ =~= old(out)@ + enc_body(body@));
        },
        Body::Sequence(sq) => {
            encode_composite_section(out, 0x76, false, sq.0.len() as u32, &sq.0);
            assert(out@ =~= old(out)@ + enc_body(body@));
        },
        Body::DataBatch(batch) => {
            let ghost dsv = batch@.map_values(|d: Data| d.0@);
            let mut i: usize = 0;
            while i < batch.len()
                invariant
                    i <= batch.len(),
                    dsv == batch@.map_values(|d: Data| d.0@),
                    forall|k: int| 0 <= k < dsv.len() ==> (#[trigger] dsv[k]).len() <= u32::MAX,
                    out@ == old(out)@ + enc_data_batch(dsv.take(i as int)),
                decreases batch.len() - i,
            {
                proof {
                    lemma_enc_data_batch_snoc(dsv.take(i as int), dsv[i as int]);
                    assert(dsv.take(i as int).push(dsv[i as int]) =~= dsv.take(i + 1 as int));
                    assert(dsv[i as int] == batch@[i as int].0@);
                }
                out.push(0x00);
                out.push(0x53);
                out.push(0x75);
                let bin = Value::Binary(crate::value::copy_bytes(&batch[i].0));
                encode_value(out, &bin);
                assert(out@ =~= old(out)@ + enc_data_batch(dsv.take(i + 1 as int)));
                i = i + 1;
            }
            proof {
                assert(dsv.take(dsv.len() as int) =~= dsv);
            }
        },
        Body::SequenceBatch(batch) => {
            let ghost ssv = batch@.map_values(|q: AmqpSequence| crate::messaging::values_view(q.0@));
            let mut i: usize = 0;
            while i < batch.len()
                invariant
                    i <= batch.len(),
                    ssv == batch@.map_values(|q: AmqpSequence| crate::messaging::values_view(q.0@)),
                    forall|k: int|
                        0 <= k < ssv.len() ==> wf_sequence_section(#[trigger] ssv[k]),
                    out@ == old(out)@ + enc_sequence_batch(ssv.take(i as int)),
                decreases batch.len() - i,
            {
                proof {
                    lemma_enc_sequence_batch_snoc(ssv.take(i as int), ssv[i as int]);
                    assert(ssv.take(i as int).push(ssv[i as int]) =~= ssv.take(i + 1 as int));
                    assert(ssv[i as int] == crate::messaging::values_view(batch@[i as int].0@));
                    assert(wf_sequence_section(ssv[i as int]));
                }
                let count = batch[i].0.len() as u32;
                encode_composite_section(out, 0x76, false, count, &batch[i].0);
                assert(out@ =~= old(out)@ + enc_sequence_batch(ssv.take(i + 1 as int)));
                i = i + 1;
            }
            proof {
                assert(ssv.take(ssv.len() as int) =~= ssv);
            }
        },
    }
}

/// Appending one payload to a data batch appends its section.
proof fn lemma_enc_data_batch_snoc(ds: Seq<Seq<u8>>, d: Seq<u8>)
    ensures
        enc_data_batch(ds.push(d)) == enc_data_batch(ds) + descriptor(0x75u8) + enc_value(
            ValueV::Binary(d),
        ),
    decreases ds.len(),
{
    reveal_with_fuel(enc_data_batch, 3);
    if ds.len() == 0 {
        assert(ds.push(d).drop_first() =~= Seq::<Seq<u8>>::empty());
        assert(ds.push(d)[0] == d);
        assert(enc_data_batch(ds.push(d)) =~= enc_data_batch(ds) + descriptor(0x75u8)
            + enc_value(ValueV::Binary(d)));
    } else {
        assert(ds.push(d).drop_first() =~= ds.drop_first().push(d));
        assert(ds.push(d)[0] == ds[0]);
        lemma_enc_data_batch_snoc(ds.drop_first(), d);
        assert(enc_data_batch(ds.push(d)) =~= enc_data_batch(ds) + descriptor(0x75u8)
            + enc_value(ValueV::Binary(d)));
    }
}

/// Appending one value list to a sequence batch appends its section.
proof fn lemma_enc_sequence_batch_snoc(ss: Seq<Seq<ValueV>>, q: Seq<ValueV>)
    ensures
        enc_sequence_batch(ss.push(q)) == enc_sequence_batch(ss) + enc_list32(
            0x76u8,
            q.len() as u32,
            enc_values(q),
        ),
    decreases ss.len(),
{
    reveal_with_fuel(enc_sequence_batch, 3);
    if ss.len() == 0 {
        assert(ss.push(q).drop_first() =~= Seq::<Seq<ValueV>>::empty());
        assert(ss.push(q)[0] == q);
        assert(enc_sequence_batch(ss.push(q)) =~= enc_sequence_batch(ss) + enc_list32(
            0x76u8,
            q.len() as u32,
            enc_values(q),
        ));
    } else {
        assert(ss.push(q).drop_first() =~= ss.drop_first().push(q));
        assert(ss.push(q)[0] == ss[0]);
        lemma_enc_sequence_batch_snoc(ss.drop_first(), q);
        assert(enc_sequence_batch(ss.push(q)) =~= enc_sequence_batch(ss) + enc_list32(
            0x76u8,
            q.len() as u32,
            enc_values(q),
        ));
    }
}

/// Reads `n` consecutive values starting at `pos`.
pub fn decode_value_list(b: &Vec<u8>, pos: usize, n: u32) -> (r: Option<(Vec<Value>, usize)>)
    requires
        pos <= b@.len(),
    ensures
        (match r {
            Some((vals, end)) => {
                &&& parse_values(b@, pos as int, n as nat) == Some(
                    (crate::messaging::values_view(vals@), end as int),
                )
                &&& vals@.len() == n
                &&& pos <= end <= b@.len()
            },
            None => parse_values(b@, pos as int, n as nat) is None,
        }),
{
    let mut vals: Vec<Value> = Vec::new();
    let mut cur: usize = pos;
    let mut i: u32 = 0;
    while i < n
        invariant
            i <= n,
            pos <= cur <= b@.len(),
            vals@.len() == i,
            (match parse_values(b@, cur as int, (n - i) as nat) {
                Some((rest, end)) => parse_values(b@, pos as int, n as nat) == Some(
                    (crate::messaging::values_view(vals@) + rest, end),
                ),
                None => parse_values(b@, pos as int, n as nat) is None,
            }),
        decreases n - i,
    {
        let ghost before = crate::messaging::values_view(vals@);
        match crate::codec::decode_value(b, cur) {
            Some((v, next)) => {
                vals.push(v);
                proof {
                    assert(crate::messaging::values_view(vals@) =~= before.push(v@));
                    assert(forall|rest: Seq<ValueV>|
                        (before + seq![v@]) + rest =~= before + (#[trigger] (seq![v@] + rest)));
                }
                cur = next;
            },
            None => {
                return None;
            },
        }
        i = i + 1;
    }
    proof {
        let empty_rest = Seq::<ValueV>::empty();
        assert(crate::messaging::values_view(vals@) + empty_rest =~= crate::messaging::values_view(
            vals@,
        ));
    }
    Some((vals, cur))
}

/// Reads a composite head at `pos`: the count and the position of the
/// first item.
pub(crate) fn decode_composite_head(b: &Vec<u8>, pos: usize, code: u8, is_map: bool) -> (r: Option<
    (u32, usize),
>)
    requires
        pos + 3 <= b@.len(),
        b@[pos as int] == 0x00u8,
        b@[pos + 1] == 0x53u8,
        b@[pos + 2] == code,
    ensures
        (match r {
            Some((count, items)) => {
                &&& (if is_map {
                    parse_map32_head(b@, pos as int, code)
                } else {
                    parse_list32_head(b@, pos as int, code)
                }) == Some((count, items as int))
                &&& items == pos + 12
                &&& items <= b@.len()
            },
            None => (if is_map {
                parse_map32_head(b@, pos as int, code)
            } else {
                parse_list32_head(b@, pos as int, code)
            }) is None,
        }),
{
    let n = b.len();
    if n - pos < 12 {
        return None;
    }
    let form = b[pos + 3];
    if is_map {
        if form != 0xd1 {
            return None;
        }
    } else {
        if form != 0xd0 {
            return None;
        }
    }
    let count = read_be32(b, pos + 8);
    Some((count, pos + 12))
}

/// Builds a header back from its five decoded entries.
fn header_from_values(vals: &Vec<Value>) -> (r: Option<Header>)
    ensures
        r == header_of_values(crate::messaging::values_view(vals@)),
{
    if vals.len() != 5 {
        return None;
    }
    let durable = match &vals[0] {
        Value::Bool(x) => *x,
        _ => {
            return None;
        },
    };
    let priority = match &vals[1] {
        Value::Ubyte(x) => *x,
        _ => {
            return None;
        },
    };
    let ttl = match &vals[2] {
        Value::Uint(x) => Some(*x),
        Value::Null => None,
        _ => {
            return None;
        },
    };
    let first_acquirer = match &vals[3] {
        Value::Bool(x) => *x,
        _ => {
            return None;
        },
    };
    let delivery_count = match &vals[4] {
        Value::Uint(x) => *x,
        _ => {
            return None;
        },
    };
    Some(Header { durable, priority, ttl, first_acquirer, delivery_count })
}

/// Reads back an optional string entry.
fn opt_str_from_value(v: &Value) -> (r: Option<Option<String>>)
    ensures
        (match r {
            Some(s) => opt_str_of_value(v@) == Some(crate::messaging::opt_str_view(s)),
            None => opt_str_of_value(v@) is None,
        }),
{
    match v {
        Value::String(s) => Some(Some(s.clone())),
        Value::Null => Some(None),
        _ => None,
    }
}

/// Reads back an optional address entry.
fn opt_address_from_value(v: &Value) -> (r: Option<Option<crate::messaging::Address>>)
    ensures
        (match r {
            Some(a) => opt_str_of_value(v@) == Some(crate::messaging::opt_address_view(a)),
            None => opt_str_of_value(v@) is None,
        }),
{
    match v {
        Value::String(s) => Some(Some(crate::messaging::Address(s.clone()))),
        Value::Null => Some(None),
        _ => None,
    }
}

/// Reads back an optional message-id entry.
fn opt_message_id_from_value(v: &Value) -> (r: Option<Option<MessageId>>)
    ensures
        (match r {
            Some(m) => opt_message_id_of_value(v@) == Some(
                crate::messaging::opt_message_id_view(m),
            ),
            None => opt_message_id_of_value(v@) is None,
        }),
{
    match v {
        Value::Ulong(n) => Some(Some(MessageId::Ulong(*n))),
        Value::Uuid(b) => Some(Some(MessageId::Uuid(crate::value::copy_bytes(b)))),
        Value::Binary(b) => Some(Some(MessageId::Binary(crate::value::copy_bytes(b)))),
        Value::String(s) => Some(Some(MessageId::String(s.clone()))),
        Value::Null => Some(None),
        _ => None,
    }
}

/// Reads back an optional timestamp entry.
fn opt_timestamp_from_value(v: &Value) -> (r: Option<Option<i64>>)
    ensures
        r == opt_timestamp_of_value(v@),
{
    match v {
        Value::Timestamp(t) => Some(Some(*t)),
        Value::Null => Some(None),
        _ => None,
    }
}

/// Builds a properties section back from its thirteen decoded entries.
#[verifier::rlimit(100)]
fn properties_from_values(vals: &Vec<Value>) -> (r: Option<Properties>)
    ensures
        (match r {
            Some(p) => properties_of_values(crate::messaging::values_view(vals@)) == Some(p@),
            None => properties_of_values(crate::messaging::values_view(vals@)) is None,
        }),
{
    if vals.len() != 13 {
        return None;
    }
    let message_id = match opt_message_id_from_value(&vals[0]) {
        Some(x) => x,
        None => {
            return None;
        },
    };
    let user_id = match &vals[1] {
        Value::Binary(b) => Some(crate::value::copy_bytes(b)),
        Value::Null => None,
        _ => {
            return None;
        },
    };
    let to = match opt_address_from_value(&vals[2]) {
        Some(x) => x,
        None => {
            return None;
        },
    };
    let subject = match opt_str_from_value(&vals[3]) {
        Some(x) => x,
        None => {
            return None;
        },
    };
    let reply_to = match opt_address_from_value(&vals[4]) {
        Some(x) => x,
        None => {
            return None;
        },
    };
    let correlation_id = match opt_message_id_from_value(&vals[5]) {
        Some(x) => x,
        None => {
            return None;
        },
    };
    let content_type = match opt_str_from_value(&vals[6]) {
        Some(x) => x,
        None => {
            return None;
        },
    };
    let content_encoding = match opt_str_from_value(&vals[7]) {
        Some(x) => x,
        None => {
            return None;
        },
    };
    let absolute_expiry_time = match opt_timestamp_from_value(&vals[8]) {
        Some(x) => x,
        None => {
            return None;
        },
    };
    let creation_time = match opt_timestamp_from_value(&vals[9]) {
        Some(x) => x,
        None => {
            return None;
        },
    };
    let group_id = match opt_str_from_value(&vals[10]) {
        Some(x) => x,
        None => {
            return None;
        },
    };
    let group_sequence = match &vals[11] {
        Value::Uint(n) => Some(*n),
        Value::Null => None,
        _ => {
            return None;
        },
    };
    let reply_to_group_id = match opt_str_from_value(&vals[12]) {
        Some(x) => x,
        None => {
            return None;
        },
    };
    Some(
        Properties {
            message_id,
            user_id,
            to,
            subject,
            reply_to,
            correlation_id,
            content_type,
            content_encoding,
            absolute_expiry_time,
            creation_time,
            group_id,
            group_sequence,
            reply_to_group_id,
        },
    )
}

/// Pairs the interleaved entries of a decoded map section back up.
fn entries_from_values(vals: &Vec<Value>) -> (r: Option<Vec<(String, Value)>>)
    ensures
        (match r {
            Some(entries) => entries_of_values(crate::messaging::values_view(vals@)) == Some(
                crate::value::fields_view(entries@),
            ),
            None => entries_of_values(crate::messaging::values_view(vals@)) is None,
        }),
{
    let ghost vv = crate::messaging::values_view(vals@);
    let mut out: Vec<(String, Value)> = Vec::new();
    let mut i: usize = 0;
    if vals.len() % 2 != 0 {
        proof {
            lemma_entries_odd(vv);
        }
        return None;
    }
    proof {
        assert(vv.skip(0) =~= vv);
        match entries_of_values(vv) {
            Some(rest) => {
                assert(crate::value::fields_view(out@) + rest =~= rest);
            },
            None => {},
        }
    }
    while i < vals.len()
        invariant
            i <= vals.len(),
            i % 2 == 0,
            vals@.len() % 2 == 0,
            vv == crate::messaging::values_view(vals@),
            out@.len() * 2 == i,
            (match entries_of_values(vv.skip(i as int)) {
                Some(rest) => entries_of_values(vv) == Some(
                    crate::value::fields_view(out@) + rest,
                ),
                None => entries_of_values(vv) is None,
            }),
        decreases vals.len() - i,
    {
        let ghost before = crate::value::fields_view(out@);
        let k = match &vals[i] {
            Value::String(k) => k.clone(),
            _ => {
                return None;
            },
        };
        let v = vals[i + 1].deep_copy();
        proof {
            assert(vv.skip(i as int)[0] == vv[i as int]);
            assert(vv.skip(i as int)[1] == vv[i + 1]);
            assert(vv.skip(i as int).skip(2) =~= vv.skip(i + 2));
            assert(vv.skip(i as int).len() >= 2);
        }
        out.push((k, v));
        proof {
            assert(crate::value::fields_view(out@) =~= before.push((k@, v@)));
            assert(forall|rest: Seq<(Seq<char>, ValueV)>|
                (before + seq![(k@, v@)]) + rest =~= before + (#[trigger] (seq![(k@, v@)]
                    + rest)));
        }
        i = i + 2;
    }
    proof {
        assert(vv.skip(vv.len() as int).len() == 0);
        let empty_rest = Seq::<(Seq<char>, ValueV)>::empty();
        assert(crate::value::fields_view(out@) + empty_rest =~= crate::value::fields_view(out@));
    }
    Some(out)
}

/// An odd run of entries pairs up with one left over: it is no map.
proof fn lemma_entries_odd(vv: Seq<ValueV>)
    requires
        vv.len() % 2 != 0,
    ensures
        entries_of_values(vv) is None,
    decreases vv.len(),
{
    if vv.len() > 1 {
        lemma_entries_odd(vv.skip(2));
    }
}

/// Reads the body at `pos`: at most one section reaching to the end.
fn decode_body(b: &Vec<u8>, pos: usize) -> (r: Option<Body>)
    requires
        pos <= b@.len(),
    ensures
        (match r {
            Some(body) => parse_body(b@, pos as int) == Some(body@),
            None => parse_body(b@, pos as int) is None,
        }),
{
    let n = b.len();
    if pos == n {
        return Some(Body::Empty);
    }
    if n - pos < 3 || b[pos] != 0x00 || b[pos + 1] != 0x53 {
        return None;
    }
    let code = b[pos + 2];
    if code == 0x77 {
        match crate::codec::decode_value(b, pos + 3) {
            Some((v, end)) => {
                if end == n {
                    Some(Body::Value(AmqpValue(v)))
                } else {
                    None
                }
            },
            None => None,
        }
    } else if code == 0x75 {
        let (ds, end) = match decode_data_run(b, pos) {
            Some(run) => run,
            None => {
                return None;
            },
        };
        if end != n {
            return None;
        }
        if ds.len() == 1 {
            let mut ds = ds;
            let first = match ds.pop() {
                Some(first) => first,
                None => {
                    return None;
                },
            };
            proof {
                assert(first.0@ == ds@.push(first).map_values(|d: Data| d.0@)[0]);
            }
            Some(Body::Data(first))
        } else if ds.len() >= 2 {
            Some(Body::DataBatch(ds))
        } else {
            proof {
                assert(false);
            }
            None
        }
    } else if code == 0x76 {
        let (ss, end) = match decode_sequence_run(b, pos) {
            Some(run) => run,
            None => {
                return None;
            },
        };
        if end != n {
            return None;
        }
        if ss.len() == 1 {
            let mut ss = ss;
            let first = match ss.pop() {
                Some(first) => first,
                None => {
                    return None;
                },
            };
            proof {
                assert(crate::messaging::values_view(first.0@) == ss@.push(first).map_values(
                    |q: AmqpSequence| crate::messaging::values_view(q.0@),
                )[0]);
            }
            Some(Body::Sequence(first))
        } else if ss.len() >= 2 {
            Some(Body::SequenceBatch(ss))
        } else {
            proof {
                assert(false);
            }
            None
        }
    } else {
        None
    }
}

/// Reads the maximal run of data sections starting at `pos`.
fn decode_data_run(b: &Vec<u8>, pos: usize) -> (r: Option<(Vec<Data>, usize)>)
    requires
        pos <= b@.len(),
        has_descriptor(b@, pos as int, 0x75u8),
    ensures
        (match r {
            Some((ds, end)) => {
                &&& parse_data_run(b@, pos as int) == Some(
                    (ds@.map_values(|d: Data| d.0@), end as int),
                )
                &&& ds@.len() >= 1
                &&& pos <= end <= b@.len()
            },
            None => parse_data_run(b@, pos as int) is None,
        }),
{
    let n = b.len();
    let mut ds: Vec<Data> = Vec::new();
    let mut cur: usize = pos;
    loop
        invariant
            pos <= cur <= n,
            n == b@.len(),
            (match parse_data_run(b@, cur as int) {
                Some((rest, fin)) => parse_data_run(b@, pos as int) == Some(
                    (ds@.map_values(|d: Data| d.0@) + rest, fin),
                ),
                None => parse_data_run(b@, pos as int) is None,
            }),
            cur == pos ==> ds@.len() == 0,
            cur > pos ==> ds@.len() >= 1,
            has_descriptor(b@, pos as int, 0x75u8),
        decreases n - cur,
    {
        if !(n - cur >= 3 && b[cur] == 0x00 && b[cur + 1] == 0x53 && b[cur + 2] == 0x75) {
            if cur == pos {
                // The caller saw the descriptor: the run cannot be empty.
                proof {
                    assert(false);
                }
                return None;
            }
            proof {
                let empty_rest = Seq::<Seq<u8>>::empty();
                assert(ds@.map_values(|d: Data| d.0@) + empty_rest =~= ds@.map_values(
                    |d: Data| d.0@,
                ));
            }
            return Some((ds, cur));
        }
        let ghost before = ds@.map_values(|d: Data| d.0@);
        match crate::codec::decode_value(b, cur + 3) {
            Some((Value::Binary(d), end)) => {
                ds.push(Data(d));
                proof {
                    assert(ds@.map_values(|d2: Data| d2.0@) =~= before.push(d@));
                    assert(forall|rest: Seq<Seq<u8>>|
                        (before + seq![d@]) + rest =~= before + (#[trigger] (seq![d@] + rest)));
                }
                cur = end;
            },
            Some((_, _)) => {
                return None;
            },
            None => {
                return None;
            },
        }
    }
}

/// Reads the maximal run of sequence sections starting at `pos`.
fn decode_sequence_run(b: &Vec<u8>, pos: usize) -> (r: Option<(Vec<AmqpSequence>, usize)>)
    requires
        pos <= b@.len(),
        has_descriptor(b@, pos as int, 0x76u8),
    ensures
        (match r {
            Some((ss, end)) => {
                &&& parse_sequence_run(b@, pos as int) == Some(
                    (
                        ss@.map_values(
                            |q: AmqpSequence| crate::messaging::values_view(q.0@),
                        ),
                        end as int,
                    ),
                )
                &&& ss@.len() >= 1
                &&& pos <= end <= b@.len()
            },
            None => parse_sequence_run(b@, pos as int) is None,
        }),
{
    let n = b.len();
    let mut ss: Vec<AmqpSequence> = Vec::new();
    let mut cur: usize = pos;
    loop
        invariant
            pos <= cur <= n,
            n == b@.len(),
            (match parse_sequence_run(b@, cur as int) {
                Some((rest, fin)) => parse_sequence_run(b@, pos as int) == Some(
                    (
                        ss@.map_values(
                            |q: AmqpSequence| crate::messaging::values_view(q.0@),
                        ) + rest,
                        fin,
                    ),
                ),
                None => parse_sequence_run(b@, pos as int) is None,
            }),
            cur == pos ==> ss@.len() == 0,
            cur > pos ==> ss@.len() >= 1,
            has_descriptor(b@, pos as int, 0x76u8),
        decreases n - cur,
    {
        if !(n - cur >= 3 && b[cur] == 0x00 && b[cur + 1] == 0x53 && b[cur + 2] == 0x76) {
            if cur == pos {
                proof {
                    assert(false);
                }
                return None;
            }
            proof {
                let empty_rest = Seq::<Seq<ValueV>>::empty();
                assert(ss@.map_values(|q: AmqpSequence| crate::messaging::values_view(q.0@))
                    + empty_rest =~= ss@.map_values(
                    |q: AmqpSequence| crate::messaging::values_view(q.0@),
                ));
            }
            return Some((ss, cur));
        }
        let ghost before = ss@.map_values(|q: AmqpSequence| crate::messaging::values_view(q.0@));
        let (count, items) = match decode_composite_head(b, cur, 0x76, false) {
            Some(head) => head,
            None => {
                return None;
            },
        };
        let (vals, end) = match decode_value_list(b, items, count) {
            Some(parsed) => parsed,
            None => {
                return None;
            },
        };
        let ghost vv = crate::messaging::values_view(vals@);
        ss.push(AmqpSequence(vals));
        proof {
            assert(ss@.map_values(|q: AmqpSequence| crate::messaging::values_view(q.0@))
                =~= before.push(vv));
            assert(forall|rest: Seq<Seq<ValueV>>|
                (before + seq![vv]) + rest =~= before + (#[trigger] (seq![vv] + rest)));
        }
        cur = end;
    }
}

/// Reads a bare message back from its bytes.
/// Reads a bare message back from its bytes.
pub fn decode_message(b: &Vec<u8>) -> (r: Option<Message>)
    ensures
        (match r {
            Some(m) => parse_message(b@) == Some(m@),
            None => parse_message(b@) is None,
        }),
{
    let n = b.len();
    let mut pos: usize = 0;
    let header: Option<Header> = (if n >= 3 && b[0] == 0x00 && b[1] == 0x53 && b[2] == 0x70 {
        match decode_composite_head(b, 0, 0x70, false) {
            Some((count, items)) => {
                if count != 5 {
                    return None;
                }
                match decode_value_list(b, items, 5) {
                    Some((vals, end)) => match header_from_values(&vals) {
                        Some(h) => {
                            pos = end;
                            Some(h)
                        },
                        None => {
                            return None;
                        },
                    },
                    None => {
                        return None;
                    },
                }
            },
            None => {
                return None;
            },
        }
    } else {
        None
    });
    assert(parse_header_step(b@) == Some((header, pos as int)));
    let properties: Option<Properties> = (if n - pos >= 3 && b[pos] == 0x00 && b[pos + 1] == 0x53
        && b[pos + 2] == 0x73 {
        match decode_composite_head(b, pos, 0x73, false) {
            Some((count, items)) => {
                if count != 13 {
                    return None;
                }
                match decode_value_list(b, items, 13) {
                    Some((vals, end)) => match properties_from_values(&vals) {
                        Some(p) => {
                            pos = end;
                            Some(p)
                        },
                        None => {
                            return None;
                        },
                    },
                    None => {
                        return None;
                    },
                }
            },
            None => {
                return None;
            },
        }
    } else {
        None
    });
    let application_properties: Option<ApplicationProperties> = (if n - pos >= 3 && b[pos] == 0x00
        && b[pos + 1] == 0x53 && b[pos + 2] == 0x74 {
        match decode_composite_head(b, pos, 0x74, true) {
            Some((count, items)) => match decode_value_list(b, items, count) {
                Some((vals, end)) => match entries_from_values(&vals) {
                    Some(entries) => {
                        pos = end;
                        Some(ApplicationProperties(entries))
                    },
                    None => {
                        return None;
                    },
                },
                None => {
                    return None;
                },
            },
            None => {
                return None;
            },
        }
    } else {
        None
    });
    let body = match decode_body(b, pos) {
        Some(body) => body,
        None => {
            return None;
        },
    };
    Some(
        Message {
            header,
            delivery_annotations: None,
            message_annotations: None,
            properties,
            application_properties,
            body,
            footer: None,
        },
    )
}

} // verus!
