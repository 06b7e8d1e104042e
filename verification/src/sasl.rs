//! The security-tier frame bodies and their codec: descriptor-tagged
//! composites over the value codec.

use vstd::prelude::*;

use crate::messaging::values_view;
use crate::sections::{
    decode_composite_head, decode_value_list, enc_list32, enc_values, encode_composite_section,
    parse_list32_head, parse_values, wf_values,
};
use crate::value::{Value, ValueV};

verus! {

/// The mechanisms a server offers (5.3.3.1).
#[derive(Debug)]
pub struct SaslMechanisms {
    pub sasl_server_mechanisms: Vec<String>,
}

/// A client's chosen mechanism and initial response (5.3.3.2).
#[derive(Debug)]
pub struct SaslInit {
    pub mechanism: String,
    pub initial_response: Option<Vec<u8>>,
    pub hostname: Option<String>,
}

/// A server challenge (5.3.3.3).
#[derive(Debug)]
pub struct SaslChallenge {
    pub challenge: Vec<u8>,
}

/// A client response (5.3.3.4).
#[derive(Debug)]
pub struct SaslResponse {
    pub response: Vec<u8>,
}

/// The outcome of the negotiation (5.3.3.5).
#[derive(Debug)]
pub struct SaslOutcome {
    pub code: u8,
    pub additional_data: Option<Vec<u8>>,
}

/// The body of a security-tier frame.
#[derive(Debug)]
pub enum Frame {
    Mechanisms(SaslMechanisms),
    Init(SaslInit),
    Challenge(SaslChallenge),
    Response(SaslResponse),
    Outcome(SaslOutcome),
}

/// The model of a security-tier frame body.
pub enum SaslFrameV {
    Mechanisms(Seq<Seq<char>>),
    Init { mechanism: Seq<char>, initial_response: Option<Seq<u8>>, hostname: Option<Seq<char>> },
    Challenge(Seq<u8>),
    Response(Seq<u8>),
    Outcome { code: u8, additional_data: Option<Seq<u8>> },
}

impl View for Frame {
    type V = SaslFrameV;

    open spec fn view(&self) -> SaslFrameV {
        match self {
            Frame::Mechanisms(m) => SaslFrameV::Mechanisms(
                m.sasl_server_mechanisms@.map_values(|s: String| s@),
            ),
            Frame::Init(i) => SaslFrameV::Init {
                mechanism: i.mechanism@,
                initial_response: (match i.initial_response {
                    Some(b) => Some(b@),
                    None => None,
                }),
                hostname: (match i.hostname {
                    Some(h) => Some(h@),
                    None => None,
                }),
            },
            Frame::Challenge(c) => SaslFrameV::Challenge(c.challenge@),
            Frame::Response(p) => SaslFrameV::Response(p.response@),
            Frame::Outcome(o) => SaslFrameV::Outcome {
                code: o.code,
                additional_data: (match o.additional_data {
                    Some(b) => Some(b@),
                    None => None,
                }),
            },
        }
    }
}

/// The list entries of a frame body.
pub open spec fn sasl_frame_values(f: SaslFrameV) -> Seq<ValueV> {
    match f {
        SaslFrameV::Mechanisms(ms) => ms.map_values(|s: Seq<char>| ValueV::Symbol(s)),
        SaslFrameV::Init { mechanism, initial_response, hostname } => seq![
            ValueV::Symbol(mechanism),
            (match initial_response {
                Some(b) => ValueV::Binary(b),
                None => ValueV::Null,
            }),
            (match hostname {
                Some(h) => ValueV::String(h),
                None => ValueV::Null,
            }),
        ],
        SaslFrameV::Challenge(c) => seq![ValueV::Binary(c)],
        SaslFrameV::Response(p) => seq![ValueV::Binary(p)],
        SaslFrameV::Outcome { code, additional_data } => seq![
            ValueV::Ubyte(code),
            (match additional_data {
                Some(b) => ValueV::Binary(b),
                None => ValueV::Null,
            }),
        ],
    }
}

/// The descriptor code of a frame body.
pub open spec fn sasl_frame_code(f: SaslFrameV) -> u8 {
    match f {
        SaslFrameV::Mechanisms(_) => 0x40u8,
        SaslFrameV::Init { .. } => 0x41u8,
        SaslFrameV::Challenge(_) => 0x42u8,
        SaslFrameV::Response(_) => 0x43u8,
        SaslFrameV::Outcome { .. } => 0x44u8,
    }
}

/// The bytes of a frame body: its descriptor and entry list.
pub open spec fn enc_sasl_frame(f: SaslFrameV) -> Seq<u8> {
    enc_list32(
        sasl_frame_code(f),
        sasl_frame_values(f).len() as u32,
        enc_values(sasl_frame_values(f)),
    )
}

/// A frame the codec can carry: strings are ASCII and lengths fit the
/// wire's fields.
pub open spec fn wf_sasl_frame(f: SaslFrameV) -> bool {
    &&& wf_values(sasl_frame_values(f))
    &&& sasl_frame_values(f).len() <= u32::MAX
    &&& enc_values(sasl_frame_values(f)).len() + 4 <= u32::MAX
}

/// Whether every entry is a symbol.
pub open spec fn all_symbols(vs: Seq<ValueV>) -> bool {
    forall|i: int| 0 <= i < vs.len() ==> (#[trigger] vs[i]) is Symbol
}

/// The frame a descriptor code and entry list name.
pub open spec fn sasl_frame_of_values(code: u8, vs: Seq<ValueV>) -> Option<SaslFrameV> {
    if code == 0x40u8 {
        (if all_symbols(vs) {
            Some(
                SaslFrameV::Mechanisms(
                    vs.map_values(
                        |v: ValueV|
                            match v {
                                ValueV::Symbol(s) => s,
                                _ => Seq::empty(),
                            },
                    ),
                ),
            )
        } else {
            None
        })
    } else if code == 0x41u8 {
        if vs.len() == 3 {
            match (vs[0], vs[1], vs[2]) {
                (ValueV::Symbol(mechanism), ir, hn) => {
                    let initial_response = (match ir {
                        ValueV::Binary(b) => Some(Some(b)),
                        ValueV::Null => Some(None),
                        _ => None,
                    });
                    let hostname = (match hn {
                        ValueV::String(h) => Some(Some(h)),
                        ValueV::Null => Some(None),
                        _ => None,
                    });
                    match (initial_response, hostname) {
                        (Some(initial_response), Some(hostname)) => Some(
                            SaslFrameV::Init { mechanism, initial_response, hostname },
                        ),
                        _ => None,
                    }
                },
                _ => None,
            }
        } else {
            None
        }
    } else if code == 0x42u8 {
        if vs.len() == 1 {
            match vs[0] {
                ValueV::Binary(c) => Some(SaslFrameV::Challenge(c)),
                _ => None,
            }
        } else {
            None
        }
    } else if code == 0x43u8 {
        if vs.len() == 1 {
            match vs[0] {
                ValueV::Binary(p) => Some(SaslFrameV::Response(p)),
                _ => None,
            }
        } else {
            None
        }
    } else if code == 0x44u8 {
        if vs.len() == 2 {
            match (vs[0], vs[1]) {
                (ValueV::Ubyte(code_v), ad) => (match ad {
                    ValueV::Binary(b) => Some(
                        SaslFrameV::Outcome { code: code_v, additional_data: Some(b) },
                    ),
                    ValueV::Null => Some(
                        SaslFrameV::Outcome { code: code_v, additional_data: None },
                    ),
                    _ => None,
                }),
                _ => None,
            }
        } else {
            None
        }
    } else {
        None
    }
}

/// The parser the frame decoder implements.
pub open spec fn parse_sasl_frame(b: Seq<u8>) -> Option<SaslFrameV> {
    if b.len() >= 3 && b[0] == 0x00u8 && b[1] == 0x53u8 {
        let code = b[2];
        match parse_list32_head(b, 0, code) {
            Some((count, items)) => match parse_values(b, items, count as nat) {
                Some((vs, end)) => (if end == b.len() {
                    sasl_frame_of_values(code, vs)
                } else {
                    None
                }),
                None => None,
            },
            None => None,
        }
    } else {
        None
    }
}

/// The codec of security-tier frame bodies.
#[derive(Debug)]
pub struct FrameCodec {}

impl FrameCodec {
    /// Writes a frame body onto the buffer.
    pub fn encode(&mut self, item: Frame, dst: &mut Vec<u8>) -> (r: Result<(), ()>)
        requires
            wf_sasl_frame(item@),
        ensures
            r is Ok,
            final(dst)@ == old(dst)@ + enc_sasl_frame(item@),
    {
        let ghost fv = item@;
        let (code, vals): (u8, Vec<Value>) = match item {
            Frame::Mechanisms(m) => {
                let mut vals: Vec<Value> = Vec::new();
                let mut i: usize = 0;
                let ms = m.sasl_server_mechanisms;
                while i < ms.len()
                    invariant
                        i <= ms.len(),
                        vals@.len() == i,
                        forall|j: int|
                            0 <= j < i ==> (#[trigger] vals@[j])@ == ValueV::Symbol(ms@[j]@),
                    decreases ms.len() - i,
                {
                    vals.push(Value::Symbol(ms[i].clone()));
                    i = i + 1;
                }
                assert(values_view(vals@) =~= sasl_frame_values(fv));
                (0x40, vals)
            },
            Frame::Init(init) => {
                let mut vals: Vec<Value> = Vec::new();
                vals.push(Value::Symbol(init.mechanism));
                match init.initial_response {
                    Some(b) => vals.push(Value::Binary(b)),
                    None => vals.push(Value::Null),
                }
                match init.hostname {
                    Some(h) => vals.push(Value::String(h)),
                    None => vals.push(Value::Null),
                }
                assert(values_view(vals@) =~= sasl_frame_values(fv));
                (0x41, vals)
            },
            Frame::Challenge(c) => {
                let mut vals: Vec<Value> = Vec::new();
                vals.push(Value::Binary(c.challenge));
                assert(values_view(vals@) =~= sasl_frame_values(fv));
                (0x42, vals)
            },
            Frame::Response(p) => {
                let mut vals: Vec<Value> = Vec::new();
                vals.push(Value::Binary(p.response));
                assert(values_view(vals@) =~= sasl_frame_values(fv));
                (0x43, vals)
            },
            Frame::Outcome(o) => {
                let mut vals: Vec<Value> = Vec::new();
                vals.push(Value::Ubyte(o.code));
                match o.additional_data {
                    Some(b) => vals.push(Value::Binary(b)),
                    None => vals.push(Value::Null),
                }
                assert(values_view(vals@) =~= sasl_frame_values(fv));
                (0x44, vals)
            },
        };
        encode_composite_section(dst, code, false, vals.len() as u32, &vals);
        Ok(())
    }

    /// Reads a frame body back from the buffer.
    #[verifier::rlimit(80)]
    pub fn decode(&mut self, src: &Vec<u8>) -> (r: Option<Frame>)
        ensures
            (match r {
                Some(f) => parse_sasl_frame(src@) == Some(f@),
                None => parse_sasl_frame(src@) is None,
            }),
    {
        let n = src.len();
        if n < 3 || src[0] != 0x00 || src[1] != 0x53 {
            return None;
        }
        let code = src[2];
        let (count, items) = match decode_composite_head(src, 0, code, false) {
            Some(head) => head,
            None => {
                return None;
            },
        };
        let (vals, end) = match decode_value_list(src, items, count) {
            Some(parsed) => parsed,
            None => {
                return None;
            },
        };
        if end != n {
            return None;
        }
        if code == 0x40 {
            assert(parse_sasl_frame(src@) == sasl_frame_of_values(0x40u8, values_view(vals@)));
            let mut ms: Vec<String> = Vec::new();
            let mut i: usize = 0;
            while i < vals.len()
                invariant
                    i <= vals.len(),
                    ms@.len() == i,
                    parse_sasl_frame(src@) == sasl_frame_of_values(
                        0x40u8,
                        values_view(vals@),
                    ),
                    forall|j: int|
                        0 <= j < i ==> (#[trigger] vals@[j])@ == ValueV::Symbol(ms@[j]@),
                decreases vals.len() - i,
            {
                match &vals[i] {
                    Value::Symbol(s) => {
                        ms.push(s.clone());
                    },
                    _ => {
                        proof {
                            let vv = values_view(vals@);
                            assert(vv[i as int] == vals@[i as int]@);
                            assert(!all_symbols(vv)) by {
                                if all_symbols(vv) {
                                    assert(vv[i as int] is Symbol);
                                }
                            }
                            assert(sasl_frame_of_values(0x40u8, values_view(vals@)) is None);
                        }
                        return None;
                    },
                }
                i = i + 1;
            }
            let frame = Frame::Mechanisms(SaslMechanisms { sasl_server_mechanisms: ms });
            proof {
                let vv = values_view(vals@);
                assert(all_symbols(vv));
                assert(frame@ == SaslFrameV::Mechanisms(
                    vv.map_values(
                        |v: ValueV|
                            match v {
                                ValueV::Symbol(s) => s,
                                _ => Seq::empty(),
                            },
                    ),
                )) by {
                    assert(ms@.map_values(|s: String| s@) =~= vv.map_values(
                        |v: ValueV|
                            match v {
                                ValueV::Symbol(s) => s,
                                _ => Seq::empty(),
                            },
                    ));
                }
            }
            Some(frame)
        } else if code == 0x41 {
            if vals.len() != 3 {
                return None;
            }
            let mechanism = match &vals[0] {
                Value::Symbol(s) => s.clone(),
                _ => {
                    return None;
                },
            };
            let initial_response = match &vals[1] {
                Value::Binary(b) => Some(crate::value::copy_bytes(b)),
                Value::Null => None,
                _ => {
                    return None;
                },
            };
            let hostname = match &vals[2] {
                Value::String(h) => Some(h.clone()),
                Value::Null => None,
                _ => {
                    return None;
                },
            };
            Some(Frame::Init(SaslInit { mechanism, initial_response, hostname }))
        } else if code == 0x42 {
            if vals.len() != 1 {
                return None;
            }
            match &vals[0] {
                Value::Binary(c) => Some(
                    Frame::Challenge(SaslChallenge { challenge: crate::value::copy_bytes(c) }),
                ),
                _ => None,
            }
        } else if code == 0x43 {
            if vals.len() != 1 {
                return None;
            }
            match &vals[0] {
                Value::Binary(p) => Some(
                    Frame::Response(SaslResponse { response: crate::value::copy_bytes(p) }),
                ),
                _ => None,
            }
        } else if code == 0x44 {
            if vals.len() != 2 {
                return None;
            }
            let out_code = match &vals[0] {
                Value::Ubyte(c) => *c,
                _ => {
                    return None;
                },
            };
            let additional_data = match &vals[1] {
                Value::Binary(b) => Some(crate::value::copy_bytes(b)),
                Value::Null => None,
                _ => {
                    return None;
                },
            };
            Some(Frame::Outcome(SaslOutcome { code: out_code, additional_data }))
        } else {
            None
        }
    }
}


/// A well-formed frame body's bytes parse back to the frame: encoding
/// and decoding of security-tier frames are mutually inverse.
pub proof fn lemma_sasl_frame_round_trip(f: SaslFrameV)
    requires
        wf_sasl_frame(f),
    ensures
        parse_sasl_frame(enc_sasl_frame(f)) == Some(f),
{
    let vals = sasl_frame_values(f);
    let code = sasl_frame_code(f);
    let b = enc_sasl_frame(f);
    assert(b.subrange(0, b.len() as int) =~= b);
    crate::sections::lemma_parse_enc_list32(code, vals, b, 0, false);
    assert(b.len() == 12 + enc_values(vals).len());
    match f {
        SaslFrameV::Mechanisms(ms) => {
            assert(all_symbols(vals)) by {
                assert(forall|i: int|
                    0 <= i < vals.len() ==> #[trigger] vals[i] == ValueV::Symbol(ms[i]));
            }
            assert(vals.map_values(
                |v: ValueV|
                    match v {
                        ValueV::Symbol(sym) => sym,
                        _ => Seq::empty(),
                    },
            ) =~= ms);
        },
        SaslFrameV::Init { .. } => {
            assert(vals.len() == 3);
        },
        SaslFrameV::Challenge(_) => {
            assert(vals.len() == 1);
        },
        SaslFrameV::Response(_) => {
            assert(vals.len() == 1);
        },
        SaslFrameV::Outcome { .. } => {
            assert(vals.len() == 2);
        },
    }
}

} // verus!
