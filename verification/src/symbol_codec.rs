//! Writing condition symbols through the outside serializer, and reading
//! them back with the verified decoder.

use vstd::prelude::*;

use crate::codec::{decode_value, enc_value, parse_value, wf_str};
use crate::definitions::{link_error_symbol, parse_link_error, LinkError};
use crate::value::{Value, ValueV};

verus! {

/// Relies on `serde_amqp::to_vec` on a `Symbol`: an ASCII symbol is
/// written as its sym8 or sym32 form, one byte per character, with the
/// small form below 255 bytes. The writer is a vector, so the only
/// failure in the source is a symbol longer than the wire's 32-bit
/// length field carries: anything shorter encodes.
#[verifier::external_body]
fn amqp_encode_symbol(s: &String) -> (r: Option<Vec<u8>>)
    requires
        wf_str(s@),
    ensures
        (match r {
            Some(v) => v@ == enc_value(ValueV::Symbol(s@)),
            None => s@.len() > u32::MAX - 4,
        }),
{
    match serde_amqp::to_vec(&serde_amqp::primitives::Symbol::from(s.as_str())) {
        Ok(v) => Some(v),
        Err(_) => None,
    }
}

/// The five condition symbols are short ASCII strings.
proof fn lemma_link_error_symbol_wf(e: LinkError)
    ensures
        wf_str(link_error_symbol(e)),
{
    reveal_strlit("amqp:link:detach-forced");
    reveal_strlit("amqp:link:transfer-limit-exceeded");
    reveal_strlit("amqp:link:message-size-exceeded");
    reveal_strlit("amqp:link:redirect");
    reveal_strlit("amqp:link:stolen");
}

/// Writes a link error's condition symbol in its wire form: the five
/// condition symbols are short, so the encoding always succeeds.
pub fn link_error_to_amqp_bytes(e: &LinkError) -> (r: Option<Vec<u8>>)
    ensures
        r is Some,
        (match r {
            Some(v) => v@ == enc_value(ValueV::Symbol(link_error_symbol(*e))),
            None => false,
        }),
{
    proof {
        lemma_link_error_symbol_wf(*e);
        lemma_link_error_symbol_short(*e);
    }
    let symbol = e.symbol();
    amqp_encode_symbol(&symbol)
}

/// The five condition symbols fit the wire's length field.
proof fn lemma_link_error_symbol_short(e: LinkError)
    ensures
        link_error_symbol(e).len() <= u32::MAX - 4,
{
    reveal_strlit("amqp:link:detach-forced");
    reveal_strlit("amqp:link:transfer-limit-exceeded");
    reveal_strlit("amqp:link:message-size-exceeded");
    reveal_strlit("amqp:link:redirect");
    reveal_strlit("amqp:link:stolen");
}

/// Reads a link error back from the wire form of its condition symbol.
pub fn link_error_from_amqp_bytes(b: &Vec<u8>) -> (r: Option<LinkError>)
    ensures
        (match parse_value(b@, 0) {
            Some((v, end)) => (match v {
                ValueV::Symbol(sym) => (if end == b@.len() {
                    r == parse_link_error(sym)
                } else {
                    r is None
                }),
                _ => r is None,
            }),
            None => r is None,
        }),
{
    match decode_value(b, 0) {
        Some((Value::Symbol(s), end)) => {
            if end == b.len() {
                LinkError::from_symbol(&s)
            } else {
                None
            }
        },
        _ => None,
    }
}

/// Writing a link error and reading it back gives the same error: the
/// condition symbol round trips through its wire form.
pub proof fn lemma_link_error_wire_round_trip(e: LinkError, b: Seq<u8>)
    requires
        b == enc_value(ValueV::Symbol(link_error_symbol(e))),
    ensures
        (match parse_value(b, 0) {
            Some((v, end)) => v == ValueV::Symbol(link_error_symbol(e)) && end == b.len(),
            None => false,
        }),
        parse_link_error(link_error_symbol(e)) == Some(e),
{
    lemma_link_error_symbol_wf(e);
    assert(b.subrange(0, b.len() as int) =~= b);
    crate::codec::lemma_parse_enc_value(ValueV::Symbol(link_error_symbol(e)), b, 0);
    crate::definitions::lemma_link_error_symbol_round_trip(e);
}

} // verus!
