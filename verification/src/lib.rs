//! A verified core of an AMQP 1.0 protocol engine.
//!
//! The crate models the three protocol tiers — connection, session and link —
//! as pure state machines with contracts, together with the credit-based flow
//! control, the delivery settlement ledger, and a codec for the message
//! sections and frame headers of the wire format.

pub mod builder;
pub mod codec;
pub mod connection;
pub mod definitions;
pub mod delivery;
pub mod error;
pub mod framing;
pub mod lifetime_policy;
pub mod link;
pub mod management;
pub mod messaging;
pub mod performatives;
pub mod receiver_link;
pub mod relay;
pub mod sasl;
pub mod sections;
pub mod sender_link;
pub mod serial;
pub mod session;
pub mod symbol_codec;
pub mod target_archetype;
pub mod transaction;
pub mod value;

use vstd::prelude::*;

verus! {

/// The body of one AMQP frame as raw bytes.
pub type Payload = Vec<u8>;

} // verus!
