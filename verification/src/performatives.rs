//! The typed frame bodies of the protocol and the delivery states they carry.

use vstd::prelude::*;

use crate::definitions::{
    AmqpError, ConnectionError, DeliveryNumber, DeliveryTag, Handle, LinkError, MessageFormat,
    Milliseconds, ReceiverSettleMode, Role, SenderSettleMode, SequenceNo, SessionError,
    TransferNumber,
};
use crate::value::Fields;

verus! {

/// An error condition carried by Close, End, Detach or a Rejected outcome.
#[derive(Debug)]
pub enum ErrorCondition {
    Amqp(AmqpError),
    Connection(ConnectionError),
    Session(SessionError),
    Link(LinkError),
}

/// A wire-level error description (2.8.14).
#[derive(Debug)]
pub struct ErrorDef {
    pub condition: ErrorCondition,
    pub description: Option<String>,
}

impl ErrorDef {
    /// Builds an error description from a condition and an optional text.
    pub fn new(condition: ErrorCondition, description: Option<String>) -> (r: ErrorDef)
        ensures
            r.condition == condition,
            r.description == description,
    {
        ErrorDef { condition, description }
    }
}

/// A source terminus description.
#[derive(Debug)]
pub struct Source {
    pub address: Option<String>,
    pub dynamic: bool,
    pub dynamic_node_properties: Option<Fields>,
    pub capabilities: Option<Vec<String>>,
}

impl Source {
    /// A source with every field at its default.
    pub fn new() -> (r: Source)
        ensures
            r.address is None,
            !r.dynamic,
            r.dynamic_node_properties is None,
            r.capabilities is None,
    {
        Source { address: None, dynamic: false, dynamic_node_properties: None, capabilities: None }
    }
}

/// A target terminus description.
#[derive(Debug)]
pub struct Target {
    pub address: Option<String>,
    pub dynamic: bool,
    pub dynamic_node_properties: Option<Fields>,
    pub capabilities: Option<Vec<String>>,
}

impl Target {
    /// A target with every field at its default.
    pub fn new() -> (r: Target)
        ensures
            r.address is None,
            !r.dynamic,
            r.dynamic_node_properties is None,
            r.capabilities is None,
    {
        Target { address: None, dynamic: false, dynamic_node_properties: None, capabilities: None }
    }

    /// A target addressing a named node.
    pub fn with_address(address: String) -> (r: Target)
        ensures
            r.address == Some(address),
            !r.dynamic,
            r.dynamic_node_properties is None,
            r.capabilities is None,
    {
        Target {
            address: Some(address),
            dynamic: false,
            dynamic_node_properties: None,
            capabilities: None,
        }
    }
}

/// The coordinator terminus of a transaction control link.
#[derive(Debug)]
pub struct Coordinator {
    /// Transaction capabilities, as capability symbols.
    pub capabilities: Option<Vec<String>>,
}

/// The target archetype of an attach: a plain target or a coordinator.
#[derive(Debug)]
pub enum TargetArchetype {
    Target(Target),
    Coordinator(Coordinator),
}

/// A terminal or transactional state of one delivery.
#[derive(Debug)]
pub enum DeliveryState {
    Received { section_number: u32, section_offset: u64 },
    Accepted(Accepted),
    Rejected(Rejected),
    Released(Released),
    Modified(Modified),
    Declared(Declared),
    TransactionalState(TransactionalState),
}

/// The accepted outcome (3.4.2).
#[derive(Debug)]
pub struct Accepted {}

/// The rejected outcome (3.4.3).
#[derive(Debug)]
pub struct Rejected {
    pub error: Option<ErrorDef>,
}

/// The released outcome (3.4.4).
#[derive(Debug)]
pub struct Released {}

/// The modified outcome (3.4.5).
#[derive(Debug)]
pub struct Modified {
    pub delivery_failed: Option<bool>,
    pub undeliverable_here: Option<bool>,
    pub message_annotations: Option<Fields>,
}

/// The declared state of a transaction (4.5.5).
#[derive(Debug)]
pub struct Declared {
    pub txn_id: Vec<u8>,
}

/// The transactional state decoration on a delivery (4.5.6).
#[derive(Debug)]
pub struct TransactionalState {
    pub txn_id: Vec<u8>,
    pub outcome: Option<Outcome>,
}

/// A terminal outcome of a delivery.
#[derive(Debug)]
pub enum Outcome {
    Accepted(Accepted),
    Rejected(Rejected),
    Released(Released),
    Modified(Modified),
    Declared(Declared),
}

/// The Open performative (connection tier).
#[derive(Debug)]
pub struct Open {
    pub container_id: String,
    pub hostname: Option<String>,
    pub max_frame_size: u32,
    pub channel_max: u16,
    pub idle_time_out: Option<Milliseconds>,
    pub offered_capabilities: Option<Vec<String>>,
    pub desired_capabilities: Option<Vec<String>>,
    pub properties: Option<Fields>,
}

/// The Begin performative (session tier).
#[derive(Debug)]
pub struct Begin {
    pub remote_channel: Option<u16>,
    pub next_outgoing_id: TransferNumber,
    pub incoming_window: u32,
    pub outgoing_window: u32,
    pub handle_max: Handle,
    pub offered_capabilities: Option<Vec<String>>,
    pub desired_capabilities: Option<Vec<String>>,
    pub properties: Option<Fields>,
}

/// The Attach performative (link tier).
#[derive(Debug)]
pub struct Attach {
    pub name: String,
    pub handle: Handle,
    pub role: Role,
    pub snd_settle_mode: SenderSettleMode,
    pub rcv_settle_mode: ReceiverSettleMode,
    pub source: Option<Source>,
    pub target: Option<TargetArchetype>,
    pub initial_delivery_count: Option<SequenceNo>,
    pub max_message_size: Option<u64>,
    pub offered_capabilities: Option<Vec<String>>,
    pub desired_capabilities: Option<Vec<String>>,
    pub properties: Option<Fields>,
}

/// The Flow performative: session fields plus the optional link portion.
#[derive(Debug)]
pub struct Flow {
    pub next_incoming_id: Option<TransferNumber>,
    pub incoming_window: u32,
    pub next_outgoing_id: TransferNumber,
    pub outgoing_window: u32,
    pub handle: Option<Handle>,
    pub delivery_count: Option<SequenceNo>,
    pub link_credit: Option<u32>,
    pub available: Option<u32>,
    pub drain: bool,
    pub echo: bool,
    pub properties: Option<Fields>,
}

/// The link portion of a Flow frame.
#[derive(Debug)]
pub struct LinkFlow {
    pub handle: Handle,
    pub delivery_count: Option<SequenceNo>,
    pub link_credit: Option<u32>,
    pub available: Option<u32>,
    pub drain: bool,
    pub echo: bool,
    pub properties: Option<Fields>,
}

impl Flow {
    /// The link portion of the flow, when it addresses a link.
    pub fn into_link_flow(self) -> (r: Option<LinkFlow>)
        ensures
            (match self.handle {
                Some(h) => (match r {
                    Some(lf) => {
                        &&& lf.handle == h
                        &&& lf.delivery_count == self.delivery_count
                        &&& lf.link_credit == self.link_credit
                        &&& lf.available == self.available
                        &&& lf.drain == self.drain
                        &&& lf.echo == self.echo
                        &&& lf.properties == self.properties
                    },
                    None => false,
                }),
                None => r is None,
            }),
    {
        match self.handle {
            Some(h) => Some(
                LinkFlow {
                    handle: h,
                    delivery_count: self.delivery_count,
                    link_credit: self.link_credit,
                    available: self.available,
                    drain: self.drain,
                    echo: self.echo,
                    properties: self.properties,
                },
            ),
            None => None,
        }
    }
}

/// The Transfer performative (link tier).
#[derive(Debug)]
pub struct Transfer {
    pub handle: Handle,
    pub delivery_id: Option<DeliveryNumber>,
    pub delivery_tag: Option<DeliveryTag>,
    pub message_format: Option<MessageFormat>,
    pub settled: Option<bool>,
    pub more: bool,
    pub rcv_settle_mode: Option<ReceiverSettleMode>,
    pub state: Option<DeliveryState>,
    pub resume: bool,
    pub aborted: bool,
    pub batchable: bool,
}

/// The Disposition performative (session tier).
#[derive(Debug)]
pub struct Disposition {
    pub role: Role,
    pub first: DeliveryNumber,
    pub last: Option<DeliveryNumber>,
    pub settled: bool,
    pub state: Option<DeliveryState>,
    pub batchable: bool,
}

/// The Detach performative (link tier).
#[derive(Debug)]
pub struct Detach {
    pub handle: Handle,
    pub closed: bool,
    pub error: Option<ErrorDef>,
}

/// The End performative (session tier).
#[derive(Debug)]
pub struct End {
    pub error: Option<ErrorDef>,
}

/// The Close performative (connection tier).
#[derive(Debug)]
pub struct Close {
    pub error: Option<ErrorDef>,
}

/// A session-tier frame: the channel and the frame body.
#[derive(Debug)]
pub struct SessionFrame {
    pub channel: u16,
    pub body: SessionFrameBody,
}

impl SessionFrame {
    /// Builds a session frame for the given channel.
    pub fn new(channel: u16, body: SessionFrameBody) -> (r: SessionFrame)
        ensures
            r.channel == channel,
            r.body == body,
    {
        SessionFrame { channel, body }
    }
}

/// The body of a session-tier frame.
#[derive(Debug)]
pub enum SessionFrameBody {
    Begin(Begin),
    Attach(Attach),
    Flow(Flow),
    Transfer { performative: Transfer, payload: Vec<u8> },
    Disposition(Disposition),
    Detach(Detach),
    End(End),
}

/// A frame routed between a session and one of its links.
#[derive(Debug)]
pub enum LinkFrame {
    Attach(Attach),
    Flow(LinkFlow),
    Transfer { performative: Transfer, payload: Vec<u8> },
    Detach(Detach),
}

} // verus!
