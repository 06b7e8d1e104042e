//! The message data model: the sections that make up a bare message and
//! its transport wrappers, together with their mathematical views.

use vstd::prelude::*;

use crate::definitions::{Milliseconds, SequenceNo};
use crate::value::{fields_view, Value, ValueV};

verus! {

/// The fixed message-format of the core protocol (3.2.16).
pub const MESSAGE_FORMAT: u32 = 0;

/// Transport headers for a message (3.2.1).
#[derive(Debug, Clone, Copy, PartialEq, Eq, Structural)]
pub struct Header {
    pub durable: bool,
    pub priority: u8,
    pub ttl: Option<Milliseconds>,
    pub first_acquirer: bool,
    pub delivery_count: u32,
}

impl Header {
    /// A header with every field at its protocol default.
    pub fn new() -> (r: Header)
        ensures
            !r.durable,
            r.priority == 4u8,
            r.ttl is None,
            !r.first_acquirer,
            r.delivery_count == 0u32,
    {
        Header { durable: false, priority: 4, ttl: None, first_acquirer: false, delivery_count: 0 }
    }
}

/// A map from symbol-keyed annotations to values (3.2.10).
pub type Annotations = Vec<(String, Value)>;

/// Delivery annotations section (3.2.2).
#[derive(Debug)]
pub struct DeliveryAnnotations(pub Annotations);

/// Message annotations section (3.2.3).
#[derive(Debug)]
pub struct MessageAnnotations(pub Annotations);

/// An identifier of a message (3.2.11 through 3.2.14).
#[derive(Debug)]
pub enum MessageId {
    Ulong(u64),
    Uuid(Vec<u8>),
    Binary(Vec<u8>),
    String(String),
}

/// The model of a message identifier.
pub enum MessageIdV {
    Ulong(u64),
    Uuid(Seq<u8>),
    Binary(Seq<u8>),
    String(Seq<char>),
}

impl View for MessageId {
    type V = MessageIdV;

    open spec fn view(&self) -> MessageIdV {
        match self {
            MessageId::Ulong(n) => MessageIdV::Ulong(*n),
            MessageId::Uuid(b) => MessageIdV::Uuid(b@),
            MessageId::Binary(b) => MessageIdV::Binary(b@),
            MessageId::String(s) => MessageIdV::String(s@),
        }
    }
}

/// The address of a node (3.2.15).
#[derive(Debug)]
pub struct Address(pub String);

impl View for Address {
    type V = Seq<char>;

    open spec fn view(&self) -> Seq<char> {
        self.0@
    }
}

/// Immutable properties of the message (3.2.4).
#[derive(Debug)]
pub struct Properties {
    pub message_id: Option<MessageId>,
    pub user_id: Option<Vec<u8>>,
    pub to: Option<Address>,
    pub subject: Option<String>,
    pub reply_to: Option<Address>,
    pub correlation_id: Option<MessageId>,
    pub content_type: Option<String>,
    pub content_encoding: Option<String>,
    pub absolute_expiry_time: Option<i64>,
    pub creation_time: Option<i64>,
    pub group_id: Option<String>,
    pub group_sequence: Option<SequenceNo>,
    pub reply_to_group_id: Option<String>,
}

/// The model of the properties section.
pub struct PropertiesV {
    pub message_id: Option<MessageIdV>,
    pub user_id: Option<Seq<u8>>,
    pub to: Option<Seq<char>>,
    pub subject: Option<Seq<char>>,
    pub reply_to: Option<Seq<char>>,
    pub correlation_id: Option<MessageIdV>,
    pub content_type: Option<Seq<char>>,
    pub content_encoding: Option<Seq<char>>,
    pub absolute_expiry_time: Option<i64>,
    pub creation_time: Option<i64>,
    pub group_id: Option<Seq<char>>,
    pub group_sequence: Option<SequenceNo>,
    pub reply_to_group_id: Option<Seq<char>>,
}

/// The model of an optional string.
pub open spec fn opt_str_view(s: Option<String>) -> Option<Seq<char>> {
    match s {
        Some(s) => Some(s@),
        None => None,
    }
}

/// The model of an optional message identifier.
pub open spec fn opt_message_id_view(m: Option<MessageId>) -> Option<MessageIdV> {
    match m {
        Some(m) => Some(m@),
        None => None,
    }
}

/// The model of an optional address.
pub open spec fn opt_address_view(a: Option<Address>) -> Option<Seq<char>> {
    match a {
        Some(a) => Some(a@),
        None => None,
    }
}

impl View for Properties {
    type V = PropertiesV;

    open spec fn view(&self) -> PropertiesV {
        PropertiesV {
            message_id: opt_message_id_view(self.message_id),
            user_id: (match self.user_id {
                Some(b) => Some(b@),
                None => None,
            }),
            to: opt_address_view(self.to),
            subject: opt_str_view(self.subject),
            reply_to: opt_address_view(self.reply_to),
            correlation_id: opt_message_id_view(self.correlation_id),
            content_type: opt_str_view(self.content_type),
            content_encoding: opt_str_view(self.content_encoding),
            absolute_expiry_time: self.absolute_expiry_time,
            creation_time: self.creation_time,
            group_id: opt_str_view(self.group_id),
            group_sequence: self.group_sequence,
            reply_to_group_id: opt_str_view(self.reply_to_group_id),
        }
    }
}

impl Properties {
    /// Properties with every field unset.
    pub fn new() -> (r: Properties)
        ensures
            r@ == (PropertiesV {
                message_id: None,
                user_id: None,
                to: None,
                subject: None,
                reply_to: None,
                correlation_id: None,
                content_type: None,
                content_encoding: None,
                absolute_expiry_time: None,
                creation_time: None,
                group_id: None,
                group_sequence: None,
                reply_to_group_id: None,
            }),
    {
        Properties {
            message_id: None,
            user_id: None,
            to: None,
            subject: None,
            reply_to: None,
            correlation_id: None,
            content_type: None,
            content_encoding: None,
            absolute_expiry_time: None,
            creation_time: None,
            group_id: None,
            group_sequence: None,
            reply_to_group_id: None,
        }
    }
}

/// Application properties section (3.2.5): string keys to values.
#[derive(Debug)]
pub struct ApplicationProperties(pub Vec<(String, Value)>);

/// A data section: opaque binary (3.2.6).
#[derive(Debug)]
pub struct Data(pub Vec<u8>);

/// A sequence section: a list of values (3.2.7).
#[derive(Debug)]
pub struct AmqpSequence(pub Vec<Value>);

/// A value section: a single value (3.2.8).
#[derive(Debug)]
pub struct AmqpValue(pub Value);

/// Transport footers for a message (3.2.9).
#[derive(Debug)]
pub struct Footer(pub Annotations);

/// The body of a message.
#[derive(Debug)]
pub enum Body {
    Value(AmqpValue),
    Data(Data),
    Sequence(AmqpSequence),
    DataBatch(Vec<Data>),
    SequenceBatch(Vec<AmqpSequence>),
    Empty,
}

/// The model of a message body.
pub enum BodyV {
    Value(ValueV),
    Data(Seq<u8>),
    Sequence(Seq<ValueV>),
    DataBatch(Seq<Seq<u8>>),
    SequenceBatch(Seq<Seq<ValueV>>),
    Empty,
}

/// The model of a list of values.
pub open spec fn values_view(s: Seq<Value>) -> Seq<ValueV> {
    s.map_values(|v: Value| v@)
}

impl View for Body {
    type V = BodyV;

    open spec fn view(&self) -> BodyV {
        match self {
            Body::Value(v) => BodyV::Value(v.0@),
            Body::Data(d) => BodyV::Data(d.0@),
            Body::Sequence(s) => BodyV::Sequence(values_view(s.0@)),
            Body::DataBatch(b) => BodyV::DataBatch(b@.map_values(|d: Data| d.0@)),
            Body::SequenceBatch(b) => BodyV::SequenceBatch(
                b@.map_values(|s: AmqpSequence| values_view(s.0@)),
            ),
            Body::Empty => BodyV::Empty,
        }
    }
}

/// A bare message with its transport sections.
#[derive(Debug)]
pub struct Message {
    pub header: Option<Header>,
    pub delivery_annotations: Option<DeliveryAnnotations>,
    pub message_annotations: Option<MessageAnnotations>,
    pub properties: Option<Properties>,
    pub application_properties: Option<ApplicationProperties>,
    pub body: Body,
    pub footer: Option<Footer>,
}

/// The model of a message.
pub struct MessageV {
    pub header: Option<Header>,
    pub delivery_annotations: Option<Seq<(Seq<char>, ValueV)>>,
    pub message_annotations: Option<Seq<(Seq<char>, ValueV)>>,
    pub properties: Option<PropertiesV>,
    pub application_properties: Option<Seq<(Seq<char>, ValueV)>>,
    pub body: BodyV,
    pub footer: Option<Seq<(Seq<char>, ValueV)>>,
}

impl View for Message {
    type V = MessageV;

    open spec fn view(&self) -> MessageV {
        MessageV {
            header: self.header,
            delivery_annotations: (match self.delivery_annotations {
                Some(a) => Some(fields_view(a.0@)),
                None => None,
            }),
            message_annotations: (match self.message_annotations {
                Some(a) => Some(fields_view(a.0@)),
                None => None,
            }),
            properties: (match self.properties {
                Some(p) => Some(p@),
                None => None,
            }),
            application_properties: (match self.application_properties {
                Some(a) => Some(fields_view(a.0@)),
                None => None,
            }),
            body: self.body@,
            footer: (match self.footer {
                Some(a) => Some(fields_view(a.0@)),
                None => None,
            }),
        }
    }
}

/// A builder for a [`Message`].
#[derive(Debug)]
pub struct MessageBuilder {
    pub header: Option<Header>,
    pub delivery_annotations: Option<DeliveryAnnotations>,
    pub message_annotations: Option<MessageAnnotations>,
    pub properties: Option<Properties>,
    pub application_properties: Option<ApplicationProperties>,
    pub body: Body,
    pub footer: Option<Footer>,
}

impl Message {
    /// Creates a builder whose message has no sections and an empty body.
    pub fn builder() -> (r: MessageBuilder)
        ensures
            r.header is None,
            r.delivery_annotations is None,
            r.message_annotations is None,
            r.properties is None,
            r.application_properties is None,
            r.body is Empty,
            r.footer is None,
    {
        MessageBuilder {
            header: None,
            delivery_annotations: None,
            message_annotations: None,
            properties: None,
            application_properties: None,
            body: Body::Empty,
            footer: None,
        }
    }
}

impl MessageBuilder {
    /// Sets the header section.
    pub fn header(self, header: Header) -> (r: MessageBuilder)
        ensures
            r == (MessageBuilder { header: Some(header), ..self }),
    {
        MessageBuilder { header: Some(header), ..self }
    }

    /// Sets the properties section.
    pub fn properties(self, properties: Properties) -> (r: MessageBuilder)
        ensures
            r == (MessageBuilder { properties: Some(properties), ..self }),
    {
        MessageBuilder { properties: Some(properties), ..self }
    }

    /// Sets the application-properties section.
    pub fn application_properties(self, application_properties: ApplicationProperties) -> (r:
        MessageBuilder)
        ensures
            r == (MessageBuilder {
                application_properties: Some(application_properties),
                ..self
            }),
    {
        MessageBuilder { application_properties: Some(application_properties), ..self }
    }

    /// Sets the body to a single value section.
    pub fn value(self, value: Value) -> (r: MessageBuilder)
        ensures
            r == (MessageBuilder { body: Body::Value(AmqpValue(value)), ..self }),
    {
        MessageBuilder { body: Body::Value(AmqpValue(value)), ..self }
    }

    /// Sets the body to a data section.
    pub fn data(self, data: Vec<u8>) -> (r: MessageBuilder)
        ensures
            r == (MessageBuilder { body: Body::Data(Data(data)), ..self }),
    {
        MessageBuilder { body: Body::Data(Data(data)), ..self }
    }

    /// Sets the body to a sequence section.
    pub fn sequence(self, sequence: Vec<Value>) -> (r: MessageBuilder)
        ensures
            r == (MessageBuilder { body: Body::Sequence(AmqpSequence(sequence)), ..self }),
    {
        MessageBuilder { body: Body::Sequence(AmqpSequence(sequence)), ..self }
    }

    /// Builds the message.
    pub fn build(self) -> (r: Message)
        ensures
            r.header == self.header,
            r.delivery_annotations == self.delivery_annotations,
            r.message_annotations == self.message_annotations,
            r.properties == self.properties,
            r.application_properties == self.application_properties,
            r.body == self.body,
            r.footer == self.footer,
    {
        Message {
            header: self.header,
            delivery_annotations: self.delivery_annotations,
            message_annotations: self.message_annotations,
            properties: self.properties,
            application_properties: self.application_properties,
            body: self.body,
            footer: self.footer,
        }
    }
}

} // verus!
