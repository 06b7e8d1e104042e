//! Helper types differentiating message delivery: received deliveries,
//! sendable messages, and the unsettled ledger entries of the sender.

use vstd::prelude::*;

use crate::definitions::{DeliveryNumber, DeliveryTag, Handle, MessageFormat, ReceiverSettleMode};
use crate::messaging::{AmqpSequence, AmqpValue, Body, Data, Message, MESSAGE_FORMAT};
use crate::performatives::{Accepted, DeliveryState, Outcome};

verus! {

/// Why a body accessor refused the body it found.
#[derive(Debug, Clone, Copy, PartialEq, Eq, Structural)]
pub enum BodyError {
    IsValue,
    IsData,
    IsSequence,
    IsDataBatch,
    IsSequenceBatch,
    IsEmpty,
}

/// The error of a send whose outcome could not be delivered as data.
#[derive(Debug, Clone, Copy, PartialEq, Eq, Structural)]
pub enum SendError {
    /// The session died before settlement.
    IllegalSessionState,
    /// A state that is no outcome settled the delivery.
    IllegalDeliveryState,
    /// A non-terminal state settled the delivery.
    NonTerminalDeliveryState,
}

/// The error naming the variant a body is, for contracts.
pub open spec fn body_error_of(b: Body) -> BodyError {
    match b {
        Body::Value(_) => BodyError::IsValue,
        Body::Data(_) => BodyError::IsData,
        Body::Sequence(_) => BodyError::IsSequence,
        Body::DataBatch(_) => BodyError::IsDataBatch,
        Body::SequenceBatch(_) => BodyError::IsSequenceBatch,
        Body::Empty => BodyError::IsEmpty,
    }
}

/// Delivery information that is needed for disposing a message.
#[derive(Debug)]
pub struct DeliveryInfo {
    pub delivery_id: DeliveryNumber,
    pub delivery_tag: DeliveryTag,
    pub rcv_settle_mode: Option<ReceiverSettleMode>,
}

impl DeliveryInfo {
    /// The delivery id carried by the transfer frame.
    pub fn delivery_id(&self) -> (r: DeliveryNumber)
        ensures
            r == self.delivery_id,
    {
        self.delivery_id
    }

    /// The delivery tag carried by the transfer frame.
    pub fn delivery_tag(&self) -> (r: DeliveryTag)
        ensures
            r == self.delivery_tag,
    {
        self.delivery_tag
    }

    /// The receiver settle mode carried by the transfer frame.
    pub fn rcv_settle_mode(&self) -> (r: &Option<ReceiverSettleMode>)
        ensures
            r == self.rcv_settle_mode,
    {
        &self.rcv_settle_mode
    }
}

/// A message as received: reserved for the receiver side.
#[derive(Debug)]
pub struct Delivery {
    pub link_output_handle: Handle,
    pub delivery_id: DeliveryNumber,
    pub delivery_tag: DeliveryTag,
    pub rcv_settle_mode: Option<ReceiverSettleMode>,
    pub message: Message,
}

impl Delivery {
    /// The output handle of the link this delivery arrived on.
    pub fn handle(&self) -> (r: Handle)
        ensures
            r == self.link_output_handle,
    {
        self.link_output_handle
    }

    /// The message.
    pub fn message(&self) -> (r: &Message)
        ensures
            r == self.message,
    {
        &self.message
    }

    /// The delivery id.
    pub fn delivery_id(&self) -> (r: DeliveryNumber)
        ensures
            r == self.delivery_id,
    {
        self.delivery_id
    }

    /// The delivery tag.
    pub fn delivery_tag(&self) -> (r: DeliveryTag)
        ensures
            r == self.delivery_tag,
    {
        self.delivery_tag
    }

    /// The disposition information of this delivery.
    pub fn info(&self) -> (r: DeliveryInfo)
        ensures
            r.delivery_id == self.delivery_id,
            r.delivery_tag == self.delivery_tag,
            r.rcv_settle_mode == self.rcv_settle_mode,
    {
        DeliveryInfo {
            delivery_id: self.delivery_id,
            delivery_tag: self.delivery_tag,
            rcv_settle_mode: self.rcv_settle_mode,
        }
    }

    /// Consumes the delivery into the message.
    pub fn into_message(self) -> (r: Message)
        ensures
            r == self.message,
    {
        self.message
    }

    /// The message body.
    pub fn body(&self) -> (r: &Body)
        ensures
            r == self.message.body,
    {
        &self.message.body
    }

    /// Consumes the delivery into the message body section.
    pub fn into_body(self) -> (r: Body)
        ensures
            r == self.message.body,
    {
        self.message.body
    }

    /// The value inside the body, if the body is a value section.
    pub fn try_into_value(self) -> (r: Result<crate::value::Value, BodyError>)
        ensures
            (match self.message.body {
                Body::Value(v) => r == Ok::<_, BodyError>(v.0),
                _ => r == Err::<crate::value::Value, _>(body_error_of(self.message.body)),
            }),
    {
        match self.into_body() {
            Body::Value(AmqpValue(value)) => Ok(value),
            Body::Data(_) => Err(BodyError::IsData),
            Body::Sequence(_) => Err(BodyError::IsSequence),
            Body::Empty => Err(BodyError::IsEmpty),
            Body::DataBatch(_) => Err(BodyError::IsDataBatch),
            Body::SequenceBatch(_) => Err(BodyError::IsSequenceBatch),
        }
    }

    /// The bytes inside the body, if the body is a data section.
    pub fn try_into_data(self) -> (r: Result<Vec<u8>, BodyError>)
        ensures
            (match self.message.body {
                Body::Data(d) => r == Ok::<_, BodyError>(d.0),
                _ => r == Err::<Vec<u8>, _>(body_error_of(self.message.body)),
            }),
    {
        match self.into_body() {
            Body::Data(Data(data)) => Ok(data),
            Body::Value(_) => Err(BodyError::IsValue),
            Body::Sequence(_) => Err(BodyError::IsSequence),
            Body::Empty => Err(BodyError::IsEmpty),
            Body::DataBatch(_) => Err(BodyError::IsDataBatch),
            Body::SequenceBatch(_) => Err(BodyError::IsSequenceBatch),
        }
    }

    /// The data sections inside the body, if the body is a data batch.
    pub fn try_into_data_batch(self) -> (r: Result<Vec<Data>, BodyError>)
        ensures
            (match self.message.body {
                Body::DataBatch(b) => r == Ok::<_, BodyError>(b),
                _ => r == Err::<Vec<Data>, _>(body_error_of(self.message.body)),
            }),
    {
        match self.into_body() {
            Body::DataBatch(batch) => Ok(batch),
            Body::Data(_) => Err(BodyError::IsData),
            Body::Value(_) => Err(BodyError::IsValue),
            Body::Sequence(_) => Err(BodyError::IsSequence),
            Body::Empty => Err(BodyError::IsEmpty),
            Body::SequenceBatch(_) => Err(BodyError::IsSequenceBatch),
        }
    }

    /// The values inside the body, if the body is a sequence section.
    pub fn try_into_sequence(self) -> (r: Result<Vec<crate::value::Value>, BodyError>)
        ensures
            (match self.message.body {
                Body::Sequence(s) => r == Ok::<_, BodyError>(s.0),
                _ => r == Err::<Vec<crate::value::Value>, _>(body_error_of(self.message.body)),
            }),
    {
        match self.into_body() {
            Body::Sequence(AmqpSequence(sequence)) => Ok(sequence),
            Body::Data(_) => Err(BodyError::IsData),
            Body::Value(_) => Err(BodyError::IsValue),
            Body::Empty => Err(BodyError::IsEmpty),
            Body::DataBatch(_) => Err(BodyError::IsDataBatch),
            Body::SequenceBatch(_) => Err(BodyError::IsSequenceBatch),
        }
    }

    /// The sequence sections inside the body, if the body is a sequence batch.
    pub fn try_into_sequence_batch(self) -> (r: Result<Vec<AmqpSequence>, BodyError>)
        ensures
            (match self.message.body {
                Body::SequenceBatch(b) => r == Ok::<_, BodyError>(b),
                _ => r == Err::<Vec<AmqpSequence>, _>(body_error_of(self.message.body)),
            }),
    {
        match self.into_body() {
            Body::SequenceBatch(batch) => Ok(batch),
            Body::Data(_) => Err(BodyError::IsData),
            Body::Value(_) => Err(BodyError::IsValue),
            Body::Sequence(_) => Err(BodyError::IsSequence),
            Body::Empty => Err(BodyError::IsEmpty),
            Body::DataBatch(_) => Err(BodyError::IsDataBatch),
        }
    }

    /// A reference to the value inside the body, if the body is a value section.
    pub fn try_as_value(&self) -> (r: Result<&crate::value::Value, BodyError>)
        ensures
            (match self.message.body {
                Body::Value(v) => r matches Ok(x) && *x == v.0,
                _ => r == Err::<&crate::value::Value, _>(body_error_of(self.message.body)),
            }),
    {
        match self.body() {
            Body::Value(AmqpValue(value)) => Ok(value),
            Body::Data(_) => Err(BodyError::IsData),
            Body::Sequence(_) => Err(BodyError::IsSequence),
            Body::Empty => Err(BodyError::IsEmpty),
            Body::DataBatch(_) => Err(BodyError::IsDataBatch),
            Body::SequenceBatch(_) => Err(BodyError::IsSequenceBatch),
        }
    }

    /// A reference to the bytes inside the body, if the body is a data section.
    pub fn try_as_data(&self) -> (r: Result<&Vec<u8>, BodyError>)
        ensures
            (match self.message.body {
                Body::Data(d) => r matches Ok(x) && *x == d.0,
                _ => r == Err::<&Vec<u8>, _>(body_error_of(self.message.body)),
            }),
    {
        match self.body() {
            Body::Data(Data(data)) => Ok(data),
            Body::Value(_) => Err(BodyError::IsValue),
            Body::Sequence(_) => Err(BodyError::IsSequence),
            Body::Empty => Err(BodyError::IsEmpty),
            Body::DataBatch(_) => Err(BodyError::IsDataBatch),
            Body::SequenceBatch(_) => Err(BodyError::IsSequenceBatch),
        }
    }

    /// A reference to the data sections, if the body is a data batch.
    pub fn try_as_data_batch(&self) -> (r: Result<&Vec<Data>, BodyError>)
        ensures
            (match self.message.body {
                Body::DataBatch(b) => r matches Ok(x) && *x == b,
                _ => r == Err::<&Vec<Data>, _>(body_error_of(self.message.body)),
            }),
    {
        match self.body() {
            Body::DataBatch(batch) => Ok(batch),
            Body::Data(_) => Err(BodyError::IsData),
            Body::Value(_) => Err(BodyError::IsValue),
            Body::Sequence(_) => Err(BodyError::IsSequence),
            Body::Empty => Err(BodyError::IsEmpty),
            Body::SequenceBatch(_) => Err(BodyError::IsSequenceBatch),
        }
    }

    /// A reference to the values inside the body, if the body is a sequence.
    pub fn try_as_sequence(&self) -> (r: Result<&Vec<crate::value::Value>, BodyError>)
        ensures
            (match self.message.body {
                Body::Sequence(s) => r matches Ok(x) && *x == s.0,
                _ => r == Err::<&Vec<crate::value::Value>, _>(body_error_of(self.message.body)),
            }),
    {
        match self.body() {
            Body::Sequence(AmqpSequence(sequence)) => Ok(sequence),
            Body::Data(_) => Err(BodyError::IsData),
            Body::Value(_) => Err(BodyError::IsValue),
            Body::Empty => Err(BodyError::IsEmpty),
            Body::DataBatch(_) => Err(BodyError::IsDataBatch),
            Body::SequenceBatch(_) => Err(BodyError::IsSequenceBatch),
        }
    }

    /// A reference to the sequence sections, if the body is a sequence batch.
    pub fn try_as_sequence_batch(&self) -> (r: Result<&Vec<AmqpSequence>, BodyError>)
        ensures
            (match self.message.body {
                Body::SequenceBatch(b) => r matches Ok(x) && *x == b,
                _ => r == Err::<&Vec<AmqpSequence>, _>(body_error_of(self.message.body)),
            }),
    {
        match self.body() {
            Body::SequenceBatch(batch) => Ok(batch),
            Body::Data(_) => Err(BodyError::IsData),
            Body::Value(_) => Err(BodyError::IsValue),
            Body::Sequence(_) => Err(BodyError::IsSequence),
            Body::Empty => Err(BodyError::IsEmpty),
            Body::DataBatch(_) => Err(BodyError::IsDataBatch),
        }
    }
}

/// A delivery before sending: the message, its format, and whether the
/// sender wants it pre-settled.
#[derive(Debug)]
pub struct Sendable {
    pub message: Message,
    pub message_format: MessageFormat,
    pub settled: Option<bool>,
}

impl Sendable {
    /// Creates a builder for [`Sendable`].
    pub fn builder() -> (r: SendableBuilder<Uninitialized>)
        ensures
            r.message == (Uninitialized {}),
            r.message_format == MESSAGE_FORMAT,
            r.settled is None,
    {
        SendableBuilder { message: Uninitialized {}, message_format: MESSAGE_FORMAT, settled: None }
    }
}

impl From<Message> for Sendable {
    /// A message becomes a sendable with the core message format, leaving
    /// the settlement to the link's mode.
    fn from(message: Message) -> (r: Sendable) {
        Sendable { message, message_format: MESSAGE_FORMAT, settled: None }
    }
}

impl vstd::std_specs::convert::FromSpecImpl<Message> for Sendable {
    open spec fn obeys_from_spec() -> bool {
        true
    }

    open spec fn from_spec(message: Message) -> Sendable {
        Sendable { message, message_format: MESSAGE_FORMAT as u32, settled: None }
    }
}

/// The placeholder of a builder not yet given a message.
#[derive(Debug, Clone, Copy, PartialEq, Eq, Structural)]
pub struct Uninitialized {}

/// A builder for [`Sendable`]; `T` is `Uninitialized` until a message is set.
#[derive(Debug)]
pub struct SendableBuilder<T> {
    pub message: T,
    pub message_format: MessageFormat,
    pub settled: Option<bool>,
}

impl SendableBuilder<Uninitialized> {
    /// Creates a new builder for [`Sendable`].
    pub fn new() -> (r: SendableBuilder<Uninitialized>)
        ensures
            r.message == (Uninitialized {}),
            r.message_format == MESSAGE_FORMAT,
            r.settled is None,
    {
        SendableBuilder { message: Uninitialized {}, message_format: MESSAGE_FORMAT, settled: None }
    }
}

impl<T> SendableBuilder<T> {
    /// The message to send.
    pub fn message(self, message: Message) -> (r: SendableBuilder<Message>)
        ensures
            r.message == message,
            r.message_format == self.message_format,
            r.settled == self.settled,
    {
        SendableBuilder { message, message_format: self.message_format, settled: self.settled }
    }

    /// The message format (2.8.11).
    pub fn message_format(self, message_format: MessageFormat) -> (r: SendableBuilder<T>)
        ensures
            r.message == self.message,
            r.message_format == message_format,
            r.settled == self.settled,
    {
        SendableBuilder { message_format, ..self }
    }

    /// Whether the message is considered settled by the sender.
    pub fn settled(self, settled: Option<bool>) -> (r: SendableBuilder<T>)
        ensures
            r.message == self.message,
            r.message_format == self.message_format,
            r.settled == settled,
    {
        SendableBuilder { settled, ..self }
    }
}

impl SendableBuilder<Message> {
    /// Builds the [`Sendable`].
    pub fn build(self) -> (r: Sendable)
        ensures
            r.message == self.message,
            r.message_format == self.message_format,
            r.settled == self.settled,
    {
        Sendable {
            message: self.message,
            message_format: self.message_format,
            settled: self.settled,
        }
    }
}

/// An unsettled message stored in the sender's unsettled map, awaiting its
/// terminal outcome. The caller's completion channel is keyed by the same
/// delivery tag outside the engine.
#[derive(Debug)]
pub struct UnsettledMessage {
    pub payload: Vec<u8>,
    pub state: Option<DeliveryState>,
}

impl UnsettledMessage {
    /// A fresh entry: the delivery has no state yet.
    pub fn new(payload: Vec<u8>) -> (r: UnsettledMessage)
        ensures
            r.payload == payload,
            r.state is None,
    {
        UnsettledMessage { payload, state: None }
    }

    /// The current delivery state.
    pub fn state(&self) -> (r: &Option<DeliveryState>)
        ensures
            r == self.state,
    {
        &self.state
    }

    /// The payload of the delivery.
    pub fn payload(&self) -> (r: &Vec<u8>)
        ensures
            r == self.payload,
    {
        &self.payload
    }

    /// Settles the entry with its stored state: the caller is handed the
    /// state to resolve the waiting send.
    pub fn settle(self) -> (r: Option<DeliveryState>)
        ensures
            r == self.state,
    {
        self.state
    }

    /// Settles the entry with the state from the wire instead.
    pub fn settle_with_state(self, state: Option<DeliveryState>) -> (r: Option<DeliveryState>)
        ensures
            r == state,
    {
        state
    }
}

/// How a send was settled: either pre-settled, or awaiting the outcome
/// registered under the delivery tag.
#[derive(Debug)]
pub enum Settlement {
    Settled(DeliveryTag),
    Unsettled(DeliveryTag),
}

impl Settlement {
    /// The delivery tag of the send.
    pub fn delivery_tag(&self) -> (r: DeliveryTag)
        ensures
            r == (match *self {
                Settlement::Settled(t) => t,
                Settlement::Unsettled(t) => t,
            }),
    {
        match self {
            Settlement::Settled(t) => *t,
            Settlement::Unsettled(t) => *t,
        }
    }
}

/// The result a send resolves to: a terminal outcome, or an error where no
/// outcome could be obtained.
pub type SendResult = Result<Outcome, SendError>;

/// How to interpret a pre-settled delivery.
pub trait FromPreSettled: Sized {
    /// The result standing for a delivery the sender settled itself.
    fn from_settled() -> Self;
}

/// How to interpret the delivery state that settled a delivery.
pub trait FromDeliveryState: Sized {
    /// The result when the peer settled without any state.
    fn from_none() -> Self;

    /// The result for the given settling state.
    fn from_delivery_state(state: DeliveryState) -> Self;
}

/// A pre-settled delivery counts as accepted.
pub fn send_result_from_settled() -> (r: SendResult)
    ensures
        r == Ok::<Outcome, SendError>(Outcome::Accepted(Accepted {  })),
{
    Ok(Outcome::Accepted(Accepted {  }))
}

/// A delivery settled without a state has no legal outcome.
pub fn send_result_from_none() -> (r: SendResult)
    ensures
        r == Err::<Outcome, SendError>(SendError::IllegalDeliveryState),
{
    Err(SendError::IllegalDeliveryState)
}

/// A send whose session died before settlement.
pub fn send_result_from_session_loss() -> (r: SendResult)
    ensures
        r == Err::<Outcome, SendError>(SendError::IllegalSessionState),
{
    Err(SendError::IllegalSessionState)
}

/// Maps the settling delivery state to the send's result: terminal outcomes
/// are data; a received state is non-terminal; transactional states carry
/// no outcome for an ordinary send.
pub fn send_result_from_delivery_state(state: DeliveryState) -> (r: SendResult)
    ensures
        (match state {
            DeliveryState::Accepted(a) => r == Ok::<Outcome, SendError>(Outcome::Accepted(a)),
            DeliveryState::Rejected(x) => r == Ok::<Outcome, SendError>(Outcome::Rejected(x)),
            DeliveryState::Released(x) => r == Ok::<Outcome, SendError>(Outcome::Released(x)),
            DeliveryState::Modified(x) => r == Ok::<Outcome, SendError>(Outcome::Modified(x)),
            DeliveryState::Received { .. } => r == Err::<Outcome, SendError>(
                SendError::NonTerminalDeliveryState,
            ),
            DeliveryState::Declared(_) => r == Err::<Outcome, SendError>(
                SendError::IllegalDeliveryState,
            ),
            DeliveryState::TransactionalState(_) => r == Err::<Outcome, SendError>(
                SendError::IllegalDeliveryState,
            ),
        }),
{
    match state {
        DeliveryState::Accepted(accepted) => Ok(Outcome::Accepted(accepted)),
        DeliveryState::Rejected(rejected) => Ok(Outcome::Rejected(rejected)),
        DeliveryState::Released(released) => Ok(Outcome::Released(released)),
        DeliveryState::Modified(modified) => Ok(Outcome::Modified(modified)),
        DeliveryState::Received { .. } => Err(SendError::NonTerminalDeliveryState),
        DeliveryState::Declared(_) => Err(SendError::IllegalDeliveryState),
        DeliveryState::TransactionalState(_) => Err(SendError::IllegalDeliveryState),
    }
}

impl FromPreSettled for SendResult {
    fn from_settled() -> Self {
        send_result_from_settled()
    }
}

impl FromDeliveryState for SendResult {
    fn from_none() -> Self {
        send_result_from_none()
    }

    fn from_delivery_state(state: DeliveryState) -> Self {
        send_result_from_delivery_state(state)
    }
}

} // verus!
