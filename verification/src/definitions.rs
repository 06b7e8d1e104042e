//! Core definitions of the protocol: roles, settlement modes, endpoint
//! states, error conditions and the numeric types carried by frames.

use vstd::prelude::*;

verus! {

/// A link handle: a 32-bit link identifier scoped to a session.
pub type Handle = u32;

/// A transfer-id / sequence number (RFC 1982 serial number semantics).
pub type SequenceNo = u32;

/// A transfer-id assigned to an outgoing transfer.
pub type TransferNumber = u32;

/// A delivery-id carried by Transfer and Disposition frames.
pub type DeliveryNumber = u32;

/// The delivery-tag identity used internally: a monotone 4-byte counter.
pub type DeliveryTag = u32;

/// Message-format field of a Transfer (2.8.11 in the protocol).
pub type MessageFormat = u32;

/// Milliseconds, used by idle timeouts and message TTL.
pub type Milliseconds = u32;

/// The role of a link endpoint.
#[derive(Debug, Clone, Copy, PartialEq, Eq, Structural)]
pub enum Role {
    Sender,
    Receiver,
}

impl Role {
    /// The role of the peer endpoint.
    pub fn reverse(self) -> (r: Role)
        ensures
            r == (match self {
                Role::Sender => Role::Receiver,
                Role::Receiver => Role::Sender,
            }),
    {
        match self {
            Role::Sender => Role::Receiver,
            Role::Receiver => Role::Sender,
        }
    }
}

/// The sender's settlement policy.
#[derive(Debug, Clone, Copy, PartialEq, Eq, Structural)]
pub enum SenderSettleMode {
    Unsettled,
    Settled,
    Mixed,
}

impl Default for SenderSettleMode {
    /// The default sender settle mode is Mixed.
    fn default() -> (r: Self)
        ensures
            r == SenderSettleMode::Mixed,
    {
        SenderSettleMode::Mixed
    }
}

/// The receiver's settlement policy.
#[derive(Debug, Clone, Copy, PartialEq, Eq, Structural)]
pub enum ReceiverSettleMode {
    First,
    Second,
}

impl Default for ReceiverSettleMode {
    /// The default receiver settle mode is First.
    fn default() -> (r: Self)
        ensures
            r == ReceiverSettleMode::First,
    {
        ReceiverSettleMode::First
    }
}

/// Session endpoint state.
#[derive(Debug, Clone, Copy, PartialEq, Eq, Structural)]
pub enum SessionState {
    Unmapped,
    BeginSent,
    BeginReceived,
    Mapped,
    EndSent,
    EndReceived,
    Discarding,
}

/// Link endpoint state.
#[derive(Debug, Clone, Copy, PartialEq, Eq, Structural)]
pub enum LinkState {
    /// The initial state after initialization.
    Unattached,
    /// An attach frame has been sent.
    AttachSent,
    /// An attach frame has been received.
    AttachReceived,
    /// The link is attached.
    Attached,
    /// A non-closing detach frame has been sent.
    DetachSent,
    /// A non-closing detach frame has been received.
    DetachReceived,
    /// The link is detached.
    Detached,
}

/// Connection endpoint state.
#[derive(Debug, Clone, Copy, PartialEq, Eq, Structural)]
pub enum ConnectionState {
    Start,
    HeaderSent,
    HeaderReceived,
    HeaderExchanged,
    OpenSent,
    OpenReceived,
    Opened,
    CloseSent,
    CloseReceived,
    End,
}

/// General error conditions (2.8.15).
#[derive(Debug, Clone, Copy, PartialEq, Eq, Structural)]
pub enum AmqpError {
    InternalError,
    NotFound,
    UnauthorizedAccess,
    DecodeError,
    ResourceLimitExceeded,
    NotAllowed,
    InvalidField,
    NotImplemented,
    ResourceLocked,
    PreconditionFailed,
    ResourceDeleted,
    IllegalState,
    FrameSizeTooSmall,
}

/// Connection error conditions (2.8.16).
#[derive(Debug, Clone, Copy, PartialEq, Eq, Structural)]
pub enum ConnectionError {
    ConnectionForced,
    FramingError,
    Redirect,
}

/// Session error conditions (2.8.17).
#[derive(Debug, Clone, Copy, PartialEq, Eq, Structural)]
pub enum SessionError {
    WindowViolation,
    ErrantLink,
    HandleInUse,
    UnattachedHandle,
}

/// Link error conditions (2.8.18).
#[derive(Debug, Clone, Copy, PartialEq, Eq, Structural)]
pub enum LinkError {
    DetachForced,
    TransferLimitExceeded,
    MessageSizeExceeded,
    Redirect,
    Stolen,
}

/// The condition symbol of a link error.
pub open spec fn link_error_symbol(e: LinkError) -> Seq<char> {
    match e {
        LinkError::DetachForced => "amqp:link:detach-forced"@,
        LinkError::TransferLimitExceeded => "amqp:link:transfer-limit-exceeded"@,
        LinkError::MessageSizeExceeded => "amqp:link:message-size-exceeded"@,
        LinkError::Redirect => "amqp:link:redirect"@,
        LinkError::Stolen => "amqp:link:stolen"@,
    }
}

/// The link error named by a condition symbol, if any.
pub open spec fn parse_link_error(s: Seq<char>) -> Option<LinkError> {
    if s == link_error_symbol(LinkError::DetachForced) {
        Some(LinkError::DetachForced)
    } else if s == link_error_symbol(LinkError::TransferLimitExceeded) {
        Some(LinkError::TransferLimitExceeded)
    } else if s == link_error_symbol(LinkError::MessageSizeExceeded) {
        Some(LinkError::MessageSizeExceeded)
    } else if s == link_error_symbol(LinkError::Redirect) {
        Some(LinkError::Redirect)
    } else if s == link_error_symbol(LinkError::Stolen) {
        Some(LinkError::Stolen)
    } else {
        None
    }
}

impl LinkError {
    /// The condition symbol that names this error on the wire.
    pub fn symbol(&self) -> (r: String)
        ensures
            r@ == link_error_symbol(*self),
    {
        match self {
            LinkError::DetachForced => "amqp:link:detach-forced".to_owned(),
            LinkError::TransferLimitExceeded => "amqp:link:transfer-limit-exceeded".to_owned(),
            LinkError::MessageSizeExceeded => "amqp:link:message-size-exceeded".to_owned(),
            LinkError::Redirect => "amqp:link:redirect".to_owned(),
            LinkError::Stolen => "amqp:link:stolen".to_owned(),
        }
    }

    /// The link error named by a condition symbol, if any.
    pub fn from_symbol(s: &String) -> (r: Option<LinkError>)
        ensures
            r == parse_link_error(s@),
    {
        if *s == "amqp:link:detach-forced".to_owned() {
            Some(LinkError::DetachForced)
        } else if *s == "amqp:link:transfer-limit-exceeded".to_owned() {
            Some(LinkError::TransferLimitExceeded)
        } else if *s == "amqp:link:message-size-exceeded".to_owned() {
            Some(LinkError::MessageSizeExceeded)
        } else if *s == "amqp:link:redirect".to_owned() {
            Some(LinkError::Redirect)
        } else if *s == "amqp:link:stolen".to_owned() {
            Some(LinkError::Stolen)
        } else {
            None
        }
    }
}

/// A round trip through the condition symbol gives back the same link error.
pub proof fn lemma_link_error_symbol_round_trip(e: LinkError)
    ensures
        parse_link_error(link_error_symbol(e)) == Some(e),
{
    reveal_strlit("amqp:link:detach-forced");
    reveal_strlit("amqp:link:transfer-limit-exceeded");
    reveal_strlit("amqp:link:message-size-exceeded");
    reveal_strlit("amqp:link:redirect");
    reveal_strlit("amqp:link:stolen");
    // The five condition symbols have pairwise distinct lengths.
    assert(link_error_symbol(LinkError::DetachForced).len() == 23);
    assert(link_error_symbol(LinkError::TransferLimitExceeded).len() == 33);
    assert(link_error_symbol(LinkError::MessageSizeExceeded).len() == 31);
    assert(link_error_symbol(LinkError::Redirect).len() == 18);
    assert(link_error_symbol(LinkError::Stolen).len() == 16);
}

} // verus!
