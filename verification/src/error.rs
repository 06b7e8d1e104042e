//! Errors surfaced at the connection tier and by allocation requests.

use vstd::prelude::*;

use crate::definitions::{AmqpError, ConnectionError};

verus! {

/// An error at the connection tier.
#[derive(Debug)]
pub enum Error {
    /// An I/O failure, described in words.
    Io(String),
    /// The peer went silent past the negotiated idle timeout.
    IdleTimeout,
    /// The address to open could not be understood.
    UrlError(String),
    /// The connection's event loop ended abnormally.
    JoinError(String),
    /// No channel below channel-max is free.
    ChannelMaxReached,
    /// A general protocol error.
    Amqp { condition: AmqpError, description: Option<String> },
    /// A connection-level protocol error.
    Connection { condition: ConnectionError, description: Option<String> },
}

impl Error {
    /// A general protocol error.
    pub fn amqp_error(condition: AmqpError, description: Option<String>) -> (r: Error)
        ensures
            r == (Error::Amqp { condition, description }),
    {
        Error::Amqp { condition, description }
    }

    /// A connection-level protocol error.
    pub fn connection_error(condition: ConnectionError, description: Option<String>) -> (r: Error)
        ensures
            r == (Error::Connection { condition, description }),
    {
        Error::Connection { condition, description }
    }
}

impl From<AmqpError> for Error {
    fn from(err: AmqpError) -> (r: Error) {
        Error::Amqp { condition: err, description: None }
    }
}

impl vstd::std_specs::convert::FromSpecImpl<AmqpError> for Error {
    open spec fn obeys_from_spec() -> bool {
        true
    }

    open spec fn from_spec(err: AmqpError) -> Error {
        Error::Amqp { condition: err, description: None }
    }
}

/// Why allocating a new session on a connection failed.
#[derive(Debug)]
pub enum AllocSessionError {
    /// The connection's event loop is gone.
    Io(String),
    /// The local connection state admits no new session.
    IllegalState,
    /// No channel below channel-max is free.
    ChannelMaxReached,
}

} // verus!
