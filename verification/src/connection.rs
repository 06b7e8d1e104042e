//! The connection tier: the header exchange and the open/close state
//! machine of one side of a connection.

use vstd::prelude::*;

use crate::definitions::{AmqpError, ConnectionState, Milliseconds};
use crate::error::Error;
use crate::performatives::{Close, ErrorDef, Open};
use crate::session::copy_opt_strings;

verus! {

/// One endpoint of a connection: its identity and negotiated limits.
#[derive(Debug)]
pub struct Connection {
    pub container_id: String,
    pub local_state: ConnectionState,
    pub max_frame_size: u32,
    pub channel_max: u16,
    pub idle_time_out: Option<Milliseconds>,
    /// The peer's announced maximum frame size, once Open arrives.
    pub remote_max_frame_size: Option<u32>,
    /// The peer's announced channel-max, once Open arrives.
    pub remote_channel_max: Option<u16>,
    /// The peer's announced idle timeout, once Open arrives.
    pub remote_idle_time_out: Option<Milliseconds>,
}

impl Connection {
    /// A fresh endpoint before the header exchange.
    pub fn start(container_id: String, max_frame_size: u32, channel_max: u16) -> (r: Connection)
        ensures
            r.container_id == container_id,
            r.local_state == ConnectionState::Start,
            r.max_frame_size == max_frame_size,
            r.channel_max == channel_max,
            r.idle_time_out is None,
            r.remote_max_frame_size is None,
    {
        Connection {
            container_id,
            local_state: ConnectionState::Start,
            max_frame_size,
            channel_max,
            idle_time_out: None,
            remote_max_frame_size: None,
            remote_channel_max: None,
            remote_idle_time_out: None,
        }
    }

    /// Notes that the local protocol header went out.
    pub fn on_header_sent(&mut self) -> (r: Result<(), Error>)
        ensures
            (match r {
                Ok(()) => (match old(self).local_state {
                    ConnectionState::Start => final(self).local_state
                        == ConnectionState::HeaderSent,
                    ConnectionState::HeaderReceived => final(self).local_state
                        == ConnectionState::HeaderExchanged,
                    _ => false,
                }),
                Err(_) => {
                    &&& old(self).local_state != ConnectionState::Start
                    &&& old(self).local_state != ConnectionState::HeaderReceived
                    &&& *final(self) == *old(self)
                },
            }),
    {
        match self.local_state {
            ConnectionState::Start => {
                self.local_state = ConnectionState::HeaderSent;
                Ok(())
            },
            ConnectionState::HeaderReceived => {
                self.local_state = ConnectionState::HeaderExchanged;
                Ok(())
            },
            _ => Err(Error::amqp_error(AmqpError::IllegalState, None)),
        }
    }

    /// Applies the peer's protocol header. A header that does not match
    /// the local one closes the transport.
    pub fn on_incoming_header(&mut self, matches_local: bool) -> (r: Result<(), Error>)
        ensures
            (match r {
                Ok(()) => {
                    &&& matches_local
                    &&& (match old(self).local_state {
                        ConnectionState::Start => final(self).local_state
                            == ConnectionState::HeaderReceived,
                        ConnectionState::HeaderSent => final(self).local_state
                            == ConnectionState::HeaderExchanged,
                        _ => false,
                    })
                },
                Err(_) => (!matches_local || (old(self).local_state != ConnectionState::Start
                    && old(self).local_state != ConnectionState::HeaderSent)),
            }),
    {
        if !matches_local {
            return Err(
                Error::amqp_error(AmqpError::NotAllowed, Some("protocol header mismatch".to_owned())),
            );
        }
        match self.local_state {
            ConnectionState::Start => {
                self.local_state = ConnectionState::HeaderReceived;
                Ok(())
            },
            ConnectionState::HeaderSent => {
                self.local_state = ConnectionState::HeaderExchanged;
                Ok(())
            },
            _ => Err(Error::amqp_error(AmqpError::IllegalState, None)),
        }
    }

    /// Builds the local Open and advances the state machine.
    pub fn send_open(&mut self) -> (r: Result<Open, Error>)
        ensures
            (match r {
                Ok(open) => {
                    &&& (old(self).local_state == ConnectionState::HeaderExchanged || old(
                        self,
                    ).local_state == ConnectionState::OpenReceived)
                    &&& final(self).local_state == (if old(self).local_state
                        == ConnectionState::HeaderExchanged {
                        ConnectionState::OpenSent
                    } else {
                        ConnectionState::Opened
                    })
                    &&& open.container_id@ == old(self).container_id@
                    &&& open.max_frame_size == old(self).max_frame_size
                    &&& open.channel_max == old(self).channel_max
                    &&& open.idle_time_out == old(self).idle_time_out
                },
                Err(_) => {
                    &&& old(self).local_state != ConnectionState::HeaderExchanged
                    &&& old(self).local_state != ConnectionState::OpenReceived
                    &&& *final(self) == *old(self)
                },
            }),
    {
        match self.local_state {
            ConnectionState::HeaderExchanged => {
                self.local_state = ConnectionState::OpenSent;
            },
            ConnectionState::OpenReceived => {
                self.local_state = ConnectionState::Opened;
            },
            _ => {
                return Err(Error::amqp_error(AmqpError::IllegalState, None));
            },
        }
        Ok(
            Open {
                container_id: clone_string(&self.container_id),
                hostname: None,
                max_frame_size: self.max_frame_size,
                channel_max: self.channel_max,
                idle_time_out: self.idle_time_out,
                offered_capabilities: None,
                desired_capabilities: None,
                properties: None,
            },
        )
    }

    /// Applies the peer's Open: adopts its limits.
    pub fn on_incoming_open(&mut self, open: &Open) -> (r: Result<(), Error>)
        ensures
            (match r {
                Ok(()) => {
                    &&& (match old(self).local_state {
                        ConnectionState::HeaderExchanged => final(self).local_state
                            == ConnectionState::OpenReceived,
                        ConnectionState::OpenSent => final(self).local_state
                            == ConnectionState::Opened,
                        _ => false,
                    })
                    &&& final(self).remote_max_frame_size == Some(open.max_frame_size)
                    &&& final(self).remote_channel_max == Some(open.channel_max)
                    &&& final(self).remote_idle_time_out == open.idle_time_out
                },
                Err(_) => {
                    &&& old(self).local_state != ConnectionState::HeaderExchanged
                    &&& old(self).local_state != ConnectionState::OpenSent
                    &&& *final(self) == *old(self)
                },
            }),
    {
        match self.local_state {
            ConnectionState::HeaderExchanged => {
                self.local_state = ConnectionState::OpenReceived;
            },
            ConnectionState::OpenSent => {
                self.local_state = ConnectionState::Opened;
            },
            _ => {
                return Err(Error::amqp_error(AmqpError::IllegalState, None));
            },
        }
        self.remote_max_frame_size = Some(open.max_frame_size);
        self.remote_channel_max = Some(open.channel_max);
        self.remote_idle_time_out = open.idle_time_out;
        Ok(())
    }

    /// Builds the local Close and advances the state machine.
    pub fn send_close(&mut self, error: Option<ErrorDef>) -> (r: Result<Close, Error>)
        ensures
            (match r {
                Ok(close) => {
                    &&& (match old(self).local_state {
                        ConnectionState::Opened => final(self).local_state
                            == ConnectionState::CloseSent,
                        ConnectionState::CloseReceived => final(self).local_state
                            == ConnectionState::End,
                        _ => false,
                    })
                    &&& close.error == error
                },
                Err(_) => {
                    &&& old(self).local_state != ConnectionState::Opened
                    &&& old(self).local_state != ConnectionState::CloseReceived
                    &&& *final(self) == *old(self)
                },
            }),
    {
        match self.local_state {
            ConnectionState::Opened => {
                self.local_state = ConnectionState::CloseSent;
            },
            ConnectionState::CloseReceived => {
                self.local_state = ConnectionState::End;
            },
            _ => {
                return Err(Error::amqp_error(AmqpError::IllegalState, None));
            },
        }
        Ok(Close { error })
    }

    /// Applies the peer's Close. In the open state the local side must
    /// answer with its own Close: the result says whether that answer is
    /// owed.
    pub fn on_incoming_close(&mut self, close: Close) -> (r: Result<bool, Error>)
        ensures
            (match r {
                Ok(reply) => {
                    &&& (match old(self).local_state {
                        ConnectionState::Opened => final(self).local_state
                            == ConnectionState::CloseReceived && reply,
                        ConnectionState::CloseSent => final(self).local_state
                            == ConnectionState::End && !reply,
                        _ => false,
                    })
                    &&& close.error is None
                },
                Err(e) => (match old(self).local_state {
                    ConnectionState::Opened => (match close.error {
                        Some(remote) => e == (Error::Connection {
                            condition: crate::definitions::ConnectionError::ConnectionForced,
                            description: remote.description,
                        }) && final(self).local_state == ConnectionState::CloseReceived,
                        None => false,
                    }),
                    ConnectionState::CloseSent => (match close.error {
                        Some(remote) => e == (Error::Connection {
                            condition: crate::definitions::ConnectionError::ConnectionForced,
                            description: remote.description,
                        }) && final(self).local_state == ConnectionState::End,
                        None => false,
                    }),
                    _ => {
                        &&& e == (Error::Amqp {
                            condition: AmqpError::IllegalState,
                            description: None,
                        })
                        &&& *final(self) == *old(self)
                    },
                }),
            }),
    {
        let reply: bool;
        match self.local_state {
            ConnectionState::Opened => {
                self.local_state = ConnectionState::CloseReceived;
                reply = true;
            },
            ConnectionState::CloseSent => {
                self.local_state = ConnectionState::End;
                reply = false;
            },
            _ => {
                return Err(Error::amqp_error(AmqpError::IllegalState, None));
            },
        }
        match close.error {
            Some(remote) => Err(
                Error::Connection {
                    condition: crate::definitions::ConnectionError::ConnectionForced,
                    description: remote.description,
                },
            ),
            None => Ok(reply),
        }
    }
}

/// Copies a string, preserving its characters exactly.
fn clone_string(s: &String) -> (r: String)
    ensures
        r@ == s@,
{
    s.clone()
}

} // verus!
