//! The link-tier flow-control state and the credit accounting of the
//! sender and receiver roles.

use vstd::prelude::*;

use crate::definitions::{Handle, ReceiverSettleMode, SequenceNo};
use crate::performatives::LinkFlow;
use crate::serial::{serial_add, serial_sub, sn_add, sn_sub};
use crate::value::{copy_fields, fields_view, Fields};

verus! {

/// The flow-control variables of one link endpoint (2.6.7).
pub struct LinkFlowStateInner {
    /// The delivery count first announced on Attach; the sender never changes it.
    pub initial_delivery_count: SequenceNo,
    pub delivery_count: SequenceNo,
    pub link_credit: u32,
    pub available: u32,
    pub drain: bool,
    pub properties: Option<Fields>,
}

/// The model of an optional field table.
pub open spec fn opt_fields_view(f: Option<Fields>) -> Option<
    Seq<(Seq<char>, crate::value::ValueV)>,
> {
    match f {
        Some(f) => Some(fields_view(f@)),
        None => None,
    }
}

/// Copies an optional field table, preserving its model exactly.
pub fn copy_opt_fields(f: &Option<Fields>) -> (r: Option<Fields>)
    ensures
        opt_fields_view(r) == opt_fields_view(*f),
{
    match f {
        Some(f) => Some(copy_fields(f)),
        None => None,
    }
}

impl LinkFlowStateInner {
    /// The flow state at link creation: credit and available are zero and
    /// the drain flag is clear.
    pub fn new(initial_delivery_count: SequenceNo, properties: Option<Fields>) -> (r:
        LinkFlowStateInner)
        ensures
            r.initial_delivery_count == initial_delivery_count,
            r.delivery_count == initial_delivery_count,
            r.link_credit == 0,
            r.available == 0,
            !r.drain,
            r.properties == properties,
    {
        LinkFlowStateInner {
            initial_delivery_count,
            delivery_count: initial_delivery_count,
            link_credit: 0,
            available: 0,
            drain: false,
            properties,
        }
    }

    /// Reports the local flow state as the link portion of a Flow frame.
    pub fn as_link_flow(&self, output_handle: Handle, echo: bool) -> (r: LinkFlow)
        ensures
            r.handle == output_handle,
            r.delivery_count == Some(self.delivery_count),
            r.link_credit == Some(self.link_credit),
            r.available == Some(self.available),
            r.drain == self.drain,
            r.echo == echo,
            opt_fields_view(r.properties) == opt_fields_view(self.properties),
    {
        LinkFlow {
            handle: output_handle,
            delivery_count: Some(self.delivery_count),
            link_credit: Some(self.link_credit),
            available: Some(self.available),
            drain: self.drain,
            echo,
            properties: copy_opt_fields(&self.properties),
        }
    }

    /// Applies an incoming Flow to a sender's state.
    ///
    /// The sender's credit is recomputed from the receiver's view:
    /// `link_credit := delivery_count_rcv + link_credit_rcv - delivery_count_snd`,
    /// substituting the initial delivery count when the receiver does not yet
    /// know the delivery count. The drain flag is copied from the receiver.
    /// If the peer requests an echo, the local state is reported back with
    /// echo clear.
    pub fn sender_on_incoming_flow(&mut self, flow: &LinkFlow, output_handle: Handle) -> (r:
        Option<LinkFlow>)
        ensures
            final(self).link_credit == (match flow.link_credit {
                Some(c) => sn_sub(
                    sn_add(flow.delivery_count.unwrap_or(old(self).initial_delivery_count), c),
                    old(self).delivery_count,
                ),
                None => old(self).link_credit,
            }),
            final(self).drain == flow.drain,
            final(self).delivery_count == old(self).delivery_count,
            final(self).initial_delivery_count == old(self).initial_delivery_count,
            final(self).available == old(self).available,
            final(self).properties == old(self).properties,
            (match r {
                Some(echo_flow) => {
                    &&& flow.echo
                    &&& echo_flow.handle == output_handle
                    &&& echo_flow.delivery_count == Some(final(self).delivery_count)
                    &&& echo_flow.link_credit == Some(final(self).link_credit)
                    &&& echo_flow.available == Some(final(self).available)
                    &&& echo_flow.drain == final(self).drain
                    &&& !echo_flow.echo
                    &&& opt_fields_view(echo_flow.properties) == opt_fields_view(
                        final(self).properties,
                    )
                },
                None => !flow.echo,
            }),
    {
        let delivery_count_rcv = match flow.delivery_count {
            Some(c) => c,
            None => self.initial_delivery_count,
        };
        match flow.link_credit {
            Some(link_credit_rcv) => {
                self.link_credit = serial_sub(
                    serial_add(delivery_count_rcv, link_credit_rcv),
                    self.delivery_count,
                );
            },
            None => {},
        }
        self.drain = flow.drain;
        if flow.echo {
            Some(self.as_link_flow(output_handle, false))
        } else {
            None
        }
    }

    /// Applies an incoming Flow to a receiver's state: the sender's
    /// delivery count and available are adopted when present.
    pub fn receiver_on_incoming_flow(&mut self, flow: &LinkFlow, output_handle: Handle) -> (r:
        Option<LinkFlow>)
        ensures
            final(self).delivery_count == flow.delivery_count.unwrap_or(
                old(self).delivery_count,
            ),
            final(self).available == flow.available.unwrap_or(old(self).available),
            final(self).link_credit == old(self).link_credit,
            final(self).drain == old(self).drain,
            final(self).initial_delivery_count == old(self).initial_delivery_count,
            final(self).properties == old(self).properties,
            (match r {
                Some(echo_flow) => {
                    &&& flow.echo
                    &&& echo_flow.handle == output_handle
                    &&& echo_flow.delivery_count == Some(final(self).delivery_count)
                    &&& echo_flow.link_credit == Some(final(self).link_credit)
                    &&& echo_flow.available == Some(final(self).available)
                    &&& echo_flow.drain == final(self).drain
                    &&& !echo_flow.echo
                    &&& opt_fields_view(echo_flow.properties) == opt_fields_view(
                        final(self).properties,
                    )
                },
                None => !flow.echo,
            }),
    {
        match flow.delivery_count {
            Some(c) => {
                self.delivery_count = c;
            },
            None => {},
        }
        match flow.available {
            Some(a) => {
                self.available = a;
            },
            None => {},
        }
        if flow.echo {
            Some(self.as_link_flow(output_handle, false))
        } else {
            None
        }
    }

    /// Tries to take `count` units of credit for new deliveries.
    ///
    /// With insufficient credit nothing changes and `false` comes back: the
    /// sender never emits a Transfer for a new delivery without credit.
    pub fn try_consume_credit(&mut self, count: u32) -> (r: bool)
        ensures
            r == (old(self).link_credit >= count),
            r ==> *final(self) == (LinkFlowStateInner {
                delivery_count: sn_add(old(self).delivery_count, count),
                link_credit: (old(self).link_credit - count) as u32,
                ..*old(self)
            }),
            !r ==> *final(self) == *old(self),
    {
        if self.link_credit < count {
            false
        } else {
            self.delivery_count = serial_add(self.delivery_count, count);
            self.link_credit = self.link_credit - count;
            true
        }
    }

    /// Consumes all outstanding credit in answer to a drain request and
    /// reports the new state, as the drain semantics demand.
    pub fn drain_credit(&mut self, output_handle: Handle) -> (r: LinkFlow)
        ensures
            final(self).delivery_count == sn_add(old(self).delivery_count, old(self).link_credit),
            final(self).link_credit == 0,
            final(self).initial_delivery_count == old(self).initial_delivery_count,
            final(self).available == old(self).available,
            final(self).drain == old(self).drain,
            final(self).properties == old(self).properties,
            r.handle == output_handle,
            r.delivery_count == Some(final(self).delivery_count),
            r.link_credit == Some(0u32),
            !r.echo,
    {
        self.delivery_count = serial_add(self.delivery_count, self.link_credit);
        self.link_credit = 0;
        self.as_link_flow(output_handle, false)
    }
}

/// The sender and the receiver handle link flow control differently.
pub enum LinkFlowState {
    Sender(LinkFlowStateInner),
    Receiver(LinkFlowStateInner),
}

impl LinkFlowState {
    /// The flow variables, whichever the role.
    pub open spec fn inner(self) -> LinkFlowStateInner {
        match self {
            LinkFlowState::Sender(s) => s,
            LinkFlowState::Receiver(s) => s,
        }
    }

    /// Whether this is a sender's state.
    pub open spec fn is_sender(self) -> bool {
        self is Sender
    }

    /// Applies an incoming Flow frame according to the role: the sender
    /// recomputes its credit and adopts the drain flag; the receiver
    /// adopts the sender's delivery count and available. Either way an
    /// echo request is answered with the local state, echo clear.
    pub fn on_incoming_flow(&mut self, flow: &LinkFlow, output_handle: Handle) -> (r: Option<
        LinkFlow,
    >)
        ensures
            final(self).is_sender() == old(self).is_sender(),
            final(self).inner().initial_delivery_count == old(
                self,
            ).inner().initial_delivery_count,
            final(self).inner().properties == old(self).inner().properties,
            old(self).is_sender() ==> {
                &&& final(self).inner().link_credit == (match flow.link_credit {
                    Some(c) => sn_sub(
                        sn_add(
                            flow.delivery_count.unwrap_or(old(self).inner().initial_delivery_count),
                            c,
                        ),
                        old(self).inner().delivery_count,
                    ),
                    None => old(self).inner().link_credit,
                })
                &&& final(self).inner().drain == flow.drain
                &&& final(self).inner().delivery_count == old(self).inner().delivery_count
                &&& final(self).inner().available == old(self).inner().available
            },
            !old(self).is_sender() ==> {
                &&& final(self).inner().delivery_count == flow.delivery_count.unwrap_or(
                    old(self).inner().delivery_count,
                )
                &&& final(self).inner().available == flow.available.unwrap_or(
                    old(self).inner().available,
                )
                &&& final(self).inner().link_credit == old(self).inner().link_credit
                &&& final(self).inner().drain == old(self).inner().drain
            },
            (match r {
                Some(echo_flow) => {
                    &&& flow.echo
                    &&& echo_flow.handle == output_handle
                    &&& echo_flow.delivery_count == Some(final(self).inner().delivery_count)
                    &&& echo_flow.link_credit == Some(final(self).inner().link_credit)
                    &&& echo_flow.available == Some(final(self).inner().available)
                    &&& echo_flow.drain == final(self).inner().drain
                    &&& !echo_flow.echo
                    &&& opt_fields_view(echo_flow.properties) == opt_fields_view(
                        final(self).inner().properties,
                    )
                },
                None => !flow.echo,
            }),
    {
        match self {
            LinkFlowState::Sender(state) => state.sender_on_incoming_flow(flow, output_handle),
            LinkFlowState::Receiver(state) => state.receiver_on_incoming_flow(flow, output_handle),
        }
    }

    /// The last drain flag indicated by the peer.
    pub fn drain(&self) -> (r: bool)
        ensures
            r == self.inner().drain,
    {
        match self {
            LinkFlowState::Sender(s) => s.drain,
            LinkFlowState::Receiver(s) => s.drain,
        }
    }

    /// The delivery count announced on Attach.
    pub fn initial_delivery_count(&self) -> (r: SequenceNo)
        ensures
            r == self.inner().initial_delivery_count,
    {
        match self {
            LinkFlowState::Sender(s) => s.initial_delivery_count,
            LinkFlowState::Receiver(s) => s.initial_delivery_count,
        }
    }

    /// The current delivery count.
    pub fn delivery_count(&self) -> (r: SequenceNo)
        ensures
            r == self.inner().delivery_count,
    {
        match self {
            LinkFlowState::Sender(s) => s.delivery_count,
            LinkFlowState::Receiver(s) => s.delivery_count,
        }
    }

    /// The current link properties.
    pub fn properties(&self) -> (r: Option<Fields>)
        ensures
            opt_fields_view(r) == opt_fields_view(self.inner().properties),
    {
        match self {
            LinkFlowState::Sender(s) => copy_opt_fields(&s.properties),
            LinkFlowState::Receiver(s) => copy_opt_fields(&s.properties),
        }
    }
}

/// After a Flow from the receiver, the sender's credit satisfies the
/// protocol's formula, and later consuming `k` units leaves exactly
/// `credit - k`: credit never goes below zero.
pub proof fn lemma_sender_credit_invariant(
    delivery_count_rcv: u32,
    link_credit_rcv: u32,
    delivery_count_snd: u32,
    k: u32,
)
    requires
        k <= sn_sub(sn_add(delivery_count_rcv, link_credit_rcv), delivery_count_snd),
    ensures
        sn_sub(sn_add(delivery_count_rcv, link_credit_rcv), delivery_count_snd) - k >= 0,
        sn_sub(
            sn_add(delivery_count_rcv, link_credit_rcv),
            sn_add(delivery_count_snd, k),
        ) == sn_sub(sn_add(delivery_count_rcv, link_credit_rcv), delivery_count_snd) - k,
{
}


/// What the attach handshake does with the peer's answering Attach.
#[derive(Debug, Clone, Copy, PartialEq, Eq, Structural)]
pub enum AttachDecision {
    /// The peer supplied a terminus: the link comes up.
    Proceed,
    /// The peer created no terminus: it will detach at once, and the
    /// local side must answer with its own Detach.
    ExpectDetach,
}

/// Decides the attach handshake from the peer's Attach: without a target
/// the newly created link endpoint is detached immediately.
pub fn attach_decision(remote: &crate::performatives::Attach) -> (r: AttachDecision)
    ensures
        r == (if remote.target is Some {
            AttachDecision::Proceed
        } else {
            AttachDecision::ExpectDetach
        }),
{
    if remote.target.is_some() {
        AttachDecision::Proceed
    } else {
        AttachDecision::ExpectDetach
    }
}

} // verus!
