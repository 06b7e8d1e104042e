//! The receiver link engine: granting credit, reassembling multi-frame
//! deliveries, and deciding dispositions by settlement mode.

use vstd::prelude::*;

use crate::definitions::{
    DeliveryNumber, DeliveryTag, Handle, ReceiverSettleMode, Role, SenderSettleMode,
};
use crate::framing::{concat_bytes, chunk_views, reassemble};
use crate::link::LinkFlowStateInner;
use crate::performatives::{DeliveryState, Disposition, LinkFlow, Transfer};
use crate::serial::sn_add;

verus! {

/// A delivery still being reassembled from `more` transfer frames.
#[derive(Debug)]
pub struct IncompleteTransfer {
    pub delivery_id: DeliveryNumber,
    pub delivery_tag: DeliveryTag,
    pub message_format: Option<u32>,
    /// The payload chunks received so far, in arrival order.
    pub buffer: Vec<Vec<u8>>,
}

/// What an incoming transfer frame produced on the receiver.
#[derive(Debug)]
pub enum TransferOutcome {
    /// More frames of this delivery are outstanding.
    Partial(IncompleteTransfer),
    /// The delivery is complete: its identity and reassembled payload.
    Completed { delivery_id: DeliveryNumber, delivery_tag: DeliveryTag, payload: Vec<u8> },
}

/// Grants credit: sets the link credit and reports the state in a Flow
/// for the peer. The receiver must announce credit before any message
/// can arrive.
pub fn receiver_set_credit(flow: &mut LinkFlowStateInner, output_handle: Handle, credit: u32) -> (r:
    LinkFlow)
    ensures
        final(flow).link_credit == credit,
        final(flow).delivery_count == old(flow).delivery_count,
        final(flow).initial_delivery_count == old(flow).initial_delivery_count,
        final(flow).available == old(flow).available,
        final(flow).drain == old(flow).drain,
        final(flow).properties == old(flow).properties,
        r.handle == output_handle,
        r.delivery_count == Some(final(flow).delivery_count),
        r.link_credit == Some(credit),
        !r.echo,
{
    flow.link_credit = credit;
    flow.as_link_flow(output_handle, false)
}

/// Applies one incoming Transfer frame to the receiver.
///
/// A frame with `more` appends its payload to the reassembly buffer; the
/// identity fields ride on the first frame only. The final frame
/// completes the delivery: its payload is the concatenation of every
/// frame's payload, the delivery count advances by one and one unit of
/// credit is consumed.
pub fn receiver_on_incoming_transfer(
    flow: &mut LinkFlowStateInner,
    partial: Option<IncompleteTransfer>,
    transfer: &Transfer,
    payload: Vec<u8>,
) -> (r: Result<TransferOutcome, ()>)
    requires
        old(flow).link_credit >= 1,
    ensures
        (match r {
            Ok(TransferOutcome::Partial(p)) => {
                &&& transfer.more
                &&& *final(flow) == *old(flow)
                &&& (match partial {
                    Some(prev) => {
                        &&& p.delivery_id == prev.delivery_id
                        &&& p.delivery_tag == prev.delivery_tag
                        &&& chunk_views(p.buffer@) == chunk_views(prev.buffer@).push(payload@)
                    },
                    None => {
                        &&& transfer.delivery_id == Some(p.delivery_id)
                        &&& transfer.delivery_tag == Some(p.delivery_tag)
                        &&& chunk_views(p.buffer@) =~= seq![payload@]
                    },
                })
            },
            Ok(TransferOutcome::Completed { delivery_id, delivery_tag, payload: done }) => {
                &&& !transfer.more
                &&& final(flow).delivery_count == sn_add(old(flow).delivery_count, 1)
                &&& final(flow).link_credit == (old(flow).link_credit - 1) as u32
                &&& final(flow).initial_delivery_count == old(flow).initial_delivery_count
                &&& (match partial {
                    Some(prev) => {
                        &&& delivery_id == prev.delivery_id
                        &&& delivery_tag == prev.delivery_tag
                        &&& done@ == concat_bytes(chunk_views(prev.buffer@).push(payload@))
                    },
                    None => {
                        &&& transfer.delivery_id == Some(delivery_id)
                        &&& transfer.delivery_tag == Some(delivery_tag)
                        &&& done@ == payload@
                    },
                })
            },
            Err(()) => {
                &&& partial is None
                &&& (transfer.delivery_id is None || transfer.delivery_tag is None)
                &&& *final(flow) == *old(flow)
            },
        }),
{
    let (delivery_id, delivery_tag, mut buffer): (DeliveryNumber, DeliveryTag, Vec<Vec<u8>>) =
        match partial {
        Some(prev) => (prev.delivery_id, prev.delivery_tag, prev.buffer),
        None => {
            let id = match transfer.delivery_id {
                Some(id) => id,
                None => {
                    return Err(());
                },
            };
            let tag = match transfer.delivery_tag {
                Some(tag) => tag,
                None => {
                    return Err(());
                },
            };
            (id, tag, Vec::new())
        },
    };
    let ghost chunks_before = chunk_views(buffer@);
    if transfer.more {
        buffer.push(payload);
        proof {
            assert(chunk_views(buffer@) =~= chunks_before.push(payload@));
        }
        return Ok(
            TransferOutcome::Partial(
                IncompleteTransfer {
                    delivery_id,
                    delivery_tag,
                    message_format: transfer.message_format,
                    buffer,
                },
            ),
        );
    }
    flow.delivery_count = crate::serial::serial_add(flow.delivery_count, 1);
    flow.link_credit = flow.link_credit - 1;
    let ghost payload_view = payload@;
    buffer.push(payload);
    proof {
        assert(chunk_views(buffer@) =~= chunks_before.push(payload_view));
        if chunks_before.len() == 0 {
            let one = chunks_before.push(payload_view);
            assert(one.drop_last() =~= chunks_before);
            assert(one.last() == payload_view);
            assert(concat_bytes(one) == concat_bytes(chunks_before) + payload_view);
            assert(concat_bytes(chunks_before) =~= Seq::<u8>::empty());
            assert(concat_bytes(one) =~= payload_view);
        }
    }
    let done = reassemble(&buffer);
    Ok(TransferOutcome::Completed { delivery_id, delivery_tag, payload: done })
}

/// The disposition a receiver owes for a finished delivery, by the
/// negotiated settlement modes.
///
/// A sender-settled delivery needs no disposition. In
/// receiver-settle-mode First the receiver answers with a settled
/// disposition carrying the outcome; in mode Second it answers
/// unsettled, awaiting the sender's settling echo.
pub fn receiver_disposition(
    delivery_id: DeliveryNumber,
    snd_settled: bool,
    rcv_settle_mode: ReceiverSettleMode,
    state: DeliveryState,
) -> (r: Option<Disposition>)
    ensures
        (match r {
            Some(d) => {
                &&& !snd_settled
                &&& d.role == Role::Receiver
                &&& d.first == delivery_id
                &&& d.last == Some(delivery_id)
                &&& d.settled == (rcv_settle_mode == ReceiverSettleMode::First)
                &&& d.state == Some(state)
                &&& !d.batchable
            },
            None => snd_settled,
        }),
{
    if snd_settled {
        None
    } else {
        let settled = match rcv_settle_mode {
            ReceiverSettleMode::First => true,
            ReceiverSettleMode::Second => false,
        };
        Some(
            Disposition {
                role: Role::Receiver,
                first: delivery_id,
                last: Some(delivery_id),
                settled,
                state: Some(state),
                batchable: false,
            },
        )
    }
}

/// Whether a delivery arrives pre-settled: either the frame says so, or
/// the negotiated sender settle mode is Settled.
pub fn is_pre_settled(transfer_settled: Option<bool>, snd_settle_mode: SenderSettleMode) -> (r:
    bool)
    ensures
        r == (transfer_settled == Some(true) || snd_settle_mode == SenderSettleMode::Settled),
{
    match transfer_settled {
        Some(true) => true,
        _ => matches!(snd_settle_mode, SenderSettleMode::Settled),
    }
}

} // verus!
