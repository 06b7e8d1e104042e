//! The sender link engine: consuming credit, emitting Transfer frames,
//! and tracking unsettled deliveries until their terminal outcome.

use std::collections::BTreeMap;

use vstd::prelude::*;

use crate::definitions::{DeliveryTag, Handle, MessageFormat, ReceiverSettleMode};
use crate::delivery::UnsettledMessage;
use crate::framing::{chunk_views, is_fragmentation, split_payload};
use crate::link::LinkFlowStateInner;
use crate::performatives::{DeliveryState, Transfer};
use crate::serial::sn_add;

verus! {

broadcast use {vstd::std_specs::btree::group_btree_axioms, vstd::laws_cmp::group_laws_cmp};

/// The sender's unsettled map: delivery tag to the message awaiting its
/// terminal outcome.
pub type UnsettledMap = BTreeMap<DeliveryTag, UnsettledMessage>;

/// The payload chunks a run of transfer frames carries.
pub open spec fn transfer_payloads(r: Seq<(Transfer, Vec<u8>)>) -> Seq<Seq<u8>> {
    chunk_views(r.map_values(|p: (Transfer, Vec<u8>)| p.1))
}

/// Consumes one unit of credit and assembles the Transfer frames for one
/// delivery, splitting the payload under the frame-size budget.
///
/// The delivery tag, message format and settled flag ride only on the
/// first frame; every frame but the last carries `more`. A delivery that
/// is not pre-settled is registered in the unsettled map under its tag; a
/// pre-settled one never is. Without credit the sender does not get here:
/// credit is required, so no Transfer is ever emitted at zero credit.
pub fn emit_transfers(
    flow: &mut LinkFlowStateInner,
    unsettled: &mut UnsettledMap,
    output_handle: Handle,
    tag: DeliveryTag,
    payload: Vec<u8>,
    message_format: MessageFormat,
    settled: bool,
    max_body: usize,
) -> (r: Vec<(Transfer, Vec<u8>)>)
    requires
        old(flow).link_credit >= 1,
        !old(unsettled)@.contains_key(tag),
        max_body >= 1,
    ensures
        final(flow).delivery_count == sn_add(old(flow).delivery_count, 1),
        final(flow).link_credit == (old(flow).link_credit - 1) as u32,
        final(flow).initial_delivery_count == old(flow).initial_delivery_count,
        final(flow).available == old(flow).available,
        final(flow).drain == old(flow).drain,
        final(flow).properties == old(flow).properties,
        settled ==> final(unsettled)@ == old(unsettled)@,
        !settled ==> (final(unsettled)@ =~= old(unsettled)@.insert(
            tag,
            final(unsettled)@[tag],
        ) && final(unsettled)@.contains_key(tag) && final(unsettled)@[tag].payload@ == payload@
            && final(unsettled)@[tag].state is None),
        r@.len() >= 1,
        is_fragmentation(payload@, max_body as int, transfer_payloads(r@)),
        forall|k: int|
            0 <= k < r@.len() ==> {
                let t = (#[trigger] r@[k]).0;
                &&& t.handle == output_handle
                &&& t.more == (k < r@.len() - 1)
                &&& t.delivery_id is None
                &&& t.delivery_tag == (if k == 0 {
                    Some(tag)
                } else {
                    Option::<DeliveryTag>::None
                })
                &&& t.message_format == (if k == 0 {
                    Some(message_format)
                } else {
                    Option::<MessageFormat>::None
                })
                &&& t.settled == (if k == 0 {
                    Some(settled)
                } else {
                    Option::<bool>::None
                })
                &&& t.state is None
                &&& !t.resume
                &&& !t.aborted
            },
{
    let consumed = flow.try_consume_credit(1);
    assert(consumed);
    if !settled {
        let stored = UnsettledMessage::new(crate::value::copy_bytes(&payload));
        unsettled.insert(tag, stored);
    }
    let chunks = split_payload(&payload, max_body);
    let ghost all_chunks = chunks@;
    let total = chunks.len();
    let mut frames: Vec<(Transfer, Vec<u8>)> = Vec::new();
    let mut i: usize = 0;
    while i < total
        invariant
            i <= total,
            total >= 1,
            chunks@ == all_chunks,
            chunks@.len() == total,
            frames@.len() == i,
            is_fragmentation(payload@, max_body as int, chunk_views(all_chunks)),
            transfer_payloads(frames@) =~= chunk_views(chunks@).take(i as int),
            forall|k: int|
                0 <= k < i ==> {
                    let t = (#[trigger] frames@[k]).0;
                    &&& t.handle == output_handle
                    &&& t.more == (k < total - 1)
                    &&& t.delivery_id is None
                    &&& t.delivery_tag == (if k == 0 {
                        Some(tag)
                    } else {
                        Option::<DeliveryTag>::None
                    })
                    &&& t.message_format == (if k == 0 {
                        Some(message_format)
                    } else {
                        Option::<MessageFormat>::None
                    })
                    &&& t.settled == (if k == 0 {
                        Some(settled)
                    } else {
                        Option::<bool>::None
                    })
                    &&& t.state is None
                    &&& !t.resume
                    &&& !t.aborted
                },
        decreases total - i,
    {
        let chunk = crate::value::copy_bytes(&chunks[i]);
        let transfer = Transfer {
            handle: output_handle,
            delivery_id: None,
            delivery_tag: (if i == 0 {
                Some(tag)
            } else {
                None
            }),
            message_format: (if i == 0 {
                Some(message_format)
            } else {
                None
            }),
            settled: (if i == 0 {
                Some(settled)
            } else {
                None
            }),
            more: i < total - 1,
            rcv_settle_mode: None,
            state: None,
            resume: false,
            aborted: false,
            batchable: false,
        };
        frames.push((transfer, chunk));
        assert(transfer_payloads(frames@) =~= chunk_views(chunks@).take(i + 1 as int));
        i = i + 1;
    }
    proof {
        assert(chunk_views(chunks@).take(total as int) =~= chunk_views(chunks@));
    }
    frames
}

/// Applies an incoming Disposition from the receiver to one unsettled
/// delivery of the sender.
///
/// A settled disposition removes the entry and hands its settling state
/// out to resolve the waiting send; in receiver-settle-mode Second the
/// sender owes an echo of a settled disposition. An unsettled disposition
/// only updates the stored state in place.
pub fn sender_on_incoming_disposition(
    unsettled: &mut UnsettledMap,
    receiver_settle_mode: ReceiverSettleMode,
    is_settled: bool,
    state: Option<DeliveryState>,
    delivery_tag: DeliveryTag,
) -> (r: (bool, Option<Option<DeliveryState>>))
    ensures
        is_settled ==> {
            &&& final(unsettled)@ == old(unsettled)@.remove(delivery_tag)
            &&& r.1 == (if old(unsettled)@.contains_key(delivery_tag) {
                Some(state)
            } else {
                Option::<Option<DeliveryState>>::None
            })
            &&& r.0 == (receiver_settle_mode == ReceiverSettleMode::Second)
        },
        !is_settled ==> {
            &&& !r.0
            &&& r.1 is None
            &&& (old(unsettled)@.contains_key(delivery_tag) ==> {
                &&& final(unsettled)@ =~= old(unsettled)@.insert(
                    delivery_tag,
                    final(unsettled)@[delivery_tag],
                )
                &&& final(unsettled)@.contains_key(delivery_tag)
                &&& final(unsettled)@[delivery_tag].payload@ == old(unsettled)@[
                    delivery_tag
                ].payload@
                &&& final(unsettled)@[delivery_tag].state == (if state is Some {
                    state
                } else {
                    old(unsettled)@[delivery_tag].state
                })
            })
            &&& (!old(unsettled)@.contains_key(delivery_tag) ==> final(unsettled)@ == old(
                unsettled,
            )@)
        },
{
    if is_settled {
        let removed = unsettled.remove(&delivery_tag);
        let outcome = match removed {
            Some(entry) => Some(entry.settle_with_state(state)),
            None => None,
        };
        let echo = match receiver_settle_mode {
            // The receiver settles all incoming transfers spontaneously.
            ReceiverSettleMode::First => false,
            // The receiver settles only after the sender's settled
            // disposition comes back: the sender owes the echo.
            ReceiverSettleMode::Second => true,
        };
        (echo, outcome)
    } else {
        match unsettled.remove(&delivery_tag) {
            Some(entry) => {
                let new_state = match state {
                    Some(s) => Some(s),
                    None => entry.state,
                };
                let updated = UnsettledMessage { payload: entry.payload, state: new_state };
                unsettled.insert(delivery_tag, updated);
                proof {
                    assert(unsettled@ =~= old(unsettled)@.insert(
                        delivery_tag,
                        unsettled@[delivery_tag],
                    ));
                }
            },
            None => {},
        }
        (false, None)
    }
}

/// The unsettled ledger is a bijection in time: for a delivery that is
/// not pre-settled, the send registers an entry under its fresh tag, the
/// entry stands until the settling disposition, and the settlement
/// removes it, leaving the ledger as before; a pre-settled send leaves
/// the ledger untouched throughout.
pub proof fn lemma_unsettled_bijection(
    m: Map<DeliveryTag, UnsettledMessage>,
    tag: DeliveryTag,
    entry: UnsettledMessage,
)
    requires
        !m.contains_key(tag),
    ensures
        m.insert(tag, entry).contains_key(tag),
        m.insert(tag, entry)[tag] == entry,
        m.insert(tag, entry).remove(tag) =~= m,
{
}

} // verus!
